use vstd::prelude::*;

use crate::scalar::Scalar;

verus! {

/// Number of free parameters that a dual number carries partial derivatives for.
pub const PARAMETERS: usize = 4;

/// A value together with its partial derivatives with respect to the four fit
/// parameters (pos.x, pos.y, vel.x, vel.y, in that order). Arithmetic on it
/// propagates the derivatives by the chain rule (forward-mode differentiation).
#[derive(Clone, Copy, Debug)]
pub struct Dual<T> {
    pub value: T,
    pub derivative: [T; 4],
}

pub open spec fn add4_spec<T: Scalar>(d: [T; 4], e: [T; 4]) -> [T; 4] {
    [d@[0].plus_spec(e@[0]), d@[1].plus_spec(e@[1]), d@[2].plus_spec(e@[2]), d@[3].plus_spec(e@[3])]
}

pub open spec fn sub4_spec<T: Scalar>(d: [T; 4], e: [T; 4]) -> [T; 4] {
    [
        d@[0].minus_spec(e@[0]),
        d@[1].minus_spec(e@[1]),
        d@[2].minus_spec(e@[2]),
        d@[3].minus_spec(e@[3]),
    ]
}

pub open spec fn scale4_spec<T: Scalar>(d: [T; 4], k: T) -> [T; 4] {
    [d@[0].times_spec(k), d@[1].times_spec(k), d@[2].times_spec(k), d@[3].times_spec(k)]
}

pub open spec fn div4_spec<T: Scalar>(d: [T; 4], k: T) -> [T; 4] {
    [d@[0].over_spec(k), d@[1].over_spec(k), d@[2].over_spec(k), d@[3].over_spec(k)]
}

pub open spec fn neg4_spec<T: Scalar>(d: [T; 4]) -> [T; 4] {
    [d@[0].negate_spec(), d@[1].negate_spec(), d@[2].negate_spec(), d@[3].negate_spec()]
}

/// The derivative vector with `one` in slot `slot` and `zero` elsewhere.
pub open spec fn unit4_spec<T>(zero: T, one: T, slot: int) -> [T; 4] {
    [
        if slot == 0 { one } else { zero },
        if slot == 1 { one } else { zero },
        if slot == 2 { one } else { zero },
        if slot == 3 { one } else { zero },
    ]
}

/// The exponent one below `n` (wrapping at the bottom of the range).
pub open spec fn pred_exp(n: i32) -> i32 {
    if n == i32::MIN {
        i32::MAX
    } else {
        (n - 1) as i32
    }
}

fn add4<T: Scalar>(d: &[T; 4], e: &[T; 4]) -> (r: [T; 4])
    ensures
        r == add4_spec(*d, *e),
{
    [d[0].plus(e[0]), d[1].plus(e[1]), d[2].plus(e[2]), d[3].plus(e[3])]
}

fn sub4<T: Scalar>(d: &[T; 4], e: &[T; 4]) -> (r: [T; 4])
    ensures
        r == sub4_spec(*d, *e),
{
    [d[0].minus(e[0]), d[1].minus(e[1]), d[2].minus(e[2]), d[3].minus(e[3])]
}

fn scale4<T: Scalar>(d: &[T; 4], k: T) -> (r: [T; 4])
    ensures
        r == scale4_spec(*d, k),
{
    [d[0].times(k), d[1].times(k), d[2].times(k), d[3].times(k)]
}

fn div4<T: Scalar>(d: &[T; 4], k: T) -> (r: [T; 4])
    ensures
        r == div4_spec(*d, k),
{
    [d[0].over(k), d[1].over(k), d[2].over(k), d[3].over(k)]
}

fn neg4<T: Scalar>(d: &[T; 4]) -> (r: [T; 4])
    ensures
        r == neg4_spec(*d),
{
    [d[0].negate(), d[1].negate(), d[2].negate(), d[3].negate()]
}

impl<T: Scalar> Dual<T> {
    /// A constant: its derivatives are all zero.
    pub open spec fn constant_spec(v: T) -> Dual<T> {
        Dual { value: v, derivative: unit4_spec(T::from_int_spec(0), T::from_int_spec(0), -1) }
    }

    /// The free parameter number `slot`: derivative one in its own slot, zero
    /// elsewhere.
    pub open spec fn variable_spec(v: T, slot: int) -> Dual<T> {
        Dual { value: v, derivative: unit4_spec(T::from_int_spec(0), T::from_int_spec(1), slot) }
    }

    pub fn constant(v: T) -> (r: Dual<T>)
        ensures
            r == Self::constant_spec(v),
    {
        let z = T::from_int(0);
        Dual { value: v, derivative: [z, z, z, z] }
    }

    pub fn variable(v: T, slot: usize) -> (r: Dual<T>)
        requires
            slot < PARAMETERS,
        ensures
            r == Self::variable_spec(v, slot as int),
    {
        let z = T::from_int(0);
        let o = T::from_int(1);
        let d = [
            if slot == 0 { o } else { z },
            if slot == 1 { o } else { z },
            if slot == 2 { o } else { z },
            if slot == 3 { o } else { z },
        ];
        Dual { value: v, derivative: d }
    }
}

impl<T: Scalar> Scalar for Dual<T> {
    open spec fn plus_spec(self, o: Self) -> Self {
        Dual {
            value: self.value.plus_spec(o.value),
            derivative: add4_spec(self.derivative, o.derivative),
        }
    }

    open spec fn minus_spec(self, o: Self) -> Self {
        Dual {
            value: self.value.minus_spec(o.value),
            derivative: sub4_spec(self.derivative, o.derivative),
        }
    }

    /// `d(a * b) = da * b + db * a`
    open spec fn times_spec(self, o: Self) -> Self {
        Dual {
            value: self.value.times_spec(o.value),
            derivative: add4_spec(
                scale4_spec(self.derivative, o.value),
                scale4_spec(o.derivative, self.value),
            ),
        }
    }

    /// `d(a / b) = (da * b - db * a) / (b * b)`
    open spec fn over_spec(self, o: Self) -> Self {
        Dual {
            value: self.value.over_spec(o.value),
            derivative: div4_spec(
                sub4_spec(
                    scale4_spec(self.derivative, o.value),
                    scale4_spec(o.derivative, self.value),
                ),
                o.value.times_spec(o.value),
            ),
        }
    }

    open spec fn negate_spec(self) -> Self {
        Dual { value: self.value.negate_spec(), derivative: neg4_spec(self.derivative) }
    }

    /// `d(sqrt a) = da / (2 * sqrt a)`
    open spec fn sqrt_spec(self) -> Self {
        let s = self.value.sqrt_spec();
        Dual {
            value: s,
            derivative: div4_spec(self.derivative, T::from_int_spec(2).times_spec(s)),
        }
    }

    /// `d(a^n) = da * (n * a^(n - 1))`
    open spec fn powi_spec(self, n: i32) -> Self {
        Dual {
            value: self.value.powi_spec(n),
            derivative: scale4_spec(
                self.derivative,
                T::from_int_spec(n).times_spec(self.value.powi_spec(pred_exp(n))),
            ),
        }
    }

    /// `d(atan2(y, x)) = (dy * x - dx * y) / (x * x + y * y)`
    open spec fn atan2_spec(self, x: Self) -> Self {
        Dual {
            value: self.value.atan2_spec(x.value),
            derivative: div4_spec(
                sub4_spec(
                    scale4_spec(self.derivative, x.value),
                    scale4_spec(x.derivative, self.value),
                ),
                x.value.times_spec(x.value).plus_spec(self.value.times_spec(self.value)),
            ),
        }
    }

    /// `d(cos a) = da * (-sin a)`
    open spec fn cos_spec(self) -> Self {
        Dual {
            value: self.value.cos_spec(),
            derivative: scale4_spec(self.derivative, self.value.sin_spec().negate_spec()),
        }
    }

    /// `d(sin a) = da * cos a`
    open spec fn sin_spec(self) -> Self {
        Dual {
            value: self.value.sin_spec(),
            derivative: scale4_spec(self.derivative, self.value.cos_spec()),
        }
    }

    open spec fn from_int_spec(n: i32) -> Self {
        Dual::<T>::constant_spec(T::from_int_spec(n))
    }

    fn plus(self, o: Self) -> (r: Self) {
        Dual {
            value: self.value.plus(o.value),
            derivative: add4(&self.derivative, &o.derivative),
        }
    }

    fn minus(self, o: Self) -> (r: Self) {
        Dual {
            value: self.value.minus(o.value),
            derivative: sub4(&self.derivative, &o.derivative),
        }
    }

    fn times(self, o: Self) -> (r: Self) {
        let left = scale4(&self.derivative, o.value);
        let right = scale4(&o.derivative, self.value);
        Dual { value: self.value.times(o.value), derivative: add4(&left, &right) }
    }

    fn over(self, o: Self) -> (r: Self) {
        let left = scale4(&self.derivative, o.value);
        let right = scale4(&o.derivative, self.value);
        let num = sub4(&left, &right);
        Dual { value: self.value.over(o.value), derivative: div4(&num, o.value.times(o.value)) }
    }

    fn negate(self) -> (r: Self) {
        Dual { value: self.value.negate(), derivative: neg4(&self.derivative) }
    }

    fn sqrt(self) -> (r: Self) {
        let s = self.value.sqrt();
        Dual { value: s, derivative: div4(&self.derivative, T::from_int(2).times(s)) }
    }

    fn powi(self, n: i32) -> (r: Self) {
        let m: i32 = if n == i32::MIN {
            i32::MAX
        } else {
            n - 1
        };
        let k = T::from_int(n).times(self.value.powi(m));
        Dual { value: self.value.powi(n), derivative: scale4(&self.derivative, k) }
    }

    fn atan2(self, x: Self) -> (r: Self) {
        let left = scale4(&self.derivative, x.value);
        let right = scale4(&x.derivative, self.value);
        let num = sub4(&left, &right);
        let r2 = x.value.times(x.value).plus(self.value.times(self.value));
        Dual { value: self.value.atan2(x.value), derivative: div4(&num, r2) }
    }

    fn cos(self) -> (r: Self) {
        let k = self.value.sin().negate();
        Dual { value: self.value.cos(), derivative: scale4(&self.derivative, k) }
    }

    fn sin(self) -> (r: Self) {
        let k = self.value.cos();
        Dual { value: self.value.sin(), derivative: scale4(&self.derivative, k) }
    }

    fn from_int(n: i32) -> (r: Self) {
        Dual::constant(T::from_int(n))
    }
}

} // verus!
