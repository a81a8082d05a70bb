use vstd::prelude::*;

verus! {

/// The numeric element type the dynamics, the observation model and the
/// residuals are written over: a plain number or one that carries derivatives.
///
/// Each operation is a function of its operands alone. The spec functions name
/// that function; an implementation promises that its executable operation
/// returns exactly what the corresponding spec function gives.
pub trait Scalar: Sized + Copy {
    spec fn plus_spec(self, o: Self) -> Self;

    spec fn minus_spec(self, o: Self) -> Self;

    spec fn times_spec(self, o: Self) -> Self;

    spec fn over_spec(self, o: Self) -> Self;

    spec fn negate_spec(self) -> Self;

    spec fn sqrt_spec(self) -> Self;

    spec fn powi_spec(self, n: i32) -> Self;

    spec fn atan2_spec(self, x: Self) -> Self;

    spec fn cos_spec(self) -> Self;

    spec fn sin_spec(self) -> Self;

    spec fn from_int_spec(n: i32) -> Self;

    fn plus(self, o: Self) -> (r: Self)
        ensures
            r == self.plus_spec(o),
    ;

    fn minus(self, o: Self) -> (r: Self)
        ensures
            r == self.minus_spec(o),
    ;

    fn times(self, o: Self) -> (r: Self)
        ensures
            r == self.times_spec(o),
    ;

    fn over(self, o: Self) -> (r: Self)
        ensures
            r == self.over_spec(o),
    ;

    fn negate(self) -> (r: Self)
        ensures
            r == self.negate_spec(),
    ;

    fn sqrt(self) -> (r: Self)
        ensures
            r == self.sqrt_spec(),
    ;

    fn powi(self, n: i32) -> (r: Self)
        ensures
            r == self.powi_spec(n),
    ;

    /// Four-quadrant arctangent of `self / x`, with `self` the ordinate.
    fn atan2(self, x: Self) -> (r: Self)
        ensures
            r == self.atan2_spec(x),
    ;

    fn cos(self) -> (r: Self)
        ensures
            r == self.cos_spec(),
    ;

    fn sin(self) -> (r: Self)
        ensures
            r == self.sin_spec(),
    ;

    /// A small integer as a constant of this type.
    fn from_int(n: i32) -> (r: Self)
        ensures
            r == Self::from_int_spec(n),
    ;
}

} // verus!
