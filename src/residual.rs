use vstd::prelude::*;

use crate::dual::{Dual, PARAMETERS};
use crate::dynamics::{state_after, step_spec, time_step_spec, trajectory_spec, TRAJECTORY_STEPS};
use crate::observation::{predicted_spec, sample_and_observe, sampled_spec, SAMPLE_STRIDE};
use crate::scalar::Scalar;
use crate::state::{State, Vec2};

verus! {

/// `observed[i] - predicted[i]` for each instant that both sequences cover.
pub open spec fn residuals_spec<T: Scalar>(observed: Seq<T>, s: State<T>) -> Seq<T> {
    let predicted = predicted_spec(s);
    let n = if observed.len() <= predicted.len() {
        observed.len()
    } else {
        predicted.len()
    };
    Seq::new(n, |i: int| observed[i].minus_spec(predicted[i]))
}

/// The state as dual numbers, each parameter seeded as its own free variable:
/// slot 0 for pos.x, 1 for pos.y, 2 for vel.x, 3 for vel.y.
pub open spec fn seeded_spec<T: Scalar>(s: State<T>) -> State<Dual<T>> {
    State {
        pos: Vec2 { x: Dual::variable_spec(s.pos.x, 0), y: Dual::variable_spec(s.pos.y, 1) },
        vel: Vec2 { x: Dual::variable_spec(s.vel.x, 2), y: Dual::variable_spec(s.vel.y, 3) },
    }
}

/// Each observation as a constant dual number.
pub open spec fn lifted_spec<T: Scalar>(observed: Seq<T>) -> Seq<Dual<T>> {
    Seq::new(observed.len(), |i: int| Dual::constant_spec(observed[i]))
}

/// The residuals evaluated on dual numbers seeded at `s`.
pub open spec fn dual_residuals_spec<T: Scalar>(observed: Seq<T>, s: State<T>) -> Seq<Dual<T>> {
    residuals_spec(lifted_spec(observed), seeded_spec(s))
}

/// Row `i` holds the partial derivatives of residual `i` with respect to the
/// four parameters, as carried by the dual evaluation.
pub open spec fn jacobian_spec<T: Scalar>(observed: Seq<T>, s: State<T>) -> Seq<[T; 4]> {
    let res = dual_residuals_spec(observed, s);
    Seq::new(res.len(), |i: int| res[i].derivative)
}

/// Observed minus predicted bearing at each observation instant.
pub fn residuals<T: Scalar>(observed: &Vec<T>, initial_state: &State<T>) -> (r: Vec<T>)
    ensures
        r@ == residuals_spec(observed@, *initial_state),
{
    let predicted = sample_and_observe(initial_state);
    let n = if observed.len() <= predicted.len() {
        observed.len()
    } else {
        predicted.len()
    };
    let mut r: Vec<T> = Vec::new();
    let mut i: usize = 0;
    while i < n
        invariant
            predicted@ == predicted_spec(*initial_state),
            n <= observed@.len(),
            n <= predicted@.len(),
            n == residuals_spec(observed@, *initial_state).len(),
            i <= n,
            r@ == residuals_spec(observed@, *initial_state).take(i as int),
        decreases n - i,
    {
        r.push(observed[i].minus(predicted[i]));
        i = i + 1;
        assert(r@ =~= residuals_spec(observed@, *initial_state).take(i as int));
    }
    assert(r@ =~= residuals_spec(observed@, *initial_state));
    r
}

/// `s` as dual numbers, each parameter its own free variable.
pub fn seeded<T: Scalar>(s: &State<T>) -> (r: State<Dual<T>>)
    ensures
        r == seeded_spec(*s),
{
    State {
        pos: Vec2 { x: Dual::variable(s.pos.x, 0), y: Dual::variable(s.pos.y, 1) },
        vel: Vec2 { x: Dual::variable(s.vel.x, 2), y: Dual::variable(s.vel.y, 3) },
    }
}

/// The observations as constant dual numbers.
pub fn lifted<T: Scalar>(observed: &Vec<T>) -> (r: Vec<Dual<T>>)
    ensures
        r@ == lifted_spec(observed@),
{
    let mut r: Vec<Dual<T>> = Vec::new();
    let mut i: usize = 0;
    while i < observed.len()
        invariant
            i <= observed@.len(),
            r@ == lifted_spec(observed@).take(i as int),
        decreases observed@.len() - i,
    {
        r.push(Dual::constant(observed[i]));
        i = i + 1;
        assert(r@ =~= lifted_spec(observed@).take(i as int));
    }
    assert(r@ =~= lifted_spec(observed@));
    r
}

/// The Jacobian of the residuals at `s`: one row of four partial derivatives
/// per residual, obtained by running the residual evaluation on dual numbers.
pub fn jacobian<T: Scalar>(observed: &Vec<T>, s: &State<T>) -> (r: Vec<[T; 4]>)
    ensures
        r@ == jacobian_spec(observed@, *s),
        r@.len() == residuals_spec(observed@, *s).len(),
{
    let res = residuals(&lifted(observed), &seeded(s));
    let mut r: Vec<[T; 4]> = Vec::new();
    let mut i: usize = 0;
    while i < res.len()
        invariant
            res@ == dual_residuals_spec(observed@, *s),
            i <= res@.len(),
            r@ == jacobian_spec(observed@, *s).take(i as int),
        decreases res@.len() - i,
    {
        r.push(res[i].derivative);
        i = i + 1;
        assert(r@ =~= jacobian_spec(observed@, *s).take(i as int));
    }
    assert(r@ =~= jacobian_spec(observed@, *s));
    r
}

/// Bearings generated from a state, fitted back at that same state, leave as
/// residual at each instant the generated bearing minus itself: the generating
/// state reproduces noise-free observations exactly.
pub proof fn lemma_residuals_at_source<T: Scalar>(s: State<T>)
    ensures
        residuals_spec(predicted_spec(s), s).len() == predicted_spec(s).len(),
        forall|i: int|
            0 <= i < predicted_spec(s).len() ==> #[trigger] residuals_spec(predicted_spec(s), s)[i]
                == predicted_spec(s)[i].minus_spec(predicted_spec(s)[i]),
{
}

/// The plain values carried by a state of dual numbers.
pub open spec fn values_spec<T>(s: State<Dual<T>>) -> State<T> {
    State {
        pos: Vec2 { x: s.pos.x.value, y: s.pos.y.value },
        vel: Vec2 { x: s.vel.x.value, y: s.vel.y.value },
    }
}

proof fn lemma_step_values<T: Scalar>(s: State<Dual<T>>, dt: Dual<T>)
    ensures
        values_spec(step_spec(s, dt)) == step_spec(values_spec(s), dt.value),
{
}

proof fn lemma_state_after_values<T: Scalar>(s: State<Dual<T>>, dt: Dual<T>, k: nat)
    ensures
        values_spec(state_after(s, dt, k)) == state_after(values_spec(s), dt.value, k),
    decreases k,
{
    if k > 0 {
        lemma_state_after_values(s, dt, (k - 1) as nat);
        lemma_step_values(state_after(s, dt, (k - 1) as nat), dt);
    }
}

proof fn lemma_predicted_values<T: Scalar>(s: State<Dual<T>>)
    ensures
        predicted_spec(s).len() == predicted_spec(values_spec(s)).len(),
        forall|i: int|
            0 <= i < predicted_spec(s).len() ==> (#[trigger] predicted_spec(s)[i]).value
                == predicted_spec(values_spec(s))[i],
{
    let dt = time_step_spec::<Dual<T>>();
    assert(dt.value == time_step_spec::<T>());
    let n = TRAJECTORY_STEPS as nat;
    let k = SAMPLE_STRIDE as nat;
    assert forall|i: int| 0 <= i < predicted_spec(s).len() implies (
    #[trigger] predicted_spec(s)[i]).value == predicted_spec(values_spec(s))[i] by {
        let j = k * i + k - 1;
        assert(0 <= j < n) by (nonlinear_arith)
            requires
                0 <= i < n / k,
                j == k * i + k - 1,
                k == 5,
                n == 120,
        ;
        lemma_state_after_values(s, dt, (j + 1) as nat);
        assert(trajectory_spec(s, dt, n)[j] == state_after(s, dt, (j + 1) as nat));
        assert(trajectory_spec(values_spec(s), time_step_spec::<T>(), n)[j] == state_after(
            values_spec(s),
            time_step_spec::<T>(),
            (j + 1) as nat,
        ));
        assert(sampled_spec(s)[i] == state_after(s, dt, (j + 1) as nat).pos);
        assert(sampled_spec(values_spec(s))[i] == state_after(
            values_spec(s),
            time_step_spec::<T>(),
            (j + 1) as nat,
        ).pos);
    }
}

/// Evaluating the residuals on dual numbers seeded at `s` carries, as values,
/// exactly the residuals evaluated on plain numbers at `s`: the derivatives
/// ride along without changing the computation they differentiate.
pub proof fn lemma_dual_residual_values<T: Scalar>(observed: Seq<T>, s: State<T>)
    ensures
        dual_residuals_spec(observed, s).len() == residuals_spec(observed, s).len(),
        forall|i: int|
            0 <= i < residuals_spec(observed, s).len() ==> (#[trigger] dual_residuals_spec(
                observed,
                s,
            )[i]).value == residuals_spec(observed, s)[i],
{
    assert(values_spec(seeded_spec(s)) == s);
    lemma_predicted_values(seeded_spec(s));
}

} // verus!
