use vstd::prelude::*;

use crate::dynamics::{time_step, time_step_spec};
use crate::observation::SAMPLE_STRIDE;
use crate::residual::{jacobian, jacobian_spec, residuals, residuals_spec};
use crate::scalar::Scalar;
use crate::state::{State, Vec2};

verus! {

/// Why a fit could not be started.
#[derive(Clone, Copy, Debug, PartialEq, Eq, Structural)]
pub enum FitError {
    /// Fewer than two observations: the initial guess needs the first two.
    TooFewObservations,
}

/// Time between two observations: `SAMPLE_STRIDE` integration steps.
pub open spec fn observation_interval_spec<T: Scalar>() -> T {
    time_step_spec::<T>().times_spec(T::from_int_spec(SAMPLE_STRIDE as i32))
}

/// The point of the unit circle at bearing `a`.
pub open spec fn unit_point_spec<T: Scalar>(a: T) -> Vec2<T> {
    Vec2 { x: a.cos_spec(), y: a.sin_spec() }
}

/// The starting state for the solver: the position on the unit circle at the
/// first bearing, the velocity the difference of the unit-circle points at the
/// first two bearings divided by the time between observations.
pub open spec fn guess_spec<T: Scalar>(a0: T, a1: T) -> State<T> {
    let p0 = unit_point_spec(a0);
    let p1 = unit_point_spec(a1);
    let dt = observation_interval_spec::<T>();
    State {
        pos: p0,
        vel: Vec2 { x: p1.x.minus_spec(p0.x).over_spec(dt), y: p1.y.minus_spec(p0.y).over_spec(dt) },
    }
}

/// Seeds the solver from the first two observed bearings; fails when there
/// are fewer than two.
pub fn initial_guess<T: Scalar>(observations: &Vec<T>) -> (r: Result<State<T>, FitError>)
    ensures
        observations@.len() < 2 <==> r == Err::<State<T>, FitError>(FitError::TooFewObservations),
        observations@.len() >= 2 ==> r == Ok::<State<T>, FitError>(
            guess_spec(observations@[0], observations@[1]),
        ),
{
    if observations.len() < 2 {
        return Err(FitError::TooFewObservations);
    }
    let a0 = observations[0];
    let a1 = observations[1];
    let p0 = Vec2 { x: a0.cos(), y: a0.sin() };
    let p1 = Vec2 { x: a1.cos(), y: a1.sin() };
    let dt = time_step::<T>().times(T::from_int(SAMPLE_STRIDE as i32));
    Ok(
        State {
            pos: p0,
            vel: Vec2 { x: p1.x.minus(p0.x).over(dt), y: p1.y.minus(p0.y).over(dt) },
        },
    )
}

/// A candidate state bound to the observed bearings it is fitted to: what a
/// least-squares solver reads and moves.
pub struct OptimizationProblem<T> {
    pub p: State<T>,
    pub observed: Vec<T>,
}

impl<T: Scalar> OptimizationProblem<T> {
    /// The problem for `observed`, started at the initial guess; fails when
    /// there are fewer than two observations.
    pub fn new(observed: Vec<T>) -> (r: Result<OptimizationProblem<T>, FitError>)
        ensures
            observed@.len() < 2 <==> r is Err,
            r is Err ==> r->Err_0 == FitError::TooFewObservations,
            r is Ok ==> r->Ok_0.observed@ == observed@ && r->Ok_0.p == guess_spec(
                observed@[0],
                observed@[1],
            ),
    {
        match initial_guess(&observed) {
            Ok(p) => Ok(OptimizationProblem { p, observed }),
            Err(e) => Err(e),
        }
    }

    /// The current parameters: pos.x, pos.y, vel.x, vel.y.
    pub fn params(&self) -> (r: [T; 4])
        ensures
            r@ == self.p.params_spec(),
    {
        self.p.params()
    }

    /// Moves the candidate to the parameters `x`; the observations stay.
    pub fn set_params(&mut self, x: &[T; 4])
        ensures
            final(self).p == State::<T>::from_params_spec(x@),
            final(self).observed@ == old(self).observed@,
    {
        self.p.set_params(x);
    }

    /// Observed minus predicted bearing at each observation instant, for the
    /// current candidate.
    pub fn residuals(&self) -> (r: Vec<T>)
        ensures
            r@ == residuals_spec(self.observed@, self.p),
    {
        residuals(&self.observed, &self.p)
    }

    /// The Jacobian of the residuals at the current candidate.
    pub fn jacobian(&self) -> (r: Vec<[T; 4]>)
        ensures
            r@ == jacobian_spec(self.observed@, self.p),
            r@.len() == residuals_spec(self.observed@, self.p).len(),
    {
        jacobian(&self.observed, &self.p)
    }
}

} // verus!
