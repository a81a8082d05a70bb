use vstd::prelude::*;

use crate::scalar::Scalar;
use crate::state::{State, Vec2};

verus! {

/// Number of integration steps in a trajectory.
pub const TRAJECTORY_STEPS: usize = 120;

/// The integration time step, one quarter of a time unit.
pub open spec fn time_step_spec<T: Scalar>() -> T {
    T::from_int_spec(1).over_spec(T::from_int_spec(4))
}

pub fn time_step<T: Scalar>() -> (r: T)
    ensures
        r == time_step_spec::<T>(),
{
    T::from_int(1).over(T::from_int(4))
}

/// Attraction toward the origin per unit mass: `-pos / |pos|^3`.
pub open spec fn acceleration_spec<T: Scalar>(pos: Vec2<T>) -> Vec2<T> {
    let dist2 = pos.x.powi_spec(2).plus_spec(pos.y.powi_spec(2));
    let d3 = dist2.sqrt_spec().powi_spec(3);
    Vec2 { x: pos.x.negate_spec().over_spec(d3), y: pos.y.negate_spec().over_spec(d3) }
}

/// One explicit Euler step: `pos += vel * dt`, `vel += acc(pos) * dt`, with the
/// acceleration taken at the position before the step.
pub open spec fn step_spec<T: Scalar>(s: State<T>, dt: T) -> State<T> {
    let acc = acceleration_spec(s.pos);
    State {
        pos: Vec2 {
            x: s.pos.x.plus_spec(s.vel.x.times_spec(dt)),
            y: s.pos.y.plus_spec(s.vel.y.times_spec(dt)),
        },
        vel: Vec2 {
            x: s.vel.x.plus_spec(acc.x.times_spec(dt)),
            y: s.vel.y.plus_spec(acc.y.times_spec(dt)),
        },
    }
}

/// The state after `k` Euler steps from `s`.
pub open spec fn state_after<T: Scalar>(s: State<T>, dt: T, k: nat) -> State<T>
    decreases k,
{
    if k == 0 {
        s
    } else {
        step_spec(state_after(s, dt, (k - 1) as nat), dt)
    }
}

/// The trajectory of `n` states that follows `s`: element `i` is the state after
/// `i + 1` steps.
pub open spec fn trajectory_spec<T: Scalar>(s: State<T>, dt: T, n: nat) -> Seq<State<T>> {
    Seq::new(n, |i: int| state_after(s, dt, (i + 1) as nat))
}

pub fn acceleration<T: Scalar>(pos: &Vec2<T>) -> (r: Vec2<T>)
    ensures
        r == acceleration_spec(*pos),
{
    let dist2 = pos.x.powi(2).plus(pos.y.powi(2));
    let d3 = dist2.sqrt().powi(3);
    Vec2 { x: pos.x.negate().over(d3), y: pos.y.negate().over(d3) }
}

/// Advances `s` by one Euler step of length `dt`; `s` itself is left as it was.
pub fn step<T: Scalar>(s: &State<T>, dt: T) -> (r: State<T>)
    ensures
        r == step_spec(*s, dt),
{
    let acc = acceleration(&s.pos);
    State {
        pos: Vec2 { x: s.pos.x.plus(s.vel.x.times(dt)), y: s.pos.y.plus(s.vel.y.times(dt)) },
        vel: Vec2 { x: s.vel.x.plus(acc.x.times(dt)), y: s.vel.y.plus(acc.y.times(dt)) },
    }
}

/// The `steps` states that follow `initial` under Euler steps of length `dt`.
pub fn integrate<T: Scalar>(initial: &State<T>, dt: T, steps: usize) -> (r: Vec<State<T>>)
    ensures
        r@ == trajectory_spec(*initial, dt, steps as nat),
{
    let mut r: Vec<State<T>> = Vec::new();
    let mut cur = *initial;
    let mut i: usize = 0;
    while i < steps
        invariant
            i <= steps,
            cur == state_after(*initial, dt, i as nat),
            r@ == trajectory_spec(*initial, dt, i as nat),
        decreases steps - i,
    {
        cur = step(&cur, dt);
        r.push(cur);
        i = i + 1;
        assert(r@ =~= trajectory_spec(*initial, dt, i as nat));
    }
    r
}

/// The trajectory of the observed body: `TRAJECTORY_STEPS` states at the fixed
/// time step.
pub fn integrate_trajectory_euler<T: Scalar>(initial_state: &State<T>) -> (r: Vec<State<T>>)
    ensures
        r@ == trajectory_spec(*initial_state, time_step_spec::<T>(), TRAJECTORY_STEPS as nat),
        r@.len() == TRAJECTORY_STEPS,
{
    integrate(initial_state, time_step(), TRAJECTORY_STEPS)
}

/// Integration is a function of the initial state: two trajectories computed
/// from the same initial state with the same time step and length agree
/// element by element.
pub proof fn lemma_integrate_deterministic<T: Scalar>(
    initial: State<T>,
    dt: T,
    n: nat,
    first: Seq<State<T>>,
    second: Seq<State<T>>,
)
    requires
        first == trajectory_spec(initial, dt, n),
        second == trajectory_spec(initial, dt, n),
    ensures
        first.len() == n,
        forall|i: int| 0 <= i < n ==> #[trigger] first[i] == second[i],
{
}

} // verus!
