use vstd::prelude::*;

use crate::dynamics::{integrate_trajectory_euler, time_step_spec, trajectory_spec, TRAJECTORY_STEPS};
use crate::scalar::Scalar;
use crate::state::{State, Vec2};

verus! {

/// Integration steps between two observations.
pub const SAMPLE_STRIDE: usize = 5;

/// The positions at every `stride`-th state, starting with the `stride`-th:
/// indices `stride - 1`, `2 * stride - 1`, and so on.
pub open spec fn samples_spec<T>(traj: Seq<State<T>>, stride: nat) -> Seq<Vec2<T>>
    recommends
        stride > 0,
{
    Seq::new(traj.len() / stride, |i: int| traj[stride * i + stride - 1].pos)
}

/// The bearing of a position: the four-quadrant arctangent of `(y, x)`.
pub open spec fn bearing_spec<T: Scalar>(p: Vec2<T>) -> T {
    p.y.atan2_spec(p.x)
}

/// The bearing of each position, in order.
pub open spec fn observe_spec<T: Scalar>(points: Seq<Vec2<T>>) -> Seq<T> {
    Seq::new(points.len(), |i: int| bearing_spec(points[i]))
}

/// The sampled positions of the trajectory that starts from `s`.
pub open spec fn sampled_spec<T: Scalar>(s: State<T>) -> Seq<Vec2<T>> {
    samples_spec(
        trajectory_spec(s, time_step_spec::<T>(), TRAJECTORY_STEPS as nat),
        SAMPLE_STRIDE as nat,
    )
}

/// The bearings predicted for a body that starts from `s`.
pub open spec fn predicted_spec<T: Scalar>(s: State<T>) -> Seq<T> {
    observe_spec(sampled_spec(s))
}

proof fn lemma_sample_index(len: nat, stride: nat, i: nat)
    requires
        stride > 0,
        i < len / stride,
    ensures
        stride * i + stride <= len,
        stride * i >= 0,
{
    assert(stride * i + stride == stride * (i + 1)) by (nonlinear_arith);
    assert(stride * (i + 1) <= stride * (len / stride)) by (nonlinear_arith)
        requires
            i + 1 <= len / stride,
    ;
    assert(stride * (len / stride) <= len) by (nonlinear_arith)
        requires
            stride > 0,
    ;
    assert(stride * i >= 0) by (nonlinear_arith);
}

/// Positions of every `stride`-th state of `traj`, the `stride`-th first.
pub fn sample_positions<T: Copy>(traj: &Vec<State<T>>, stride: usize) -> (r: Vec<Vec2<T>>)
    requires
        stride > 0,
    ensures
        r@ == samples_spec(traj@, stride as nat),
{
    let n = traj.len() / stride;
    let mut r: Vec<Vec2<T>> = Vec::new();
    let mut i: usize = 0;
    while i < n
        invariant
            stride > 0,
            n == traj@.len() / (stride as nat),
            traj@.len() <= usize::MAX,
            i <= n,
            r@ == samples_spec(traj@, stride as nat).take(i as int),
        decreases n - i,
    {
        proof {
            lemma_sample_index(traj@.len(), stride as nat, i as nat);
        }
        let k = stride * i + stride - 1;
        assert(k == stride * i + stride - 1);
        r.push(traj[k].pos);
        i = i + 1;
        assert(r@ =~= samples_spec(traj@, stride as nat).take(i as int));
    }
    assert(r@ =~= samples_spec(traj@, stride as nat));
    r
}

/// The positions at the observation instants of the trajectory from
/// `initial_state`.
pub fn sampled_trajectory<T: Scalar>(initial_state: &State<T>) -> (r: Vec<Vec2<T>>)
    ensures
        r@ == sampled_spec(*initial_state),
        r@.len() == TRAJECTORY_STEPS / SAMPLE_STRIDE,
{
    let traj = integrate_trajectory_euler(initial_state);
    sample_positions(&traj, SAMPLE_STRIDE)
}

/// The bearing of each sampled position.
pub fn observe<T: Scalar>(sampled_trajectory: &[Vec2<T>]) -> (r: Vec<T>)
    ensures
        r@ == observe_spec(sampled_trajectory@),
{
    let mut r: Vec<T> = Vec::new();
    let mut i: usize = 0;
    while i < sampled_trajectory.len()
        invariant
            i <= sampled_trajectory@.len(),
            r@ == observe_spec(sampled_trajectory@).take(i as int),
        decreases sampled_trajectory@.len() - i,
    {
        let p = sampled_trajectory[i];
        r.push(p.y.atan2(p.x));
        i = i + 1;
        assert(r@ =~= observe_spec(sampled_trajectory@).take(i as int));
    }
    assert(r@ =~= observe_spec(sampled_trajectory@));
    r
}

/// The bearings that a body starting from `initial_state` would show at the
/// observation instants.
pub fn sample_and_observe<T: Scalar>(initial_state: &State<T>) -> (r: Vec<T>)
    ensures
        r@ == predicted_spec(*initial_state),
        r@.len() == TRAJECTORY_STEPS / SAMPLE_STRIDE,
{
    let sampled = sampled_trajectory(initial_state);
    observe(sampled.as_slice())
}

} // verus!
