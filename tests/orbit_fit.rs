use levenberg_marquardt::{LeastSquaresProblem, LevenbergMarquardt, MinimizationReport};
use nalgebra::{DimName, Dyn, U4};
use rand::{Rng, SeedableRng};

use orbit_fit::dual::Dual;
use orbit_fit::dynamics::{integrate, integrate_trajectory_euler, step, time_step, TRAJECTORY_STEPS};
use orbit_fit::fit::{initial_guess, FitError, OptimizationProblem};
use orbit_fit::observation::{observe, sample_and_observe, sample_positions, sampled_trajectory, SAMPLE_STRIDE};
use orbit_fit::residual::{jacobian, lifted, residuals, seeded};
use orbit_fit::scalar::Scalar;
use orbit_fit::state::{State, Vec2};

#[derive(Clone, Copy, Debug, PartialEq)]
struct F(f64);

// Each operation is the f64 one; the exec methods give exactly what the named
// functions give.
impl Scalar for F {
    fn plus_spec(self, o: F) -> F {
        F(self.0 + o.0)
    }
    fn minus_spec(self, o: F) -> F {
        F(self.0 - o.0)
    }
    fn times_spec(self, o: F) -> F {
        F(self.0 * o.0)
    }
    fn over_spec(self, o: F) -> F {
        F(self.0 / o.0)
    }
    fn negate_spec(self) -> F {
        F(-self.0)
    }
    fn sqrt_spec(self) -> F {
        F(self.0.sqrt())
    }
    fn powi_spec(self, n: i32) -> F {
        F(self.0.powi(n))
    }
    fn atan2_spec(self, x: F) -> F {
        F(self.0.atan2(x.0))
    }
    fn cos_spec(self) -> F {
        F(self.0.cos())
    }
    fn sin_spec(self) -> F {
        F(self.0.sin())
    }
    fn from_int_spec(n: i32) -> F {
        F(n as f64)
    }
    fn plus(self, o: F) -> F {
        self.plus_spec(o)
    }
    fn minus(self, o: F) -> F {
        self.minus_spec(o)
    }
    fn times(self, o: F) -> F {
        self.times_spec(o)
    }
    fn over(self, o: F) -> F {
        self.over_spec(o)
    }
    fn negate(self) -> F {
        self.negate_spec()
    }
    fn sqrt(self) -> F {
        self.sqrt_spec()
    }
    fn powi(self, n: i32) -> F {
        self.powi_spec(n)
    }
    fn atan2(self, x: F) -> F {
        self.atan2_spec(x)
    }
    fn cos(self) -> F {
        self.cos_spec()
    }
    fn sin(self) -> F {
        self.sin_spec()
    }
    fn from_int(n: i32) -> F {
        F::from_int_spec(n)
    }
}

fn state(px: f64, py: f64, vx: f64, vy: f64) -> State<F> {
    State { pos: Vec2 { x: F(px), y: F(py) }, vel: Vec2 { x: F(vx), y: F(vy) } }
}

fn plain(v: &[F]) -> Vec<f64> {
    v.iter().map(|f| f.0).collect()
}

fn scenario_state() -> State<F> {
    state(3.0, -8.0, 0.25, 0.5)
}

struct Problem(OptimizationProblem<F>);

impl LeastSquaresProblem<f64, Dyn, U4> for Problem {
    type ResidualStorage = nalgebra::storage::Owned<f64, Dyn>;
    type JacobianStorage = nalgebra::storage::Owned<f64, Dyn, U4>;
    type ParameterStorage = nalgebra::storage::Owned<f64, U4>;
    fn set_params(&mut self, x: &nalgebra::Vector<f64, U4, Self::ParameterStorage>) {
        self.0.set_params(&[F(x[0]), F(x[1]), F(x[2]), F(x[3])]);
    }
    fn params(&self) -> nalgebra::Vector<f64, U4, Self::ParameterStorage> {
        let p = self.0.params();
        nalgebra::Vector4::new(p[0].0, p[1].0, p[2].0, p[3].0)
    }
    fn residuals(&self) -> Option<nalgebra::Vector<f64, Dyn, Self::ResidualStorage>> {
        Some(nalgebra::DVector::from_vec(plain(&self.0.residuals())))
    }
    fn jacobian(&self) -> Option<nalgebra::Matrix<f64, Dyn, U4, Self::JacobianStorage>> {
        let rows = self.0.jacobian();
        let mut m = nalgebra::Matrix::<f64, Dyn, U4, Self::JacobianStorage>::zeros_generic(Dyn(rows.len()), U4::name());
        for (i, row) in rows.iter().enumerate() {
            for j in 0..4 {
                m[(i, j)] = row[j].0;
            }
        }
        Some(m)
    }
}

fn fit(observed: &[F]) -> (State<F>, MinimizationReport<f64>) {
    let problem = OptimizationProblem::new(observed.to_vec()).unwrap();
    let (result, report) = LevenbergMarquardt::new().minimize(Problem(problem));
    (result.0.p, report)
}

fn assert_close(a: &State<F>, b: &State<F>, tol: f64) {
    let pa = a.params();
    let pb = b.params();
    for i in 0..4 {
        assert!((pa[i].0 - pb[i].0).abs() <= tol, "parameter {}: {} vs {}", i, pa[i].0, pb[i].0);
    }
}

fn norm(v: &[F]) -> f64 {
    v.iter().map(|f| f.0 * f.0).sum::<f64>().sqrt()
}

#[test]
fn euler_step_on_circular_orbit() {
    let s = state(1.0, 0.0, 0.0, 1.0);
    let n = step(&s, F(0.25));
    assert_eq!(n.pos.x, F(1.0));
    assert_eq!(n.pos.y, F(0.25));
    assert_eq!(n.vel.x, F(-0.25));
    assert_eq!(n.vel.y, F(1.0));
    // the input snapshot is left as it was
    assert_eq!(s.pos.y, F(0.0));
}

#[test]
fn euler_step_uses_inverse_square_attraction() {
    // |pos| = 2: acceleration (-2, 0) / 8 = (-0.25, 0)
    let s = state(2.0, 0.0, 0.0, 0.0);
    let n = step(&s, F(1.0));
    assert_eq!(n.pos.x, F(2.0));
    assert_eq!(n.vel.x, F(-0.25));
    assert_eq!(n.vel.y, F(0.0));
}

#[test]
fn time_step_is_a_quarter() {
    assert_eq!(time_step::<F>(), F(0.25));
}

#[test]
fn trajectory_has_fixed_length_and_follows_steps() {
    let s = scenario_state();
    let traj = integrate_trajectory_euler(&s);
    assert_eq!(traj.len(), TRAJECTORY_STEPS);
    assert_eq!(traj.len(), 120);
    let first = step(&s, F(0.25));
    assert_eq!(traj[0].pos.x, first.pos.x);
    assert_eq!(traj[0].vel.y, first.vel.y);
    let second = step(&first, F(0.25));
    assert_eq!(traj[1].pos.y, second.pos.y);
    assert_eq!(traj[1].vel.x, second.vel.x);
}

#[test]
fn integration_is_deterministic() {
    let s = scenario_state();
    let a = integrate_trajectory_euler(&s);
    let b = integrate_trajectory_euler(&s);
    assert_eq!(a.len(), b.len());
    for (x, y) in a.iter().zip(b.iter()) {
        assert_eq!(x.pos.x.0.to_bits(), y.pos.x.0.to_bits());
        assert_eq!(x.pos.y.0.to_bits(), y.pos.y.0.to_bits());
        assert_eq!(x.vel.x.0.to_bits(), y.vel.x.0.to_bits());
        assert_eq!(x.vel.y.0.to_bits(), y.vel.y.0.to_bits());
    }
}

#[test]
fn shorter_trajectories_can_be_requested() {
    let s = scenario_state();
    assert_eq!(integrate(&s, F(0.25), 0).len(), 0);
    let short = integrate(&s, F(0.25), 7);
    let full = integrate_trajectory_euler(&s);
    assert_eq!(short.len(), 7);
    assert_eq!(short[6].pos.x, full[6].pos.x);
}

#[test]
fn sampling_takes_every_fifth_state_from_the_fifth() {
    let s = scenario_state();
    let traj = integrate_trajectory_euler(&s);
    let sampled = sampled_trajectory(&s);
    assert_eq!(SAMPLE_STRIDE, 5);
    assert_eq!(sampled.len(), 24);
    for (i, p) in sampled.iter().enumerate() {
        assert_eq!(p.x, traj[5 * i + 4].pos.x);
        assert_eq!(p.y, traj[5 * i + 4].pos.y);
    }
}

#[test]
fn sampling_drops_an_incomplete_tail() {
    let s = scenario_state();
    let traj = integrate(&s, F(0.25), 7);
    let sampled = sample_positions(&traj, 3);
    assert_eq!(sampled.len(), 2);
    assert_eq!(sampled[0].x, traj[2].pos.x);
    assert_eq!(sampled[1].y, traj[5].pos.y);
    assert_eq!(sample_positions(&traj, 8).len(), 0);
}

#[test]
fn observe_gives_four_quadrant_bearings() {
    let pts = vec![
        Vec2 { x: F(1.0), y: F(0.0) },
        Vec2 { x: F(0.0), y: F(2.0) },
        Vec2 { x: F(-3.0), y: F(0.0) },
        Vec2 { x: F(-1.0), y: F(-1.0) },
    ];
    let b = observe(&pts);
    assert_eq!(b.len(), 4);
    assert_eq!(b[0], F(0.0));
    assert_eq!(b[1], F(std::f64::consts::FRAC_PI_2));
    assert_eq!(b[2], F(std::f64::consts::PI));
    assert_eq!(b[3], F(-3.0 * std::f64::consts::FRAC_PI_4));
    assert_eq!(observe::<F>(&[]).len(), 0);
}

#[test]
fn residuals_vanish_at_the_true_state() {
    let s = scenario_state();
    let observed = sample_and_observe(&s);
    assert_eq!(observed.len(), 24);
    let r = residuals(&observed, &s);
    assert_eq!(r.len(), 24);
    assert!(r.iter().all(|x| x.0 == 0.0));
}

#[test]
fn residuals_are_observed_minus_predicted() {
    let s = scenario_state();
    let predicted = sample_and_observe(&s);
    let observed: Vec<F> = predicted.iter().map(|p| F(p.0 + 0.5)).collect();
    let r = residuals(&observed, &s);
    for i in 0..24 {
        assert_eq!(r[i], F(observed[i].0 - predicted[i].0));
    }
}

#[test]
fn residuals_cover_only_the_common_instants() {
    let s = scenario_state();
    let three = vec![F(0.1), F(0.2), F(0.3)];
    assert_eq!(residuals(&three, &s).len(), 3);
    let many = vec![F(0.0); 30];
    assert_eq!(residuals(&many, &s).len(), 24);
    assert_eq!(residuals(&Vec::new(), &s).len(), 0);
}

#[test]
fn dual_numbers_follow_the_chain_rule() {
    let a = Dual::variable(F(3.0), 0);
    let b = Dual::variable(F(2.0), 1);
    let c = Dual::constant(F(5.0));
    assert_eq!(c.derivative, [F(0.0); 4]);
    let p = a.times(b);
    assert_eq!(p.value, F(6.0));
    assert_eq!(p.derivative, [F(2.0), F(3.0), F(0.0), F(0.0)]);
    let q = a.over(b);
    assert_eq!(q.value, F(1.5));
    assert_eq!(q.derivative, [F(0.5), F(-0.75), F(0.0), F(0.0)]);
    let s = Dual::variable(F(4.0), 2).sqrt();
    assert_eq!(s.value, F(2.0));
    assert_eq!(s.derivative, [F(0.0), F(0.0), F(0.25), F(0.0)]);
    let cube = b.powi(3);
    assert_eq!(cube.value, F(8.0));
    assert_eq!(cube.derivative, [F(0.0), F(12.0), F(0.0), F(0.0)]);
    let sum = a.plus(c).minus(b).negate();
    assert_eq!(sum.value, F(-6.0));
    assert_eq!(sum.derivative, [F(-1.0), F(1.0), F(0.0), F(0.0)]);
    // atan2(y, x) at (x, y) = (1, 1): d/dy = 1/2, d/dx = -1/2
    let t = Dual::variable(F(1.0), 3).atan2(Dual::variable(F(1.0), 0));
    assert_eq!(t.value, F(std::f64::consts::FRAC_PI_4));
    assert_eq!(t.derivative, [F(-0.5), F(0.0), F(0.0), F(0.5)]);
    let k = <Dual<F> as Scalar>::from_int(7);
    assert_eq!(k.value, F(7.0));
    assert_eq!(k.derivative, [F(0.0); 4]);
}

#[test]
fn dual_trig_derivatives() {
    let a = Dual::variable(F(0.0), 1);
    let c = a.cos();
    assert_eq!(c.value, F(1.0));
    assert_eq!(c.derivative[1], F(-0.0));
    let s = a.sin();
    assert_eq!(s.value, F(0.0));
    assert_eq!(s.derivative[1], F(1.0));
}

#[test]
fn jacobian_matches_central_differences() {
    let truth = scenario_state();
    let observed = sample_and_observe(&truth);
    let at = state(2.5, -7.5, 0.3, 0.45);
    let jac = jacobian(&observed, &at);
    assert_eq!(jac.len(), 24);
    let h = 1e-6;
    for j in 0..4 {
        let mut up = at;
        let mut down = at;
        let mut p = at.params();
        p[j] = F(p[j].0 + h);
        up.set_params(&p);
        let mut p = at.params();
        p[j] = F(p[j].0 - h);
        down.set_params(&p);
        let ru = residuals(&observed, &up);
        let rd = residuals(&observed, &down);
        for i in 0..24 {
            let fd = (ru[i].0 - rd[i].0) / (2.0 * h);
            assert!((jac[i][j].0 - fd).abs() <= 1e-5, "entry ({}, {}): {} vs {}", i, j, jac[i][j].0, fd);
        }
    }
}

#[test]
fn jacobian_values_ride_along_with_residuals() {
    let s = state(1.0, 2.0, -0.3, 0.1);
    let observed = vec![F(0.5); 24];
    let plain_r = residuals(&observed, &s);
    let dual_r = residuals(&lifted(&observed), &seeded(&s));
    assert_eq!(plain_r.len(), 24);
    assert_eq!(dual_r.len(), 24);
    for (p, d) in plain_r.iter().zip(dual_r.iter()) {
        assert_eq!(p.0.to_bits(), d.value.0.to_bits());
    }
    let jac = jacobian(&observed, &s);
    for (row, d) in jac.iter().zip(dual_r.iter()) {
        assert_eq!(*row, d.derivative);
    }
}

#[test]
fn params_round_trip() {
    let mut s = scenario_state();
    assert_eq!(s.params(), [F(3.0), F(-8.0), F(0.25), F(0.5)]);
    s.set_params(&[F(1.0), F(2.0), F(3.0), F(4.0)]);
    assert_eq!(s.pos.x, F(1.0));
    assert_eq!(s.pos.y, F(2.0));
    assert_eq!(s.vel.x, F(3.0));
    assert_eq!(s.vel.y, F(4.0));
    assert_eq!(s.params(), [F(1.0), F(2.0), F(3.0), F(4.0)]);
}

#[test]
fn initial_guess_rejects_too_few_observations() {
    assert_eq!(initial_guess::<F>(&vec![]).unwrap_err(), FitError::TooFewObservations);
    assert_eq!(initial_guess(&vec![F(0.3)]).unwrap_err(), FitError::TooFewObservations);
    assert!(OptimizationProblem::new(Vec::<F>::new()).is_err());
    assert!(OptimizationProblem::new(vec![F(1.0)]).is_err());
}

#[test]
fn initial_guess_places_the_body_on_the_unit_circle() {
    let g = initial_guess(&vec![F(0.0), F(std::f64::consts::FRAC_PI_2), F(9.0)]).unwrap();
    assert_eq!(g.pos.x, F(1.0));
    assert_eq!(g.pos.y, F(0.0));
    // the interval between observations is 5 steps of 0.25
    let c = std::f64::consts::FRAC_PI_2.cos();
    assert_eq!(g.vel.x, F((c - 1.0) / 1.25));
    assert_eq!(g.vel.y, F(1.0 / 1.25));
}

#[test]
fn problem_moves_only_its_parameters() {
    let observed = sample_and_observe(&scenario_state());
    let mut problem = OptimizationProblem::new(observed.clone()).unwrap();
    problem.set_params(&[F(3.0), F(-8.0), F(0.25), F(0.5)]);
    assert_eq!(problem.params(), [F(3.0), F(-8.0), F(0.25), F(0.5)]);
    assert_eq!(problem.observed, observed);
    assert!(problem.residuals().iter().all(|x| x.0 == 0.0));
    assert_eq!(problem.jacobian().len(), 24);
}

#[test]
fn concrete_scenario_is_recovered() {
    let truth = scenario_state();
    let observed = sample_and_observe(&truth);
    assert_eq!(observed.len(), 24);
    let (fitted, _report) = fit(&observed);
    assert_close(&fitted, &truth, 1e-6);
}

#[test]
fn noise_free_round_trip() {
    for truth in [state(5.0, -6.0, 0.2, 0.4), state(2.0, 7.0, -0.4, 0.1)] {
        let observed = sample_and_observe(&truth);
        let (fitted, _report) = fit(&observed);
        assert_close(&fitted, &truth, 1e-6);
    }
}

#[test]
fn noisy_fits_reach_the_noise_floor() {
    let truth = scenario_state();
    let mut rng = rand::rngs::StdRng::seed_from_u64(7);
    for _ in 0..5 {
        let noisy: Vec<Vec2<F>> = sampled_trajectory(&truth)
            .iter()
            .map(|p| Vec2 {
                x: F(p.x.0 + rng.gen_range(-0.25..=0.25)),
                y: F(p.y.0 + rng.gen_range(-0.25..=0.25)),
            })
            .collect();
        let observed = observe(&noisy);
        let floor = norm(&residuals(&observed, &truth));
        let (fitted, _report) = fit(&observed);
        let achieved = norm(&residuals(&observed, &fitted));
        assert!(achieved <= floor * 1.01 + 1e-12, "{} vs floor {}", achieved, floor);
    }
}
