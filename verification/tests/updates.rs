use std::f64::consts::PI;

use kinematics::state::StateVector;
use kinematics::update::update_2dof;
use kinematics::update::update_2dof_turn_rate_constraint;
use kinematics::update::update_3dof;

fn bits(v: f64) -> u64 {
    v.to_bits()
}

fn val(b: u64) -> f64 {
    f64::from_bits(b)
}

fn planar_state(t: f64, x: f64, y: f64, x_dot: f64, y_dot: f64, theta: f64) -> StateVector {
    StateVector::new(
        bits(t),
        bits(x),
        bits(y),
        bits(0.0),
        bits(x_dot),
        bits(y_dot),
        bits(0.0),
        bits(0.0),
        bits(theta),
        bits(0.0),
        bits(0.0),
        bits(0.0),
        bits(0.0),
    )
}

fn planar_speed(s: &StateVector) -> f64 {
    f64::sqrt(f64::powf(val(s.x_dot), 2.0) + f64::powf(val(s.y_dot), 2.0))
}

fn spatial_speed(s: &StateVector) -> f64 {
    f64::sqrt(
        f64::powf(val(s.x_dot), 2.0) + f64::powf(val(s.y_dot), 2.0) + f64::powf(val(s.z_dot), 2.0),
    )
}

fn step_2dof(s: StateVector, commanded_theta: f64, dt: f64) -> StateVector {
    let speed = planar_speed(&s);
    let theta = val(s.theta);
    update_2dof(
        s,
        bits(commanded_theta),
        bits(dt),
        bits(speed),
        bits(theta.cos()),
        bits(theta.sin()),
    )
}

fn step_2dof_trc(s: StateVector, commanded_theta_dot: f64, dt: f64, omega_max: f64) -> StateVector {
    let speed = planar_speed(&s);
    let theta = val(s.theta);
    update_2dof_turn_rate_constraint(
        s,
        bits(commanded_theta_dot),
        bits(dt),
        bits(omega_max),
        bits(speed),
        bits(theta.cos()),
        bits(theta.sin()),
    )
}

fn step_3dof(s: StateVector, commanded_theta: f64, commanded_psi: f64, dt: f64) -> StateVector {
    let speed = spatial_speed(&s);
    let theta = val(s.theta);
    let psi = val(s.psi);
    update_3dof(
        s,
        bits(commanded_theta),
        bits(commanded_psi),
        bits(dt),
        bits(speed),
        bits(theta.cos()),
        bits(theta.sin()),
        bits(psi.cos()),
        bits(psi.sin()),
    )
}

#[test]
fn time_advances_by_exactly_dt_in_all_three_updates() {
    let s = planar_state(0.25, 1.0, 2.0, 1.0, 1.0, 0.3);
    let expected = bits(0.25 + 0.1);
    assert_eq!(step_2dof(s, 0.5, 0.1).t, expected);
    assert_eq!(step_2dof_trc(s, 0.5, 0.1, 30.0 * PI / 180.0).t, expected);
    assert_eq!(step_3dof(s, 0.5, 0.2, 0.1).t, expected);
}

#[test]
fn planar_speed_is_preserved() {
    let s = planar_state(0.0, 0.0, 0.0, 1.0, 1.0, 0.3);
    let before = planar_speed(&s);
    let after_snap = step_2dof(s, 1.2, 0.1);
    let after_trc = step_2dof_trc(s, 0.4, 0.1, 30.0 * PI / 180.0);
    assert!((planar_speed(&after_snap) - before).abs() < 1e-12);
    assert!((planar_speed(&after_trc) - before).abs() < 1e-12);
}

#[test]
fn spatial_velocity_follows_the_models_own_decomposition() {
    let theta = 0.4_f64;
    let psi = 0.2_f64;
    let s = StateVector::new(
        bits(0.0),
        bits(0.0),
        bits(0.0),
        bits(3.0),
        bits(1.0),
        bits(1.0),
        bits(1.0),
        bits(0.7),
        bits(theta),
        bits(psi),
        bits(0.0),
        bits(0.0),
        bits(0.0),
    );
    let speed = spatial_speed(&s);
    let n = step_3dof(s, 0.9, 0.5, 0.1);
    // x pairs cos(theta) with cos(psi), y pairs sin(theta) with sin(psi),
    // z takes sin(theta) alone: the model's decomposition, bit for bit,
    // not the standard spherical transform.
    assert_eq!(n.x_dot, bits(speed * theta.cos() * psi.cos()));
    assert_eq!(n.y_dot, bits(speed * theta.sin() * psi.sin()));
    assert_eq!(n.z_dot, bits(speed * theta.sin()));
    assert_eq!(n.z, bits(3.0 + speed * theta.sin() * 0.1));
    // phi and phi_dot are untouched by the spatial update.
    assert_eq!(n.phi, bits(0.7));
    assert_eq!(n.phi_dot, bits(0.0));
    // theta and psi snap to the commanded values.
    assert_eq!(n.theta, bits(0.9));
    assert_eq!(n.psi, bits(0.5));
}

#[test]
fn commanded_rate_above_the_limit_is_clamped_to_the_limit() {
    let omega_max = 30.0 * PI / 180.0;
    let commanded = 45.0 * PI / 180.0;
    let s = planar_state(0.0, 0.0, 0.0, 1.0, 1.0, 0.2);
    let n = step_2dof_trc(s, commanded, 0.1, omega_max);
    assert_eq!(n.theta_dot, bits(omega_max));
    assert!((val(n.theta_dot) - 0.523599).abs() < 1e-6);
    assert_eq!(n.theta, bits(0.2 + omega_max * 0.1));
}

#[test]
fn commanded_rate_at_or_below_the_limit_is_applied_unchanged() {
    let omega_max = 30.0 * PI / 180.0;
    let s = planar_state(0.0, 0.0, 0.0, 1.0, 1.0, 0.2);
    let mild = step_2dof_trc(s, 0.25, 0.1, omega_max);
    assert_eq!(mild.theta_dot, bits(0.25));
    // The clamp is an upper bound only: a rate far below -omega_max
    // passes through unchanged.
    let steep = step_2dof_trc(s, -2.0, 0.1, omega_max);
    assert_eq!(steep.theta_dot, bits(-2.0));
    assert_eq!(steep.theta, bits(0.2 + (-2.0) * 0.1));
}

#[test]
fn heading_snap_keeps_the_reversed_subtraction_sign_convention() {
    // No heading change: the rate comes out exactly zero.
    let steady = step_2dof(planar_state(0.0, 0.0, 0.0, 1.0, 1.0, PI / 4.0), PI / 4.0, 0.1);
    assert_eq!(val(steady.theta_dot), 0.0);
    // A quarter turn commanded from zero: the rate is (old - new) / dt,
    // so it comes out negative, not the intuitive positive turn rate.
    let turning = step_2dof(planar_state(0.0, 0.0, 0.0, 1.0, 1.0, 0.0), PI / 2.0, 0.1);
    assert_eq!(turning.theta_dot, bits((0.0 - PI / 2.0) / 0.1));
    assert!((val(turning.theta_dot) - (-15.707963267948966)).abs() < 1e-12);
    assert!(val(turning.theta_dot) < 0.0);
}

#[test]
fn concrete_planar_scenario() {
    let theta = 1.0_f64.atan2(1.0);
    let s = planar_state(0.0, 0.0, 0.0, 1.0, 1.0, theta);
    let speed = planar_speed(&s);
    let n = step_2dof(s, PI / 4.0, 0.1);
    assert_eq!(n.x_dot, bits(speed * theta.cos()));
    assert_eq!(n.y_dot, bits(speed * theta.sin()));
    assert_eq!(n.x, bits(speed * theta.cos() * 0.1));
    assert_eq!(n.y, bits(speed * theta.sin() * 0.1));
    assert_eq!(n.t, bits(0.1));
    assert_eq!(n.theta, bits(PI / 4.0));
    // speed is sqrt(2) and theta is pi/4, so the re-derived velocity
    // components come out at 1 and the rate at 0.
    assert!((val(n.x_dot) - 1.0).abs() < 1e-15);
    assert!((val(n.y_dot) - 1.0).abs() < 1e-15);
    assert_eq!(val(n.theta_dot), 0.0);
}

#[test]
fn noop_commands_leave_the_angles_unchanged() {
    let s = planar_state(0.0, 0.0, 0.0, 1.0, 1.0, 0.3);
    let snap = step_2dof(s, 0.3, 0.1);
    assert_eq!(snap.theta, bits(0.3));
    assert_eq!(val(snap.theta_dot), 0.0);
    let steady_rate = step_2dof_trc(s, 0.0, 0.1, 30.0 * PI / 180.0);
    assert_eq!(steady_rate.theta, bits(0.3));
    assert_eq!(steady_rate.theta_dot, bits(0.0));
    let spatial = step_3dof(s, 0.3, 0.0, 0.1);
    assert_eq!(spatial.theta, bits(0.3));
    assert_eq!(spatial.psi, bits(0.0));
    assert_eq!(val(spatial.theta_dot), 0.0);
    assert_eq!(val(spatial.psi_dot), 0.0);
}

#[test]
fn construction_and_default() {
    let d = StateVector::default();
    assert_eq!(d.t, 0);
    assert_eq!(d.x_dot, 0);
    assert_eq!(d.psi_dot, 0);
    assert_eq!(val(d.theta), 0.0);
    let s = StateVector::new(
        bits(0.5),
        bits(1.0),
        bits(2.0),
        bits(3.0),
        bits(4.0),
        bits(5.0),
        bits(6.0),
        bits(7.0),
        bits(8.0),
        bits(9.0),
        bits(10.0),
        bits(11.0),
        bits(12.0),
    );
    assert_eq!(val(s.t), 0.5);
    assert_eq!(val(s.z), 3.0);
    assert_eq!(val(s.theta), 8.0);
    assert_eq!(val(s.psi_dot), 12.0);
}
