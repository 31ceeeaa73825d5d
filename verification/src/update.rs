//! The three kinematic update transforms.
//!
//! Each update is a pure function: it consumes one state and produces
//! the next, advancing time by exactly `dt`. The caller supplies, beside
//! the commanded input and `dt`, the transcendental scalars the
//! algorithm reads — the speed of the input state and the sine and
//! cosine of its current angles — as bit patterns; the update is then
//! verified to combine them exactly as the model prescribes, for every
//! value of them. `dt` is not validated: a zero `dt` flows into the rate
//! computations as an IEEE-754 division by zero and yields a non-finite
//! rate rather than an error.

use vstd::prelude::*;

use crate::ieee::add_bits;
use crate::ieee::diff_bits;
use crate::ieee::div_bits;
use crate::ieee::gt_bits;
use crate::ieee::gt_check;
use crate::ieee::mul_bits;
use crate::ieee::prod_bits;
use crate::ieee::quot_bits;
use crate::ieee::sub_bits;
use crate::ieee::sum_bits;
use crate::state::StateVector;

verus! {

/// The planar unconstrained update, field by field: horizontal velocity
/// re-derived from the preserved speed and the *input* heading, position
/// integrated with the re-derived velocity, time advanced by `dt`, the
/// heading snapped to the commanded value, and the heading rate set to
/// `(old theta - new theta) / dt` — the model's reversed-subtraction
/// sign convention, kept exactly. All other fields are untouched.
pub open spec fn update_2dof_spec(
    s: StateVector,
    commanded_theta: u64,
    dt: u64,
    speed: u64,
    cos_theta: u64,
    sin_theta: u64,
) -> StateVector {
    let x_dot = prod_bits(speed, cos_theta);
    let y_dot = prod_bits(speed, sin_theta);
    StateVector {
        t: sum_bits(s.t, dt),
        x: sum_bits(s.x, prod_bits(x_dot, dt)),
        y: sum_bits(s.y, prod_bits(y_dot, dt)),
        z: s.z,
        x_dot: x_dot,
        y_dot: y_dot,
        z_dot: s.z_dot,
        phi: s.phi,
        theta: commanded_theta,
        psi: s.psi,
        phi_dot: s.phi_dot,
        theta_dot: quot_bits(diff_bits(s.theta, commanded_theta), dt),
        psi_dot: s.psi_dot,
    }
}

/// The planar turn-rate-constrained update: like the unconstrained one,
/// but the heading advances gradually by the applied rate, and the
/// applied rate is the commanded rate clamped from above by `omega_max`
/// only — a rate below the limit, however far below `-omega_max`, is
/// applied unchanged.
pub open spec fn update_2dof_turn_rate_constraint_spec(
    s: StateVector,
    commanded_theta_dot: u64,
    dt: u64,
    omega_max: u64,
    speed: u64,
    cos_theta: u64,
    sin_theta: u64,
) -> StateVector {
    let x_dot = prod_bits(speed, cos_theta);
    let y_dot = prod_bits(speed, sin_theta);
    let theta_dot = if gt_bits(commanded_theta_dot, omega_max) {
        omega_max
    } else {
        commanded_theta_dot
    };
    StateVector {
        t: sum_bits(s.t, dt),
        x: sum_bits(s.x, prod_bits(x_dot, dt)),
        y: sum_bits(s.y, prod_bits(y_dot, dt)),
        z: s.z,
        x_dot: x_dot,
        y_dot: y_dot,
        z_dot: s.z_dot,
        phi: s.phi,
        theta: sum_bits(s.theta, prod_bits(theta_dot, dt)),
        psi: s.psi,
        phi_dot: s.phi_dot,
        theta_dot: theta_dot,
        psi_dot: s.psi_dot,
    }
}

/// The spatial unconstrained update: three-axis velocity re-derived from
/// the preserved speed and the input `theta` and `psi` by the model's own
/// decomposition — `x` pairs `cos(theta)` with `cos(psi)`, `y` pairs
/// `sin(theta)` with `sin(psi)`, `z` takes `sin(theta)` alone; this is
/// deliberately not the standard spherical transform and is kept exactly.
/// Position is integrated on all three axes, time advances by `dt`, both
/// `theta` and `psi` snap to their commanded values with rates in the
/// reversed-subtraction convention, and `phi` and `phi_dot` are untouched.
pub open spec fn update_3dof_spec(
    s: StateVector,
    commanded_theta: u64,
    commanded_psi: u64,
    dt: u64,
    speed: u64,
    cos_theta: u64,
    sin_theta: u64,
    cos_psi: u64,
    sin_psi: u64,
) -> StateVector {
    let x_dot = prod_bits(prod_bits(speed, cos_theta), cos_psi);
    let y_dot = prod_bits(prod_bits(speed, sin_theta), sin_psi);
    let z_dot = prod_bits(speed, sin_theta);
    StateVector {
        t: sum_bits(s.t, dt),
        x: sum_bits(s.x, prod_bits(x_dot, dt)),
        y: sum_bits(s.y, prod_bits(y_dot, dt)),
        z: sum_bits(s.z, prod_bits(z_dot, dt)),
        x_dot: x_dot,
        y_dot: y_dot,
        z_dot: z_dot,
        phi: s.phi,
        theta: commanded_theta,
        psi: commanded_psi,
        phi_dot: s.phi_dot,
        theta_dot: quot_bits(diff_bits(s.theta, commanded_theta), dt),
        psi_dot: quot_bits(diff_bits(s.psi, commanded_psi), dt),
    }
}

/// Advances the state one step with an instantaneous heading snap.
/// `speed`, `cos_theta` and `sin_theta` are the speed of `current_state`
/// and the cosine and sine of its heading, evaluated by the caller.
pub fn update_2dof(
    current_state: StateVector,
    commanded_theta: u64,
    dt: u64,
    speed: u64,
    cos_theta: u64,
    sin_theta: u64,
) -> (new_state: StateVector)
    ensures
        new_state == update_2dof_spec(current_state, commanded_theta, dt, speed, cos_theta, sin_theta),
{
    let x_dot: u64 = mul_bits(speed, cos_theta);
    let y_dot: u64 = mul_bits(speed, sin_theta);
    let x: u64 = add_bits(current_state.x, mul_bits(x_dot, dt));
    let y: u64 = add_bits(current_state.y, mul_bits(y_dot, dt));
    let t: u64 = add_bits(current_state.t, dt);
    let theta_dot: u64 = div_bits(sub_bits(current_state.theta, commanded_theta), dt);
    StateVector {
        t,
        x,
        y,
        z: current_state.z,
        x_dot,
        y_dot,
        z_dot: current_state.z_dot,
        phi: current_state.phi,
        theta: commanded_theta,
        psi: current_state.psi,
        phi_dot: current_state.phi_dot,
        theta_dot,
        psi_dot: current_state.psi_dot,
    }
}

/// Advances the state one step with the heading rate clamped from above
/// by `omega_max`. `speed`, `cos_theta` and `sin_theta` are as in
/// [`update_2dof`].
pub fn update_2dof_turn_rate_constraint(
    current_state: StateVector,
    commanded_theta_dot: u64,
    dt: u64,
    omega_max: u64,
    speed: u64,
    cos_theta: u64,
    sin_theta: u64,
) -> (new_state: StateVector)
    ensures
        new_state == update_2dof_turn_rate_constraint_spec(
            current_state,
            commanded_theta_dot,
            dt,
            omega_max,
            speed,
            cos_theta,
            sin_theta,
        ),
{
    let x_dot: u64 = mul_bits(speed, cos_theta);
    let y_dot: u64 = mul_bits(speed, sin_theta);
    let x: u64 = add_bits(current_state.x, mul_bits(x_dot, dt));
    let y: u64 = add_bits(current_state.y, mul_bits(y_dot, dt));
    let theta_dot: u64 = if gt_check(commanded_theta_dot, omega_max) {
        omega_max
    } else {
        commanded_theta_dot
    };
    let theta: u64 = add_bits(current_state.theta, mul_bits(theta_dot, dt));
    let t: u64 = add_bits(current_state.t, dt);
    StateVector {
        t,
        x,
        y,
        z: current_state.z,
        x_dot,
        y_dot,
        z_dot: current_state.z_dot,
        phi: current_state.phi,
        theta,
        psi: current_state.psi,
        phi_dot: current_state.phi_dot,
        theta_dot,
        psi_dot: current_state.psi_dot,
    }
}

/// Advances the state one step in three axes, snapping `theta` and `psi`
/// to their commanded values. `speed` is the three-axis speed of
/// `current_state`; the four trigonometric arguments are the cosine and
/// sine of its current `theta` and `psi`, evaluated by the caller.
pub fn update_3dof(
    current_state: StateVector,
    commanded_theta: u64,
    commanded_psi: u64,
    dt: u64,
    speed: u64,
    cos_theta: u64,
    sin_theta: u64,
    cos_psi: u64,
    sin_psi: u64,
) -> (new_state: StateVector)
    ensures
        new_state == update_3dof_spec(
            current_state,
            commanded_theta,
            commanded_psi,
            dt,
            speed,
            cos_theta,
            sin_theta,
            cos_psi,
            sin_psi,
        ),
{
    let x_dot: u64 = mul_bits(mul_bits(speed, cos_theta), cos_psi);
    let y_dot: u64 = mul_bits(mul_bits(speed, sin_theta), sin_psi);
    let z_dot: u64 = mul_bits(speed, sin_theta);
    let x: u64 = add_bits(current_state.x, mul_bits(x_dot, dt));
    let y: u64 = add_bits(current_state.y, mul_bits(y_dot, dt));
    let z: u64 = add_bits(current_state.z, mul_bits(z_dot, dt));
    let t: u64 = add_bits(current_state.t, dt);
    let theta_dot: u64 = div_bits(sub_bits(current_state.theta, commanded_theta), dt);
    let psi_dot: u64 = div_bits(sub_bits(current_state.psi, commanded_psi), dt);
    StateVector {
        t,
        x,
        y,
        z,
        x_dot,
        y_dot,
        z_dot,
        phi: current_state.phi,
        theta: commanded_theta,
        psi: commanded_psi,
        phi_dot: current_state.phi_dot,
        theta_dot,
        psi_dot,
    }
}

/// Time monotonicity: each of the three updates advances the clock by
/// exactly one IEEE-754 addition of `dt` to the input state's time, and
/// touches it in no other way.
pub proof fn lemma_time_advances_by_dt(
    s: StateVector,
    commanded_theta: u64,
    commanded_theta_dot: u64,
    commanded_psi: u64,
    dt: u64,
    omega_max: u64,
    speed: u64,
    cos_theta: u64,
    sin_theta: u64,
    cos_psi: u64,
    sin_psi: u64,
)
    ensures
        update_2dof_spec(s, commanded_theta, dt, speed, cos_theta, sin_theta).t == sum_bits(s.t, dt),
        update_2dof_turn_rate_constraint_spec(
            s,
            commanded_theta_dot,
            dt,
            omega_max,
            speed,
            cos_theta,
            sin_theta,
        ).t == sum_bits(s.t, dt),
        update_3dof_spec(
            s,
            commanded_theta,
            commanded_psi,
            dt,
            speed,
            cos_theta,
            sin_theta,
            cos_psi,
            sin_psi,
        ).t == sum_bits(s.t, dt),
{
}

/// The turn-rate clamp is an upper bound only: a commanded rate strictly
/// above `omega_max` is replaced by `omega_max`; every other commanded
/// rate — including rates far below the negative of the limit — is
/// applied unchanged.
pub proof fn lemma_turn_rate_clamp_upper_bound_only(
    s: StateVector,
    commanded_theta_dot: u64,
    dt: u64,
    omega_max: u64,
    speed: u64,
    cos_theta: u64,
    sin_theta: u64,
)
    ensures
        gt_bits(commanded_theta_dot, omega_max) ==> update_2dof_turn_rate_constraint_spec(
            s,
            commanded_theta_dot,
            dt,
            omega_max,
            speed,
            cos_theta,
            sin_theta,
        ).theta_dot == omega_max,
        !gt_bits(commanded_theta_dot, omega_max) ==> update_2dof_turn_rate_constraint_spec(
            s,
            commanded_theta_dot,
            dt,
            omega_max,
            speed,
            cos_theta,
            sin_theta,
        ).theta_dot == commanded_theta_dot,
{
}

/// The reversed-subtraction rate convention: wherever an angle snaps to
/// a commanded value, the recorded rate is `(old angle - new angle)`
/// divided by `dt` — the negative of the intuitive signed turn rate.
/// The model keeps this convention deliberately, so it is stated here as
/// a law of both snapping updates.
pub proof fn lemma_snap_rate_uses_reversed_subtraction(
    s: StateVector,
    commanded_theta: u64,
    commanded_psi: u64,
    dt: u64,
    speed: u64,
    cos_theta: u64,
    sin_theta: u64,
    cos_psi: u64,
    sin_psi: u64,
)
    ensures
        update_2dof_spec(s, commanded_theta, dt, speed, cos_theta, sin_theta).theta_dot
            == quot_bits(diff_bits(s.theta, commanded_theta), dt),
        update_3dof_spec(
            s,
            commanded_theta,
            commanded_psi,
            dt,
            speed,
            cos_theta,
            sin_theta,
            cos_psi,
            sin_psi,
        ).theta_dot == quot_bits(diff_bits(s.theta, commanded_theta), dt),
        update_3dof_spec(
            s,
            commanded_theta,
            commanded_psi,
            dt,
            speed,
            cos_theta,
            sin_theta,
            cos_psi,
            sin_psi,
        ).psi_dot == quot_bits(diff_bits(s.psi, commanded_psi), dt),
{
}

/// Frame conditions: the planar updates never touch the vertical axis,
/// the heading/yaw angle, the roll angle or their rates, and the spatial
/// update never touches `phi` or `phi_dot` (it has no commanded input
/// for them).
pub proof fn lemma_untouched_fields(
    s: StateVector,
    commanded_theta: u64,
    commanded_theta_dot: u64,
    commanded_psi: u64,
    dt: u64,
    omega_max: u64,
    speed: u64,
    cos_theta: u64,
    sin_theta: u64,
    cos_psi: u64,
    sin_psi: u64,
)
    ensures
        ({
            let n = update_2dof_spec(s, commanded_theta, dt, speed, cos_theta, sin_theta);
            n.z == s.z && n.z_dot == s.z_dot && n.phi == s.phi && n.phi_dot == s.phi_dot && n.psi
                == s.psi && n.psi_dot == s.psi_dot
        }),
        ({
            let n = update_2dof_turn_rate_constraint_spec(
                s,
                commanded_theta_dot,
                dt,
                omega_max,
                speed,
                cos_theta,
                sin_theta,
            );
            n.z == s.z && n.z_dot == s.z_dot && n.phi == s.phi && n.phi_dot == s.phi_dot && n.psi
                == s.psi && n.psi_dot == s.psi_dot
        }),
        ({
            let n = update_3dof_spec(
                s,
                commanded_theta,
                commanded_psi,
                dt,
                speed,
                cos_theta,
                sin_theta,
                cos_psi,
                sin_psi,
            );
            n.phi == s.phi && n.phi_dot == s.phi_dot
        }),
{
}

/// A no-op command leaves the angle where it was: commanding the current
/// heading (and, spatially, the current roll) snaps the angle to its own
/// value, so the angle of the new state equals the angle of the old one.
pub proof fn lemma_snap_to_current_angle_is_noop(
    s: StateVector,
    dt: u64,
    speed: u64,
    cos_theta: u64,
    sin_theta: u64,
    cos_psi: u64,
    sin_psi: u64,
)
    ensures
        update_2dof_spec(s, s.theta, dt, speed, cos_theta, sin_theta).theta == s.theta,
        update_3dof_spec(s, s.theta, s.psi, dt, speed, cos_theta, sin_theta, cos_psi, sin_psi).theta
            == s.theta,
        update_3dof_spec(s, s.theta, s.psi, dt, speed, cos_theta, sin_theta, cos_psi, sin_psi).psi
            == s.psi,
{
}

} // verus!
