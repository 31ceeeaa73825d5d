//! The state vector: time, position, velocity, orientation and
//! orientation rates of the modeled body.

use vstd::prelude::*;

verus! {

/// The complete instantaneous kinematic description of the modeled body.
/// Every field holds the raw IEEE-754 binary64 bit pattern of the scalar:
/// time in seconds, positions and velocities along the three axes, the
/// three Euler angles in radians (`phi` heading/yaw, `theta` pitch, `psi`
/// roll) and their rates. The all-zero pattern is the value zero, so the
/// default state is zero in every field.
#[derive(Clone, Copy, Debug, PartialEq, Eq, Structural)]
pub struct StateVector {
    pub t: u64,
    pub x: u64,
    pub y: u64,
    pub z: u64,
    pub x_dot: u64,
    pub y_dot: u64,
    pub z_dot: u64,
    pub phi: u64,
    pub theta: u64,
    pub psi: u64,
    pub phi_dot: u64,
    pub theta_dot: u64,
    pub psi_dot: u64,
}

impl StateVector {
    /// Constructs a fully specified state; no validation is performed.
    pub fn new(
        t_0: u64,
        x_0: u64,
        y_0: u64,
        z_0: u64,
        x_dot_0: u64,
        y_dot_0: u64,
        z_dot_0: u64,
        phi_0: u64,
        theta_0: u64,
        psi_0: u64,
        phi_dot_0: u64,
        theta_dot_0: u64,
        psi_dot_0: u64,
    ) -> (r: StateVector)
        ensures
            r.t == t_0,
            r.x == x_0,
            r.y == y_0,
            r.z == z_0,
            r.x_dot == x_dot_0,
            r.y_dot == y_dot_0,
            r.z_dot == z_dot_0,
            r.phi == phi_0,
            r.theta == theta_0,
            r.psi == psi_0,
            r.phi_dot == phi_dot_0,
            r.theta_dot == theta_dot_0,
            r.psi_dot == psi_dot_0,
    {
        StateVector {
            t: t_0,
            x: x_0,
            y: y_0,
            z: z_0,
            x_dot: x_dot_0,
            y_dot: y_dot_0,
            z_dot: z_dot_0,
            phi: phi_0,
            theta: theta_0,
            psi: psi_0,
            phi_dot: phi_dot_0,
            theta_dot: theta_dot_0,
            psi_dot: psi_dot_0,
        }
    }
}

impl Default for StateVector {
    /// The default state: every scalar is zero (the all-zero bit pattern).
    fn default() -> (r: StateVector)
        ensures
            r.t == 0,
            r.x == 0,
            r.y == 0,
            r.z == 0,
            r.x_dot == 0,
            r.y_dot == 0,
            r.z_dot == 0,
            r.phi == 0,
            r.theta == 0,
            r.psi == 0,
            r.phi_dot == 0,
            r.theta_dot == 0,
            r.psi_dot == 0,
    {
        StateVector {
            t: 0,
            x: 0,
            y: 0,
            z: 0,
            x_dot: 0,
            y_dot: 0,
            z_dot: 0,
            phi: 0,
            theta: 0,
            psi: 0,
            phi_dot: 0,
            theta_dot: 0,
            psi_dot: 0,
        }
    }
}

} // verus!
