//! Canonical text form of a state vector.
//!
//! The thirteen scalars, each already rendered as decimal text, are
//! assembled into the canonical parenthesised list: each value followed
//! by its field name, in fixed order, separated by commas. Consumers
//! read this form back, so the order, the labels and the separators must
//! never drift; the contract of [`StateText::render`] pins all three
//! down exactly. Rendering a binary64 scalar as decimal text stays on
//! the caller's side.

use vstd::prelude::*;
use vstd::string::StringExecFns;

verus! {

/// The thirteen fields of a state vector, each already rendered as text,
/// in the canonical order: time, position, velocity, orientation angles,
/// orientation rates.
pub struct StateText {
    pub t: String,
    pub x: String,
    pub y: String,
    pub z: String,
    pub x_dot: String,
    pub y_dot: String,
    pub z_dot: String,
    pub phi: String,
    pub theta: String,
    pub psi: String,
    pub phi_dot: String,
    pub theta_dot: String,
    pub psi_dot: String,
}

/// The canonical text of a state vector: each value followed by a space
/// and its field name, the thirteen pairs in fixed order, separated by
/// a comma and a space, the whole wrapped in parentheses.
pub open spec fn canonical_text(s: StateText) -> Seq<char> {
    "("@ + s.t@ + " t, "@ + s.x@ + " x, "@ + s.y@ + " y, "@ + s.z@ + " z, "@
        + s.x_dot@ + " x_dot, "@ + s.y_dot@ + " y_dot, "@ + s.z_dot@ + " z_dot, "@
        + s.phi@ + " phi, "@ + s.theta@ + " theta, "@ + s.psi@ + " psi, "@
        + s.phi_dot@ + " phi_dot, "@ + s.theta_dot@ + " theta_dot, "@
        + s.psi_dot@ + " psi_dot)"@
}

impl StateText {
    /// Gathers the thirteen rendered fields, given in the canonical
    /// order; no validation is performed.
    pub fn new(
        t: String,
        x: String,
        y: String,
        z: String,
        x_dot: String,
        y_dot: String,
        z_dot: String,
        phi: String,
        theta: String,
        psi: String,
        phi_dot: String,
        theta_dot: String,
        psi_dot: String,
    ) -> (r: StateText)
        ensures
            r.t@ == t@,
            r.x@ == x@,
            r.y@ == y@,
            r.z@ == z@,
            r.x_dot@ == x_dot@,
            r.y_dot@ == y_dot@,
            r.z_dot@ == z_dot@,
            r.phi@ == phi@,
            r.theta@ == theta@,
            r.psi@ == psi@,
            r.phi_dot@ == phi_dot@,
            r.theta_dot@ == theta_dot@,
            r.psi_dot@ == psi_dot@,
    {
        StateText { t, x, y, z, x_dot, y_dot, z_dot, phi, theta, psi, phi_dot, theta_dot, psi_dot }
    }

    /// Assembles the canonical text form of this state.
    pub fn render(&self) -> (r: String)
        ensures
            r@ == canonical_text(*self),
    {
        let mut out = String::new();
        out.append("(");
        out.append(self.t.as_str());
        out.append(" t, ");
        out.append(self.x.as_str());
        out.append(" x, ");
        out.append(self.y.as_str());
        out.append(" y, ");
        out.append(self.z.as_str());
        out.append(" z, ");
        out.append(self.x_dot.as_str());
        out.append(" x_dot, ");
        out.append(self.y_dot.as_str());
        out.append(" y_dot, ");
        out.append(self.z_dot.as_str());
        out.append(" z_dot, ");
        out.append(self.phi.as_str());
        out.append(" phi, ");
        out.append(self.theta.as_str());
        out.append(" theta, ");
        out.append(self.psi.as_str());
        out.append(" psi, ");
        out.append(self.phi_dot.as_str());
        out.append(" phi_dot, ");
        out.append(self.theta_dot.as_str());
        out.append(" theta_dot, ");
        out.append(self.psi_dot.as_str());
        out.append(" psi_dot)");
        out
    }
}

impl Default for StateText {
    /// The text of the default state: every field zero.
    fn default() -> (r: StateText)
        ensures
            r.t@ == "0"@,
            r.x@ == "0"@,
            r.y@ == "0"@,
            r.z@ == "0"@,
            r.x_dot@ == "0"@,
            r.y_dot@ == "0"@,
            r.z_dot@ == "0"@,
            r.phi@ == "0"@,
            r.theta@ == "0"@,
            r.psi@ == "0"@,
            r.phi_dot@ == "0"@,
            r.theta_dot@ == "0"@,
            r.psi_dot@ == "0"@,
    {
        StateText {
            t: "0".to_owned(),
            x: "0".to_owned(),
            y: "0".to_owned(),
            z: "0".to_owned(),
            x_dot: "0".to_owned(),
            y_dot: "0".to_owned(),
            z_dot: "0".to_owned(),
            phi: "0".to_owned(),
            theta: "0".to_owned(),
            psi: "0".to_owned(),
            phi_dot: "0".to_owned(),
            theta_dot: "0".to_owned(),
            psi_dot: "0".to_owned(),
        }
    }
}

} // verus!
