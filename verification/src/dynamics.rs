//! The gravitational acceleration law and the Runge-Kutta integrator.
//!
//! Gravity follows the pairwise Newtonian inverse-square law with the
//! gravitational constant fixed at 1: body `i` is attracted by each other
//! body `j` with the acceleration `(x_j - x_i) * m_j / |x_j - x_i|^3`.  When
//! two bodies coincide the norm is zero and the saturating division yields a
//! zero attraction term; supplying states with separated bodies is the
//! caller's responsibility, as is keeping masses positive.
//!
//! [`State::step`] advances a state by one fixed time step with the classical
//! fourth-order Runge-Kutta method on the first-order system
//! `dx/dt = v`, `dv/dt = acceleration(x, m)`.  The contract pins the result
//! to [`step_spec`], an exact description of the computation, so a step is a
//! pure function of `(state, h, masses)`: identical inputs give identical
//! outputs, bit for bit.

use crate::fixed::{fdiv, fmul, Fx};
use crate::state::{sadd, sscale, State};
use crate::vec3::{vadd, vnorm, vscale, vsub, Vec3};
use vstd::prelude::*;

verus! {

/// Raw representation of one half.
pub const HALF_BITS: i64 = 0x8000_0000;

/// Raw representation of two.
pub const TWO_BITS: i64 = 0x2_0000_0000;

/// Raw representation of one sixth, rounded down.
pub const SIXTH_BITS: i64 = 715827882;

/// Mirror of the attraction exerted on a body at `xi` by a body of mass `mj`
/// at `xj`: the separation vector scaled by `mj / |separation|^3`.  A zero
/// separation yields the zero vector.
pub open spec fn accel_term(xi: Vec3, xj: Vec3, mj: Fx) -> Vec3 {
    let sep = vsub(xj, xi);
    let dist = vnorm(sep);
    let dist3 = fmul(fmul(dist, dist), dist);
    vscale(sep, fdiv(mj, dist3))
}

/// Mirror of the acceleration law: for each body, the attraction terms of
/// the other two bodies, summed in index order.
pub open spec fn accel_spec(s: State, m: (Fx, Fx, Fx)) -> (Vec3, Vec3, Vec3) {
    (
        vadd(accel_term(s.x.0, s.x.1, m.1), accel_term(s.x.0, s.x.2, m.2)),
        vadd(accel_term(s.x.1, s.x.0, m.0), accel_term(s.x.1, s.x.2, m.2)),
        vadd(accel_term(s.x.2, s.x.0, m.0), accel_term(s.x.2, s.x.1, m.1)),
    )
}

/// Mirror of the derivative of a state: the derivative of the positions is
/// the velocities, the derivative of the velocities is the acceleration.
pub open spec fn deriv_spec(s: State, m: (Fx, Fx, Fx)) -> State {
    State { x: s.v, v: accel_spec(s, m) }
}

/// Mirror of one classical fourth-order Runge-Kutta step of size `h`.
pub open spec fn step_spec(s: State, h: Fx, m: (Fx, Fx, Fx)) -> State {
    let half = Fx { bits: HALF_BITS };
    let two = Fx { bits: TWO_BITS };
    let sixth = Fx { bits: SIXTH_BITS };
    let k1 = sscale(deriv_spec(s, m), h);
    let k2 = sscale(deriv_spec(sadd(s, sscale(k1, half)), m), h);
    let k3 = sscale(deriv_spec(sadd(s, sscale(k2, half)), m), h);
    let k4 = sscale(deriv_spec(sadd(s, k3), m), h);
    sadd(s, sscale(sadd(sadd(sadd(k1, sscale(k2, two)), sscale(k3, two)), k4), sixth))
}

/// Mirror of `n` consecutive Runge-Kutta steps of size `h`.
pub open spec fn step_n_spec(s: State, n: nat, h: Fx, m: (Fx, Fx, Fx)) -> State
    decreases n,
{
    if n == 0 {
        s
    } else {
        step_spec(step_n_spec(s, (n - 1) as nat, h, m), h, m)
    }
}

/// The attraction exerted on a body at `xi` by a body of mass `mj` at `xj`.
fn attraction(xi: Vec3, xj: Vec3, mj: Fx) -> (r: Vec3)
    ensures
        r == accel_term(xi, xj, mj),
{
    let sep = xj.sub(xi);
    let dist = sep.norm();
    let dist3 = dist.mul(dist).mul(dist);
    sep.scale(mj.div(dist3))
}

/// The per-body gravitational acceleration of a state under the mass
/// assignment `m`.
pub fn acceleration(s: &State, m: (Fx, Fx, Fx)) -> (r: (Vec3, Vec3, Vec3))
    ensures
        r == accel_spec(*s, m),
{
    (
        attraction(s.x.0, s.x.1, m.1).add(attraction(s.x.0, s.x.2, m.2)),
        attraction(s.x.1, s.x.0, m.0).add(attraction(s.x.1, s.x.2, m.2)),
        attraction(s.x.2, s.x.0, m.0).add(attraction(s.x.2, s.x.1, m.1)),
    )
}

/// The derivative of `s`: velocities in the position slots, accelerations in
/// the velocity slots.
fn deriv(s: State, m: (Fx, Fx, Fx)) -> (r: State)
    ensures
        r == deriv_spec(s, m),
{
    let acc = acceleration(&s, m);
    State { x: s.v, v: acc }
}

impl State {
    /// Advances the state by one Runge-Kutta step of size `h` under the mass
    /// assignment `m`.
    pub fn step(&mut self, h: Fx, m: (Fx, Fx, Fx))
        ensures
            *final(self) == step_spec(*old(self), h, m),
    {
        let half = Fx::from_bits(HALF_BITS);
        let two = Fx::from_bits(TWO_BITS);
        let sixth = Fx::from_bits(SIXTH_BITS);
        let s = *self;
        let k1 = deriv(s, m).scale(h);
        let k2 = deriv(s.add(k1.scale(half)), m).scale(h);
        let k3 = deriv(s.add(k2.scale(half)), m).scale(h);
        let k4 = deriv(s.add(k3), m).scale(h);
        *self = s.add(k1.add(k2.scale(two)).add(k3.scale(two)).add(k4).scale(sixth));
    }

    /// Advances the state by `n` consecutive Runge-Kutta steps of size `h`:
    /// sub-stepping for callers that trade time-step size for stability.
    #[verifier::rlimit(50)]
    pub fn step_n(&mut self, n: usize, h: Fx, m: (Fx, Fx, Fx))
        ensures
            *final(self) == step_n_spec(*old(self), n as nat, h, m),
    {
        let mut i: usize = 0;
        while i < n
            invariant
                i <= n,
                *self == step_n_spec(*old(self), i as nat, h, m),
            decreases n - i,
        {
            self.step(h, m);
            i = i + 1;
        }
    }
}

} // verus!
