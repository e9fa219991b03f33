//! Momentum and energy diagnostics.
//!
//! Both quantities are read off a state without changing it.  Total momentum
//! is the mass-weighted sum of the velocities; total energy is the kinetic
//! energy `m_i * |v_i|^2 / 2` of each body minus the potential term
//! `m_i * m_j / |x_i - x_j|` of each unordered pair, counted once.  The true
//! continuous dynamics conserve the total energy; under a fixed-step
//! integrator it drifts slowly, which makes it the natural regression
//! quantity for the engine.

use crate::dynamics::HALF_BITS;
use crate::fixed::{fadd, fdiv, fmul, fsub, Fx};
use crate::state::State;
use crate::vec3::{vadd, vnorm, vscale, vsub, Vec3};
use vstd::prelude::*;

verus! {

/// Mirror of the total momentum: the velocities weighted by their masses,
/// summed in index order.
pub open spec fn momentum_spec(s: State, m: (Fx, Fx, Fx)) -> Vec3 {
    vadd(vadd(vscale(s.v.0, m.0), vscale(s.v.1, m.1)), vscale(s.v.2, m.2))
}

/// Mirror of the kinetic energy of one body: `m * |v|^2 / 2`, accumulated as
/// `((m * |v|) * |v|) * (1/2)`.
pub open spec fn kinetic_term(m: Fx, v: Vec3) -> Fx {
    let speed = vnorm(v);
    fmul(fmul(fmul(m, speed), speed), Fx { bits: HALF_BITS })
}

/// Mirror of the potential term of one pair: `m_i * m_j / |x_i - x_j|`.
pub open spec fn potential_term(mi: Fx, xi: Vec3, mj: Fx, xj: Vec3) -> Fx {
    fdiv(fmul(mi, mj), vnorm(vsub(xi, xj)))
}

/// Mirror of the total energy: kinetic terms added and potential terms
/// subtracted, bodies in index order, each unordered pair counted once.
pub open spec fn energy_spec(s: State, m: (Fx, Fx, Fx)) -> Fx {
    let e0 = kinetic_term(m.0, s.v.0);
    let e1 = fsub(e0, potential_term(m.0, s.x.0, m.1, s.x.1));
    let e2 = fsub(e1, potential_term(m.0, s.x.0, m.2, s.x.2));
    let e3 = fadd(e2, kinetic_term(m.1, s.v.1));
    let e4 = fsub(e3, potential_term(m.1, s.x.1, m.2, s.x.2));
    fadd(e4, kinetic_term(m.2, s.v.2))
}

/// The total momentum of `s` under the mass assignment `m`.
pub fn total_momentum(s: &State, m: (Fx, Fx, Fx)) -> (r: Vec3)
    ensures
        r == momentum_spec(*s, m),
{
    s.v.0.scale(m.0).add(s.v.1.scale(m.1)).add(s.v.2.scale(m.2))
}

/// The kinetic energy of one body.
fn kinetic(m: Fx, v: Vec3) -> (r: Fx)
    ensures
        r == kinetic_term(m, v),
{
    let speed = v.norm();
    m.mul(speed).mul(speed).mul(Fx::from_bits(HALF_BITS))
}

/// The potential term of one pair of bodies.
fn potential(mi: Fx, xi: Vec3, mj: Fx, xj: Vec3) -> (r: Fx)
    ensures
        r == potential_term(mi, xi, mj, xj),
{
    mi.mul(mj).div(xi.sub(xj).norm())
}

/// The total mechanical energy of `s` under the mass assignment `m`.
pub fn total_energy(s: &State, m: (Fx, Fx, Fx)) -> (r: Fx)
    ensures
        r == energy_spec(*s, m),
{
    let e0 = kinetic(m.0, s.v.0);
    let e1 = e0.sub(potential(m.0, s.x.0, m.1, s.x.1));
    let e2 = e1.sub(potential(m.0, s.x.0, m.2, s.x.2));
    let e3 = e2.add(kinetic(m.1, s.v.1));
    let e4 = e3.sub(potential(m.1, s.x.1, m.2, s.x.2));
    e4.add(kinetic(m.2, s.v.2))
}

} // verus!
