//! The simulation state: positions and velocities of the three bodies.
//!
//! A [`State`] is a plain value; the integrator and the frame operations
//! replace it wholesale, so no partially updated state is ever visible.  For
//! the algebra of the Runge-Kutta method a state behaves as a flat vector of
//! twelve scalars: [`State::add`] and [`State::scale`] act component-wise
//! across both the position and the velocity triples.

use crate::fixed::Fx;
use crate::vec3::{vadd, vdivs, vnorm, vscale, Vec3};
use vstd::prelude::*;

verus! {

/// The positions (`x`) and velocities (`v`) of bodies 0, 1 and 2.
#[derive(Clone, Copy, Debug, PartialEq, Eq)]
pub struct State {
    pub x: (Vec3, Vec3, Vec3),
    pub v: (Vec3, Vec3, Vec3),
}

/// Selects the vector of body `i` from a triple.
pub open spec fn body(t: (Vec3, Vec3, Vec3), i: int) -> Vec3 {
    if i == 0 {
        t.0
    } else if i == 1 {
        t.1
    } else {
        t.2
    }
}

/// Replaces the vector of body `i` in a triple.
pub open spec fn treplace(t: (Vec3, Vec3, Vec3), i: int, w: Vec3) -> (Vec3, Vec3, Vec3) {
    if i == 0 {
        (w, t.1, t.2)
    } else if i == 1 {
        (t.0, w, t.2)
    } else {
        (t.0, t.1, w)
    }
}

/// Mirror of rescaling the velocity of body `k` to the magnitude `target`:
/// the velocity is divided by its own norm and scaled by `target`.  A zero
/// velocity has no direction and becomes the zero vector.
pub open spec fn set_speed_spec(s: State, k: int, target: Fx) -> State {
    let vk = body(s.v, k);
    let dir = vdivs(vk, vnorm(vk));
    State { x: s.x, v: treplace(s.v, k, vscale(dir, target)) }
}

/// Mirror of component-wise addition of two triples.
pub open spec fn tadd(a: (Vec3, Vec3, Vec3), b: (Vec3, Vec3, Vec3)) -> (Vec3, Vec3, Vec3) {
    (vadd(a.0, b.0), vadd(a.1, b.1), vadd(a.2, b.2))
}

/// Mirror of scaling each vector of a triple.
pub open spec fn tscale(a: (Vec3, Vec3, Vec3), s: Fx) -> (Vec3, Vec3, Vec3) {
    (vscale(a.0, s), vscale(a.1, s), vscale(a.2, s))
}

/// Mirror of component-wise state addition.
pub open spec fn sadd(a: State, b: State) -> State {
    State { x: tadd(a.x, b.x), v: tadd(a.v, b.v) }
}

/// Mirror of scaling a state by a scalar.
pub open spec fn sscale(a: State, s: Fx) -> State {
    State { x: tscale(a.x, s), v: tscale(a.v, s) }
}

impl State {
    /// Builds a state from per-body positions and velocities.
    pub fn new(x: (Vec3, Vec3, Vec3), v: (Vec3, Vec3, Vec3)) -> (r: State)
        ensures
            r == (State { x, v }),
    {
        State { x, v }
    }

    /// The position of body `k`.
    pub fn pos(&self, k: usize) -> (r: Vec3)
        requires
            k < 3,
        ensures
            r == body(self.x, k as int),
    {
        if k == 0 {
            self.x.0
        } else if k == 1 {
            self.x.1
        } else {
            self.x.2
        }
    }

    /// The velocity of body `k`.
    pub fn vel(&self, k: usize) -> (r: Vec3)
        requires
            k < 3,
        ensures
            r == body(self.v, k as int),
    {
        if k == 0 {
            self.v.0
        } else if k == 1 {
            self.v.1
        } else {
            self.v.2
        }
    }

    /// Rescales the velocity of body `k` to the magnitude `target`, keeping
    /// its direction: data entry for a driver that lets the user dial a
    /// body's speed.
    pub fn set_speed(&mut self, k: usize, target: Fx)
        requires
            k < 3,
        ensures
            *final(self) == set_speed_spec(*old(self), k as int, target),
    {
        let vk = self.vel(k);
        let nv = vk.div_scalar(vk.norm()).scale(target);
        if k == 0 {
            self.v = (nv, self.v.1, self.v.2);
        } else if k == 1 {
            self.v = (self.v.0, nv, self.v.2);
        } else {
            self.v = (self.v.0, self.v.1, nv);
        }
    }

    /// Component-wise sum of two states, across positions and velocities.
    pub fn add(self, other: State) -> (r: State)
        ensures
            r == sadd(self, other),
    {
        State {
            x: (self.x.0.add(other.x.0), self.x.1.add(other.x.1), self.x.2.add(other.x.2)),
            v: (self.v.0.add(other.v.0), self.v.1.add(other.v.1), self.v.2.add(other.v.2)),
        }
    }

    /// Every position and velocity scaled by `s`.
    pub fn scale(self, s: Fx) -> (r: State)
        ensures
            r == sscale(self, s),
    {
        State {
            x: (self.x.0.scale(s), self.x.1.scale(s), self.x.2.scale(s)),
            v: (self.v.0.scale(s), self.v.1.scale(s), self.v.2.scale(s)),
        }
    }
}

} // verus!
