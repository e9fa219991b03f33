//! Reference-frame operations: momentum cancellation, recentering, and
//! rotational alignment.
//!
//! These are pure transformations of a state, applied on demand rather than
//! every tick; none of them advances simulation time.

use crate::diagnostics::{momentum_spec, total_momentum};
use crate::fixed::{fadd, fmul, fsub, iabs, Fx, SCALE};
use crate::state::{body, State};
use crate::vec3::{vadd, vcross, vdivs, vdot, vnorm, vscale, vsub, vzero, Vec3};
use vstd::prelude::*;

verus! {

/// Mirror of momentum cancellation: the mean velocity `P / M` (total
/// momentum over total mass, component by component) is subtracted from
/// every body's velocity.  Positions are untouched.
pub open spec fn zero_momentum_spec(s: State, m: (Fx, Fx, Fx)) -> State {
    let p = momentum_spec(s, m);
    let total = fadd(fadd(m.0, m.1), m.2);
    let dv = vdivs(p, total);
    State { x: s.x, v: (vsub(s.v.0, dv), vsub(s.v.1, dv), vsub(s.v.2, dv)) }
}

/// Holds when the mean-velocity correction of momentum cancellation
/// underflows to zero in every component: the total momentum is too small,
/// relative to the total mass, for the fixed-point division to resolve.  A
/// state whose total momentum is exactly zero always qualifies.
pub open spec fn cancellation_vanishes(s: State, m: (Fx, Fx, Fx)) -> bool {
    let p = momentum_spec(s, m);
    let total = fadd(fadd(m.0, m.1), m.2);
    total.bits == 0 || (iabs(p.x.bits as int) * (SCALE as int) < iabs(total.bits as int)
        && iabs(p.y.bits as int) * (SCALE as int) < iabs(total.bits as int)
        && iabs(p.z.bits as int) * (SCALE as int) < iabs(total.bits as int))
}

/// Mirror of recentering on body `k`: `x[k]` is subtracted from every
/// position, placing body `k` exactly at the origin.  Velocities are
/// untouched.
pub open spec fn recenter_spec(s: State, k: int) -> State {
    let c = body(s.x, k);
    State { x: (vsub(s.x.0, c), vsub(s.x.1, c), vsub(s.x.2, c)), v: s.v }
}

/// Mirror of one Rodrigues rotation applied to `p`, for a rotation given by
/// its unit `axis`, cosine `c`, sine `sn` and `omc == 1 - c`:
/// `p*c + (axis x p)*sn + axis*(axis . p)*(1 - c)`.
pub open spec fn rotate_spec(p: Vec3, axis: Vec3, c: Fx, sn: Fx, omc: Fx) -> Vec3 {
    vadd(
        vadd(vscale(p, c), vscale(vcross(axis, p), sn)),
        vscale(axis, fmul(vdot(axis, p), omc)),
    )
}

/// Mirror of rotational alignment to body `r`: every position and velocity
/// is turned by the rotation that maps the direction of `x[r]` onto the
/// positive first coordinate axis.  When that rotation is undefined --
/// `x[r]` indistinguishable from the origin, or already parallel or exactly
/// opposite to the axis -- the state is returned unchanged: the frame simply
/// does not rotate on such a call.
pub open spec fn align_spec(s: State, r: int) -> State {
    let xr = body(s.x, r);
    let len = vnorm(xr);
    if len.bits == 0 {
        s
    } else {
        let u = vdivs(xr, len);
        let target = Vec3 { x: Fx { bits: SCALE }, y: Fx { bits: 0 }, z: Fx { bits: 0 } };
        let c = vdot(u, target);
        let perp = vcross(u, target);
        let sn = vnorm(perp);
        if sn.bits == 0 {
            s
        } else {
            let axis = vdivs(perp, sn);
            let omc = fsub(Fx { bits: SCALE }, c);
            State {
                x: (
                    rotate_spec(s.x.0, axis, c, sn, omc),
                    rotate_spec(s.x.1, axis, c, sn, omc),
                    rotate_spec(s.x.2, axis, c, sn, omc),
                ),
                v: (
                    rotate_spec(s.v.0, axis, c, sn, omc),
                    rotate_spec(s.v.1, axis, c, sn, omc),
                    rotate_spec(s.v.2, axis, c, sn, omc),
                ),
            }
        }
    }
}

/// Applies one Rodrigues rotation to `p`.
fn rotate(p: Vec3, axis: Vec3, c: Fx, sn: Fx, omc: Fx) -> (r: Vec3)
    ensures
        r == rotate_spec(p, axis, c, sn, omc),
{
    p.scale(c).add(axis.cross(p).scale(sn)).add(axis.scale(axis.dot(p).mul(omc)))
}

impl State {
    /// Cancels the total momentum: subtracts the mean velocity from every
    /// body, driving the total momentum of the result to numerical zero.
    pub fn zero_momentum(&mut self, m: (Fx, Fx, Fx))
        ensures
            *final(self) == zero_momentum_spec(*old(self), m),
            final(self).x == old(self).x,
    {
        let p = total_momentum(self, m);
        let total = m.0.add(m.1).add(m.2);
        let dv = p.div_scalar(total);
        self.v = (self.v.0.sub(dv), self.v.1.sub(dv), self.v.2.sub(dv));
    }

    /// Recenters the frame on body `k`: afterwards `x[k]` is exactly the
    /// zero vector, with zero rounding error, since it is `x[k] - x[k]`.
    pub fn recenter(&mut self, k: usize)
        requires
            k < 3,
        ensures
            *final(self) == recenter_spec(*old(self), k as int),
            body(final(self).x, k as int) == vzero(),
            final(self).v == old(self).v,
    {
        let c = self.pos(k);
        self.x = (self.x.0.sub(c), self.x.1.sub(c), self.x.2.sub(c));
    }

    /// Aligns the frame to body `r`: rotates every position and velocity so
    /// that `x[r]` comes to lie on the positive first coordinate axis.  When
    /// the rotation is undefined the call leaves the state unchanged.
    pub fn align(&mut self, r: usize)
        requires
            r < 3,
        ensures
            *final(self) == align_spec(*old(self), r as int),
            body(old(self).x, r as int) == vzero() ==> *final(self) == *old(self),
    {
        let xr = self.pos(r);
        let len = xr.norm();
        if len.bits == 0 {
            return ;
        }
        let u = xr.div_scalar(len);
        let target = Vec3::new(Fx::one(), Fx::zero(), Fx::zero());
        let c = u.dot(target);
        let perp = u.cross(target);
        let sn = perp.norm();
        if sn.bits == 0 {
            return ;
        }
        let axis = perp.div_scalar(sn);
        let omc = Fx::one().sub(c);
        self.x = (
            rotate(self.x.0, axis, c, sn, omc),
            rotate(self.x.1, axis, c, sn, omc),
            rotate(self.x.2, axis, c, sn, omc),
        );
        self.v = (
            rotate(self.v.0, axis, c, sn, omc),
            rotate(self.v.1, axis, c, sn, omc),
            rotate(self.v.2, axis, c, sn, omc),
        );
    }
}

} // verus!
