//! Engine-level laws, proved once for every state and mass assignment.
//!
//! The contracts of the executable functions pin each result to its spec
//! mirror; the lemmas here state what those mirrors guarantee across calls.

use crate::diagnostics::momentum_spec;
use crate::dynamics::{accel_spec, accel_term, step_spec};
use crate::fixed::{fadd, fdiv, fmul, iabs, Fx, SCALE};
use crate::frame::{cancellation_vanishes, recenter_spec, zero_momentum_spec};
use crate::state::{body, State};
use crate::vec3::{vadd, vdivs, vnorm, vscale, vsub, vzero, Vec3};
use vstd::prelude::*;

verus! {

/// One integrator step is a pure function of its inputs: calling `step`
/// twice with identical step sizes and masses from identical starting states
/// yields bit-identical results.
pub proof fn lemma_step_deterministic(
    s1: State,
    s2: State,
    h1: Fx,
    h2: Fx,
    m1: (Fx, Fx, Fx),
    m2: (Fx, Fx, Fx),
)
    requires
        s1 == s2,
        h1 == h2,
        m1 == m2,
    ensures
        step_spec(s1, h1, m1) == step_spec(s2, h2, m2),
{
}

/// Momentum cancellation is a no-op exactly when the mean-velocity
/// correction is below the resolution of the arithmetic: such a state is
/// returned unchanged, bit for bit.  A second cancellation is therefore a
/// no-op whenever the first drove the total momentum below that threshold.
pub proof fn lemma_zero_momentum_no_op(s: State, m: (Fx, Fx, Fx))
    requires
        cancellation_vanishes(s, m),
    ensures
        zero_momentum_spec(s, m) == s,
{
    let p = momentum_spec(s, m);
    let total = fadd(fadd(m.0, m.1), m.2);
    lemma_small_quotient_vanishes(p.x, total);
    lemma_small_quotient_vanishes(p.y, total);
    lemma_small_quotient_vanishes(p.z, total);
    assert(vdivs(p, total) == vzero());
}

/// Momentum cancellation is idempotent whenever the first application
/// leaves a total momentum below the resolution of the correction: applying
/// it twice then yields exactly the state the first application produced.
/// (A first application may leave a momentum of a few raw units, and with
/// small masses the second application can still see it; idempotence is only
/// approximate there, as it is in any finite arithmetic.)
pub proof fn lemma_zero_momentum_idempotent(s: State, m: (Fx, Fx, Fx))
    requires
        cancellation_vanishes(zero_momentum_spec(s, m), m),
    ensures
        zero_momentum_spec(zero_momentum_spec(s, m), m) == zero_momentum_spec(s, m),
{
    lemma_zero_momentum_no_op(zero_momentum_spec(s, m), m);
}

/// Momentum cancellation leaves a state with exactly zero total momentum
/// unchanged: the mean velocity it subtracts is the zero vector.
pub proof fn lemma_zero_momentum_fixed_point(s: State, m: (Fx, Fx, Fx))
    requires
        momentum_spec(s, m) == vzero(),
    ensures
        zero_momentum_spec(s, m) == s,
{
    lemma_zero_momentum_no_op(s, m);
}

/// A quotient whose prescaled dividend is smaller in magnitude than the
/// divisor truncates to zero.
proof fn lemma_small_quotient_vanishes(a: Fx, b: Fx)
    requires
        b.bits == 0 || iabs(a.bits as int) * (SCALE as int) < iabs(b.bits as int),
    ensures
        fdiv(a, b) == (Fx { bits: 0 }),
{
    if b.bits != 0 {
        let scaled: int = a.bits * SCALE;
        assert(iabs(scaled) == iabs(a.bits as int) * (SCALE as int));
        assert(iabs(scaled) / iabs(b.bits as int) == 0) by (nonlinear_arith)
            requires
                0 <= iabs(scaled) < iabs(b.bits as int),
        ;
    }
}

/// Recentering is idempotent: once body `k` sits at the origin, a second
/// recentering on `k` subtracts the zero vector and changes nothing.
pub proof fn lemma_recenter_idempotent(s: State, k: int)
    requires
        0 <= k < 3,
    ensures
        recenter_spec(recenter_spec(s, k), k) == recenter_spec(s, k),
{
    let s1 = recenter_spec(s, k);
    assert(body(s1.x, k) == vzero());
    lemma_vsub_zero(s1.x.0);
    lemma_vsub_zero(s1.x.1);
    lemma_vsub_zero(s1.x.2);
}

/// With the third body massless, the acceleration law reduces exactly to
/// the two-body inverse-square law: each of the first two bodies feels only
/// the attraction term of the other, while the third still moves as a test
/// particle in their field.
pub proof fn lemma_two_body_reduction(s: State, m: (Fx, Fx, Fx))
    requires
        m.2 == (Fx { bits: 0 }),
    ensures
        accel_spec(s, m).0 == accel_term(s.x.0, s.x.1, m.1),
        accel_spec(s, m).1 == accel_term(s.x.1, s.x.0, m.0),
{
    lemma_massless_term(s.x.0, s.x.2);
    lemma_massless_term(s.x.1, s.x.2);
    lemma_vadd_zero(accel_term(s.x.0, s.x.1, m.1));
    lemma_vadd_zero(accel_term(s.x.1, s.x.0, m.0));
}

/// Adding the zero vector changes nothing.
proof fn lemma_vadd_zero(v: Vec3)
    ensures
        vadd(v, vzero()) == v,
{
}

/// Subtracting the zero vector changes nothing.
proof fn lemma_vsub_zero(v: Vec3)
    ensures
        vsub(v, vzero()) == v,
{
}

/// A massless body attracts nothing: its attraction term is the zero vector
/// whatever the separation, since the dividend `m / |sep|^3` is zero.
proof fn lemma_massless_term(xi: Vec3, xj: Vec3)
    ensures
        accel_term(xi, xj, Fx { bits: 0 }) == vzero(),
{
    let sep = vsub(xj, xi);
    let dist = vnorm(sep);
    let d3 = fmul(fmul(dist, dist), dist);
    let b: int = d3.bits as int;
    if b != 0 {
        let ib: int = iabs(b);
        assert(0int / ib == 0) by (nonlinear_arith)
            requires
                ib > 0,
        ;
    }
    assert(fdiv(Fx { bits: 0 }, d3) == (Fx { bits: 0 }));
    assert(vscale(sep, Fx { bits: 0 }) == vzero());
}

} // verus!
