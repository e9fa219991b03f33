//! Saturating Q32.32 fixed-point scalars.
//!
//! A scalar is stored as an `i64` holding `value * 2^32`, so the representable
//! range is roughly `[-2^31, 2^31)` with a resolution of `2^-32`.  Every
//! operation is total: results outside the representable range saturate to the
//! nearest representable bound, and division by zero yields zero, so the
//! engine built on these scalars never panics.  Each executable operation is
//! pinned to a spec-level mirror (`fadd`, `fsub`, `fmul`, ...) that states the
//! result exactly, bit for bit.

use vstd::prelude::*;

verus! {

/// The scaling factor `2^32`: the representation of the real number 1.
pub const SCALE: i64 = 0x1_0000_0000;

/// A Q32.32 fixed-point scalar; `bits` holds the represented value times `2^32`.
#[derive(Clone, Copy, Debug, PartialEq, Eq, Structural)]
pub struct Fx {
    pub bits: i64,
}

/// Clamps a mathematical integer into the `i64` range.
pub open spec fn fx_clip(x: int) -> int {
    if x > i64::MAX as int {
        i64::MAX as int
    } else if x < i64::MIN as int {
        i64::MIN as int
    } else {
        x
    }
}

/// The scalar whose raw representation is `fx_clip(x)`.
pub open spec fn sfx(x: int) -> Fx {
    Fx { bits: fx_clip(x) as i64 }
}

/// Absolute value on mathematical integers.
pub open spec fn iabs(x: int) -> int {
    if x < 0 {
        -x
    } else {
        x
    }
}

/// Division rounding toward zero, as hardware division does; total, with
/// quotient 0 for divisor 0.
pub open spec fn tdiv(a: int, b: int) -> int {
    if b == 0 {
        0
    } else if (a < 0) != (b < 0) {
        -(iabs(a) / iabs(b))
    } else {
        iabs(a) / iabs(b)
    }
}

/// Mirror of scalar multiplication: the double-width product is rescaled by
/// `SCALE` with truncation toward zero, then saturated.
pub open spec fn fmul(a: Fx, b: Fx) -> Fx {
    sfx(tdiv(a.bits * b.bits, SCALE as int))
}

/// Mirror of scalar division: the dividend is prescaled by `SCALE`, the
/// quotient truncates toward zero and saturates.  Division by zero yields
/// zero, the engine's well-defined fallback for degenerate geometry.
pub open spec fn fdiv(a: Fx, b: Fx) -> Fx {
    if b.bits == 0 {
        Fx { bits: 0 }
    } else {
        sfx(tdiv(a.bits * SCALE, b.bits as int))
    }
}

/// The integer square root: the greatest `r` with `r * r <= n`.
pub open spec fn isqrt(n: nat) -> nat
    decreases n,
{
    if n < 4 {
        if n < 1 {
            0
        } else {
            1
        }
    } else {
        let s: int = 2 * (isqrt(n / 4) as int);
        if (s + 1) * (s + 1) <= n {
            (s + 1) as nat
        } else {
            s as nat
        }
    }
}

/// Mirror of the scalar square root: zero on non-positive inputs, otherwise
/// the integer square root of the prescaled representation, which rounds the
/// exact root down to the nearest representable value.
pub open spec fn fsqrt(a: Fx) -> Fx {
    if a.bits <= 0 {
        Fx { bits: 0 }
    } else {
        Fx { bits: isqrt((a.bits * SCALE) as nat) as i64 }
    }
}

/// Mirror of scalar addition.
pub open spec fn fadd(a: Fx, b: Fx) -> Fx {
    sfx(a.bits + b.bits)
}

/// Mirror of scalar subtraction.
pub open spec fn fsub(a: Fx, b: Fx) -> Fx {
    sfx(a.bits - b.bits)
}

/// Mirror of scalar negation.
pub open spec fn fneg(a: Fx) -> Fx {
    sfx(-a.bits)
}

impl Fx {
    /// The scalar 0.
    pub fn zero() -> (r: Fx)
        ensures
            r.bits == 0,
    {
        Fx { bits: 0 }
    }

    /// The scalar 1.
    pub fn one() -> (r: Fx)
        ensures
            r.bits == SCALE,
    {
        Fx { bits: SCALE }
    }

    /// The scalar with the given raw Q32.32 representation.
    pub fn from_bits(bits: i64) -> (r: Fx)
        ensures
            r.bits == bits,
    {
        Fx { bits }
    }

    /// The scalar representing the integer `n`, saturated to the
    /// representable range.
    pub fn from_int(n: i64) -> (r: Fx)
        ensures
            r == sfx(n * SCALE),
    {
        proof {
            lemma_mul_i64_fits(n as int, SCALE as int);
        }
        let wide: i128 = (n as i128) * (SCALE as i128);
        Fx { bits: clip128(wide) }
    }

    /// Saturating addition.
    pub fn add(self, other: Fx) -> (r: Fx)
        ensures
            r == fadd(self, other),
    {
        let wide: i128 = (self.bits as i128) + (other.bits as i128);
        Fx { bits: clip128(wide) }
    }

    /// Saturating subtraction.
    pub fn sub(self, other: Fx) -> (r: Fx)
        ensures
            r == fsub(self, other),
    {
        let wide: i128 = (self.bits as i128) - (other.bits as i128);
        Fx { bits: clip128(wide) }
    }

    /// Saturating negation.
    pub fn neg(self) -> (r: Fx)
        ensures
            r == fneg(self),
    {
        let wide: i128 = -(self.bits as i128);
        Fx { bits: clip128(wide) }
    }

    /// Saturating multiplication, truncating toward zero.
    pub fn mul(self, other: Fx) -> (r: Fx)
        ensures
            r == fmul(self, other),
    {
        let negative: bool = (self.bits < 0) != (other.bits < 0);
        let am: u128 = abs_u128(self.bits);
        let bm: u128 = abs_u128(other.bits);
        proof {
            lemma_abs_mul(self.bits as int, other.bits as int);
        }
        let p: u128 = am * bm;
        let q: u128 = p / (SCALE as u128);
        proof {
            lemma_div_shrinks(p as int, q as int, SCALE as int);
        }
        let signed: i128 = if negative {
            -(q as i128)
        } else {
            q as i128
        };
        Fx { bits: clip128(signed) }
    }

    /// Saturating division, truncating toward zero; division by zero
    /// yields zero.
    pub fn div(self, other: Fx) -> (r: Fx)
        ensures
            r == fdiv(self, other),
    {
        if other.bits == 0 {
            return Fx { bits: 0 };
        }
        let negative: bool = (self.bits < 0) != (other.bits < 0);
        let am: u128 = abs_u128(self.bits);
        let bm: u128 = abs_u128(other.bits);
        proof {
            lemma_abs_mul(self.bits as int, SCALE as int);
        }
        let p: u128 = am * (SCALE as u128);
        let q: u128 = p / bm;
        proof {
            lemma_div_shrinks(p as int, q as int, bm as int);
        }
        let signed: i128 = if negative {
            -(q as i128)
        } else {
            q as i128
        };
        Fx { bits: clip128(signed) }
    }

    /// Square root, rounded down to the nearest representable value; zero on
    /// non-positive inputs.
    pub fn sqrt(self) -> (r: Fx)
        ensures
            r == fsqrt(self),
    {
        if self.bits <= 0 {
            return Fx { bits: 0 };
        }
        let n: u128 = (self.bits as u128) * (SCALE as u128);
        let root: u128 = isqrt_u128(n);
        proof {
            lemma_isqrt_bounds(n as nat);
            assert(root * root <= n < 0x1_0000_0000_0000_0000_0000_0000 ==> root
                < 0x1_0000_0000_0000) by (nonlinear_arith);
        }
        Fx { bits: root as i64 }
    }
}

/// Clamps a 128-bit intermediate into the `i64` range.
fn clip128(x: i128) -> (r: i64)
    ensures
        r as int == fx_clip(x as int),
{
    if x > i64::MAX as i128 {
        i64::MAX
    } else if x < i64::MIN as i128 {
        i64::MIN
    } else {
        x as i64
    }
}

/// The magnitude of an `i64`, widened so that `i64::MIN` needs no special case.
fn abs_u128(x: i64) -> (r: u128)
    ensures
        r as int == iabs(x as int),
{
    if x >= 0 {
        x as u128
    } else {
        (-(x as i128)) as u128
    }
}

/// The product of two `i64`-range factors fits in `i128`.
proof fn lemma_mul_i64_fits(a: int, b: int)
    by (nonlinear_arith)
    requires
        i64::MIN <= a <= i64::MAX,
        i64::MIN <= b <= i64::MAX,
    ensures
        i128::MIN < a * b < i128::MAX,
{
}

/// How a product relates to the product of the magnitudes of its factors.
proof fn lemma_abs_mul(a: int, b: int)
    by (nonlinear_arith)
    requires
        iabs(a) <= 0x8000_0000_0000_0000,
        iabs(b) <= 0x8000_0000_0000_0000,
    ensures
        iabs(a * b) == iabs(a) * iabs(b),
        iabs(a) * iabs(b) <= 0x4000_0000_0000_0000_0000_0000_0000_0000,
        ((a < 0) != (b < 0)) ==> a * b <= 0,
        ((a < 0) == (b < 0)) ==> a * b >= 0,
{
}

/// Dividing a non-negative value by a positive one does not enlarge it.
proof fn lemma_div_shrinks(p: int, q: int, d: int)
    by (nonlinear_arith)
    requires
        p >= 0,
        d >= 1,
        q == p / d,
    ensures
        0 <= q <= p,
{
}

/// `isqrt` returns the greatest root: its square is at most `n`, and the
/// next square is beyond `n`.
proof fn lemma_isqrt_bounds(n: nat)
    ensures
        (isqrt(n) as int) * (isqrt(n) as int) <= n as int,
        (n as int) < ((isqrt(n) as int) + 1) * ((isqrt(n) as int) + 1),
    decreases n,
{
    let r: int = isqrt(n) as int;
    if n < 4 {
        if n < 1 {
            assert(r == 0);
        } else {
            assert(r == 1);
        }
        assert(r * r <= n as int && (n as int) < (r + 1) * (r + 1)) by (nonlinear_arith)
            requires
                n < 4,
                r == if n < 1 { 0int } else { 1int },
        ;
    } else {
        lemma_isqrt_bounds(n / 4);
        let t: int = isqrt(n / 4) as int;
        let s: int = 2 * t;
        assert(n == 4 * (n / 4) + n % 4);
        assert(s * s <= n && n < (s + 2) * (s + 2)) by (nonlinear_arith)
            requires
                t * t <= n / 4,
                n / 4 < (t + 1) * (t + 1),
                n == 4 * (n / 4) + n % 4,
                0 <= n % 4 < 4,
                s == 2 * t,
        ;
        if (s + 1) * (s + 1) <= n {
            assert(r == s + 1);
        } else {
            assert(r == s);
        }
        assert(r * r <= n as int);
        assert((n as int) < (r + 1) * (r + 1));
    }
}

/// Any value bracketed between consecutive squares around `r` is the
/// integer square root of `n`.
proof fn lemma_isqrt_unique(n: nat, r: nat)
    requires
        r * r <= n,
        n < (r + 1) * (r + 1),
    ensures
        r == isqrt(n),
{
    lemma_isqrt_bounds(n);
    let q: nat = isqrt(n);
    assert(r == q) by (nonlinear_arith)
        requires
            r * r <= n,
            n < (r + 1) * (r + 1),
            q * q <= n,
            n < (q + 1) * (q + 1),
    ;
}

/// Binary search for the integer square root of a 128-bit value below `2^96`.
fn isqrt_u128(n: u128) -> (r: u128)
    requires
        n < 0x1_0000_0000_0000_0000_0000_0000,
    ensures
        r as nat == isqrt(n as nat),
{
    let mut lo: u128 = 0;
    let mut hi: u128 = 0x1_0000_0000_0000;
    proof {
        assert((0x1_0000_0000_0000 as int) * (0x1_0000_0000_0000 as int)
            == 0x1_0000_0000_0000_0000_0000_0000);
    }
    while hi - lo > 1
        invariant
            lo < hi <= 0x1_0000_0000_0000,
            (lo as int) * (lo as int) <= n as int,
            (n as int) < (hi as int) * (hi as int),
        decreases hi - lo,
    {
        let mid: u128 = lo + (hi - lo) / 2;
        proof {
            assert((mid as int) * (mid as int) < u128::MAX) by (nonlinear_arith)
                requires
                    mid <= 0x1_0000_0000_0000u128,
            ;
        }
        let sq: u128 = mid * mid;
        if sq <= n {
            lo = mid;
        } else {
            hi = mid;
        }
    }
    proof {
        lemma_isqrt_unique(n as nat, lo as nat);
    }
    lo
}

} // verus!
