//! Integrator and acceleration-law checks: determinism, the two-body
//! reduction, and long conservation runs on known periodic configurations.

use three_body::diagnostics::{total_energy, total_momentum};
use three_body::dynamics::acceleration;
use three_body::fixed::Fx;
use three_body::state::State;
use three_body::vec3::Vec3;

fn fx(v: f64) -> Fx {
    Fx { bits: (v * 4294967296.0).round() as i64 }
}

fn to_f64(a: Fx) -> f64 {
    a.bits as f64 / 4294967296.0
}

fn vec(x: f64, y: f64, z: f64) -> Vec3 {
    Vec3 { x: fx(x), y: fx(y), z: fx(z) }
}

fn norm_f64(v: Vec3) -> f64 {
    let x = to_f64(v.x);
    let y = to_f64(v.y);
    let z = to_f64(v.z);
    (x * x + y * y + z * z).sqrt()
}

fn dist_f64(a: Vec3, b: Vec3) -> f64 {
    let x = to_f64(a.x) - to_f64(b.x);
    let y = to_f64(a.y) - to_f64(b.y);
    let z = to_f64(a.z) - to_f64(b.z);
    (x * x + y * y + z * z).sqrt()
}

/// The rotating equilateral triangle of the original "Three Stars" preset.
fn triangle() -> (State, (Fx, Fx, Fx)) {
    let r = 5.0;
    let m = 1000.0;
    let v = (m / (3.0f64.sqrt() * r)).sqrt();
    let s = State {
        x: (
            vec(0.0, 0.0, r),
            vec(-r * 3.0f64.sqrt() / 2.0, 0.0, -r / 2.0),
            vec(r * 3.0f64.sqrt() / 2.0, 0.0, -r / 2.0),
        ),
        v: (
            vec(-v, 0.0, 0.0),
            vec(v / 2.0, 0.0, -v * 3.0f64.sqrt() / 2.0),
            vec(v / 2.0, 0.0, v * 3.0f64.sqrt() / 2.0),
        ),
    };
    (s, (fx(m), fx(m), fx(m)))
}

#[test]
fn step_is_deterministic() {
    let (s0, m) = triangle();
    let h = fx(0.001);
    let mut a = s0;
    let mut b = s0;
    a.step(h, m);
    b.step(h, m);
    assert_eq!(a, b);
    a.step(h, m);
    b.step(h, m);
    assert_eq!(a, b);
}

#[test]
fn step_n_matches_repeated_step() {
    let (s0, m) = triangle();
    let h = fx(0.001);
    let mut a = s0;
    a.step_n(3, h, m);
    let mut b = s0;
    b.step(h, m);
    b.step(h, m);
    b.step(h, m);
    assert_eq!(a, b);
}

#[test]
fn two_body_acceleration_is_inverse_square() {
    // Body 1 of mass 5 sits 2 units from body 0; body 2 is massless and far
    // away.  The attraction on body 0 must be exactly m / d^2 = 5 / 4
    // toward body 1: every intermediate value is representable, so the
    // fixed-point result is exact.
    let s = State {
        x: (vec(0.0, 0.0, 0.0), vec(2.0, 0.0, 0.0), vec(0.0, 100.0, 0.0)),
        v: (vec(0.0, 0.0, 0.0), vec(0.0, 0.0, 0.0), vec(0.0, 0.0, 0.0)),
    };
    let m = (fx(1.0), fx(5.0), fx(0.0));
    let acc = acceleration(&s, m);
    assert_eq!(acc.0.x.bits, fx(1.25).bits);
    assert_eq!(acc.0.y.bits, 0);
    assert_eq!(acc.0.z.bits, 0);
    // The massless test particle still falls toward the others.
    assert!(acc.2.y.bits < 0);
}

#[test]
fn diagnostics_are_exact_on_representable_values() {
    // Two unit masses at rest 2 apart (third body massless): the energy is
    // exactly -1/2, and momentum with velocities (1,0,0) and (-1,0,0) at
    // masses 2 cancels exactly.
    let s = State {
        x: (vec(0.0, 0.0, 0.0), vec(2.0, 0.0, 0.0), vec(0.0, 5.0, 0.0)),
        v: (vec(0.0, 0.0, 0.0), vec(0.0, 0.0, 0.0), vec(0.0, 0.0, 0.0)),
    };
    let m = (fx(1.0), fx(1.0), fx(0.0));
    let e = total_energy(&s, m);
    assert_eq!(e.bits, fx(-0.5).bits);

    let s2 = State {
        x: s.x,
        v: (vec(1.0, 0.0, 0.0), vec(-1.0, 0.0, 0.0), vec(0.0, 0.0, 0.0)),
    };
    let m2 = (fx(2.0), fx(2.0), fx(1.0));
    let p = total_momentum(&s2, m2);
    assert_eq!(p.x.bits, 0);
    assert_eq!(p.y.bits, 0);
    assert_eq!(p.z.bits, 0);
}

#[test]
fn triangle_keeps_shape_and_energy() {
    // The rotating equilateral configuration is a known periodic solution:
    // over 10,000 steps at h = 0.001 each body must stay within 1% of its
    // circumradius 5, and the total energy must barely drift.
    let (mut s, m) = triangle();
    let h = fx(0.001);
    let e0 = to_f64(total_energy(&s, m));
    for _ in 0..100 {
        s.step_n(100, h, m);
        for body in [s.x.0, s.x.1, s.x.2] {
            let d = norm_f64(body);
            assert!((d - 5.0).abs() < 0.05, "circumradius drifted to {}", d);
        }
    }
    let e1 = to_f64(total_energy(&s, m));
    assert!(
        ((e1 - e0) / e0).abs() < 1e-3,
        "energy drifted from {} to {}",
        e0,
        e1
    );
}

#[test]
fn figure_eight_stays_bounded_and_periodic() {
    // The figure-eight choreography of the original preset: scaled so that
    // its period stays about 6.326 time units.  The bodies must stay
    // bounded, and each must pass close to its starting position near the
    // end of one period.
    let x1 = vec(9.7000435669734, 0.0, -2.4308753153583);
    let v3 = (-9.3240737144104, 0.0, -8.6473146092102);
    let s0 = State {
        x: (x1, vec(-9.7000435669734, 0.0, 2.4308753153583), vec(0.0, 0.0, 0.0)),
        v: (
            vec(-v3.0 / 2.0, 0.0, -v3.2 / 2.0),
            vec(-v3.0 / 2.0, 0.0, -v3.2 / 2.0),
            vec(v3.0, 0.0, v3.2),
        ),
    };
    let m = (fx(1000.0), fx(1000.0), fx(1000.0));
    let h = fx(0.001);
    let mut s = s0;
    let mut best = f64::INFINITY;
    for step in 0..6600usize {
        s.step(h, m);
        for body in [s.x.0, s.x.1, s.x.2] {
            assert!(norm_f64(body) < 30.0, "a body escaped at step {}", step);
        }
        if step >= 6000 {
            let d = dist_f64(s.x.0, s0.x.0)
                .max(dist_f64(s.x.1, s0.x.1))
                .max(dist_f64(s.x.2, s0.x.2));
            if d < best {
                best = d;
            }
        }
    }
    assert!(
        best < 1.0,
        "bodies never returned near their starting points; best distance {}",
        best
    );
}

#[test]
fn energy_drift_shrinks_with_the_step_size() {
    // An eccentric two-body orbit (the third body is a massless bystander):
    // integrating the same time span with half the step size must cut the
    // energy drift by roughly 2^4, the classical fourth-order behavior.
    let s0 = State {
        x: (vec(0.0, 0.0, 0.0), vec(10.0, 0.0, 0.0), vec(0.0, 200.0, 0.0)),
        v: (vec(0.0, 0.0, 0.0), vec(0.0, 0.0, 6.0), vec(0.0, 0.0, 0.0)),
    };
    let m = (fx(1000.0), fx(1.0), fx(0.0));
    let drift = |n: usize, h: f64| -> f64 {
        let mut s = s0;
        let e0 = to_f64(total_energy(&s, m));
        s.step_n(n, fx(h), m);
        let e1 = to_f64(total_energy(&s, m));
        (e1 - e0).abs()
    };
    let coarse = drift(600, 0.005);
    let fine = drift(1200, 0.0025);
    assert!(coarse < 0.1, "coarse drift unexpectedly large: {}", coarse);
    assert!(
        fine < coarse / 6.0,
        "halving h cut the drift only from {} to {}",
        coarse,
        fine
    );
}
