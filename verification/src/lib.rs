//! A three-body gravitational simulator core.
//!
//! The engine integrates the trajectories of three point masses under mutual
//! Newtonian gravity (with the gravitational constant fixed at 1) using the
//! classical fourth-order Runge-Kutta method, and offers reference-frame
//! operations (momentum cancellation, recentering on a body, rotational
//! alignment) together with momentum and energy diagnostics.
//!
//! All quantities are carried in a saturating Q32.32 fixed-point scalar type,
//! [`fixed::Fx`], so that every arithmetic step of the engine has an exact,
//! machine-checked description: each executable operation is specified by a
//! spec-level mirror, and the contracts of the public functions pin their
//! results down to the bit.

pub mod control;
pub mod diagnostics;
pub mod dynamics;
pub mod fixed;
pub mod frame;
pub mod laws;
pub mod state;
pub mod vec3;
