//! Pointer stabilisation for users with hand tremor.
//!
//! A short calibration measures a user's baseline tremor from a burst of
//! pointer samples, and an adaptive filter smooths each incoming sample with
//! two independent per-axis estimators whose output is blended with the raw
//! input by a factor that follows the current tremor classification.
//!
//! Every quantity is an exact integer: positions, amplitudes, frequencies,
//! covariances and factors are counted in thousandths of their unit.
use vstd::prelude::*;

pub mod arith;
pub mod calibration;
pub mod classification;
pub mod estimator;
pub mod history;
pub mod tremor_filter;

verus! {

/// Number of fixed-point steps in one unit: values are kept in thousandths.
pub const MILLI: i64 = 1000;

} // verus!
