//! Coordination of a taint-gathering replay behind an interestingness oracle.
//!
//! The coordinator hands the verdict of the oracle it wraps back unchanged and,
//! as a side effect, replays accepted complete inputs once with a freshly reset
//! taint tracker attached.
pub mod decision;
pub mod feedback;
