//! A single-channel audio block processor: a feedback comb-filter delay line
//! with wet/dry mixing, and the gating contract around an external
//! autocorrelation-based pitch detector.
//!
//! Samples and coefficients are fixed-point numbers (see [`fixed`]); the host
//! converts to and from its native sample format at the boundary.

pub mod fixed;
pub mod delay;
pub mod pitch;
pub mod processor;
