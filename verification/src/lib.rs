//! Control core of a block-based stereo audio engine with adaptive
//! bandwidth extension.
//!
//! The engine feeds fixed-size stereo blocks through an EQ/gain/dynamics
//! chain and, when periodic spectral analysis suggests the source material
//! was brick-wall filtered, mixes in synthesized high-frequency content.
//! Everything that decides — the activation timer, the rolling analysis
//! cursor, the detector's arm/disarm/hold choice, the noise generator's
//! integer state, the circular-buffer cursors, the filter-band control
//! rules — lives here, verified. The floating-point sample arithmetic
//! that those decisions drive is left to the host crate.

pub mod control;
pub mod detector;
pub mod filters;
pub mod ring;
pub mod rng;
