//! The brick-wall detector's decision rule and its frequency-bin
//! arithmetic.
//!
//! Every full analysis window, the host runs a windowed forward transform
//! over the rolling mono buffer and averages the magnitude spectrum over
//! three bands: a reference band (2–4.5 kHz, the bulk of the musical
//! signal), a cutoff band (8–12 kHz, where brick-wall filtering is most
//! visible) and a presence band (14–18 kHz, where genuine high-frequency
//! content lives). Those averages are floating-point work; what reaches
//! this module is the three threshold comparisons drawn from them, and
//! what is decided here — verified — is which of the three outcomes
//! governs the activation timer.

use vstd::prelude::*;

verus! {

/// Lower edge of the reference band, in hertz.
pub const REFERENCE_BAND_LO_HZ: u32 = 2000;

/// Upper edge of the reference band, in hertz.
pub const REFERENCE_BAND_HI_HZ: u32 = 4500;

/// Lower edge of the cutoff band, in hertz.
pub const CUTOFF_BAND_LO_HZ: u32 = 8000;

/// Upper edge of the cutoff band, in hertz.
pub const CUTOFF_BAND_HI_HZ: u32 = 12000;

/// Lower edge of the presence band, in hertz.
pub const PRESENCE_BAND_LO_HZ: u32 = 14000;

/// Upper edge of the presence band, in hertz.
pub const PRESENCE_BAND_HI_HZ: u32 = 18000;

/// What one analysis window concluded about the signal.
#[derive(Clone, Copy, Debug, PartialEq, Eq, Structural)]
pub enum Detection {
    /// Genuine presence-band energy was found: the signal is not
    /// brick-wall filtered, and extension must stop at once.
    Disarm,
    /// The cutoff band is nearly dead relative to the reference band:
    /// strong evidence of brick-wall filtering, so extension is (re)armed
    /// for its full hold duration.
    Arm,
    /// Borderline or quiet signal: the timer is left exactly as it is,
    /// neither refreshed nor cleared, so borderline material cannot make
    /// the stage flicker.
    Hold,
}

/// The decision rule over the three band comparisons:
/// `reference_active` is whether the reference-band average clears the
/// activity floor, `presence_high` whether the presence-to-reference
/// ratio clears the hi-fi threshold, and `cutoff_dead` whether the
/// cutoff-to-reference ratio falls below the brick-wall threshold.
/// Without an active reference there is no decision; with one, genuine
/// presence energy wins over everything, a dead cutoff band arms, and
/// anything else holds.
pub open spec fn spec_decide(
    reference_active: bool,
    presence_high: bool,
    cutoff_dead: bool,
) -> Detection {
    if !reference_active {
        Detection::Hold
    } else if presence_high {
        Detection::Disarm
    } else if cutoff_dead {
        Detection::Arm
    } else {
        Detection::Hold
    }
}

/// Applies the decision rule, exactly as `spec_decide` states it.
pub fn decide(reference_active: bool, presence_high: bool, cutoff_dead: bool) -> (d: Detection)
    ensures
        d == spec_decide(reference_active, presence_high, cutoff_dead),
{
    if !reference_active {
        Detection::Hold
    } else if presence_high {
        Detection::Disarm
    } else if cutoff_dead {
        Detection::Arm
    } else {
        Detection::Hold
    }
}

/// The spectral bin a frequency falls into, for a transform of `fft_len`
/// points at `sample_rate`: the frequency divided by the bin width
/// `sample_rate / fft_len`, taken downward to a whole bin.
pub fn freq_to_bin(freq_hz: u32, sample_rate: u32, fft_len: u32) -> (r: u64)
    requires
        sample_rate > 0,
    ensures
        r == (freq_hz * fft_len) as int / (sample_rate as int),
{
    proof {
        assert((freq_hz as int) * (fft_len as int) <= 0xffff_ffff * 0xffff_ffff)
            by (nonlinear_arith)
            requires
                0 <= freq_hz as int <= 0xffff_ffff,
                0 <= fft_len as int <= 0xffff_ffff,
        ;
    }
    ((freq_hz as u64) * (fft_len as u64)) / (sample_rate as u64)
}

/// Only a window that found an active reference, no presence energy and a
/// dead cutoff band arms the extender; every other combination leaves the
/// timer alone or clears it.
pub proof fn lemma_arm_needs_brickwall_evidence(
    reference_active: bool,
    presence_high: bool,
    cutoff_dead: bool,
)
    ensures
        (spec_decide(reference_active, presence_high, cutoff_dead) == Detection::Arm)
            <==> (reference_active && !presence_high && cutoff_dead),
        (spec_decide(reference_active, presence_high, cutoff_dead) == Detection::Disarm)
            <==> (reference_active && presence_high),
{
}

} // verus!
