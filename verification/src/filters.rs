//! Control rules of the per-band EQ: the filter-type vocabulary, the
//! host-facing type-id mapping, and the band-index acceptance rule.
//!
//! The engine owns a fixed array of biquad EQ bands per channel. The
//! coefficient formulas and the per-sample recurrence are floating-point
//! work and live with the host crate; what is decided here is which filter
//! type a control request selects and whether the request is accepted at
//! all.

use vstd::prelude::*;

verus! {

/// Number of EQ bands per channel; a configuration request addressing a
/// band at or past this count is silently ignored.
pub const EQ_BAND_COUNT: usize = 11;

/// The biquad response families the coefficient designer knows. Only the
/// shelving and peaking families have full formulas; the remaining
/// variants deliberately fall back to an identity pass-through
/// coefficient set, preserved as current behavior.
#[derive(Clone, Copy, Debug, PartialEq, Eq, Structural)]
pub enum FilterType {
    LowPass,
    HighPass,
    BandPass,
    Notch,
    Peaking,
    LowShelf,
    HighShelf,
}

/// The host control surface selects a filter type by a small integer id:
/// zero selects the low shelf, two the high shelf, and every other id
/// falls into the peaking default.
pub open spec fn spec_filter_type_for_id(type_id: u8) -> FilterType {
    if type_id == 0 {
        FilterType::LowShelf
    } else if type_id == 2 {
        FilterType::HighShelf
    } else {
        FilterType::Peaking
    }
}

/// Maps a host-supplied type id onto a filter type, exactly as the
/// mapping above states.
pub fn filter_type_for_id(type_id: u8) -> (t: FilterType)
    ensures
        t == spec_filter_type_for_id(type_id),
{
    if type_id == 0 {
        FilterType::LowShelf
    } else if type_id == 2 {
        FilterType::HighShelf
    } else {
        FilterType::Peaking
    }
}

/// Whether a band-configuration request addresses an existing band. A
/// rejected index is ignored without an error, so a malformed control
/// request can never destabilize the real-time callback.
pub fn filter_index_accepted(index: usize) -> (r: bool)
    ensures
        r == (index < EQ_BAND_COUNT),
{
    index < EQ_BAND_COUNT
}

} // verus!
