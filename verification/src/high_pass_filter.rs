//! Highpass filter corner frequencies and their register limits.

use vstd::prelude::*;

verus! {

/// Highpass filter corner frequency.
#[derive(Debug, Clone, Copy, PartialEq, Eq, Structural)]
pub enum HighPassFilter {
    /// 250 Hz corner.
    Hz250,
    /// 1000 Hz corner.
    Hz1000,
    /// 2000 Hz corner.
    Hz2000,
    /// 4000 Hz corner.
    Hz4000,
}

/// The largest raw value the highpass filter register accepts at each
/// corner frequency.
pub open spec fn spec_hpf_max_value(filter: HighPassFilter) -> u16 {
    match filter {
        HighPassFilter::Hz250 => 56492,
        HighPassFilter::Hz1000 => 61787,
        HighPassFilter::Hz2000 => 61787,
        HighPassFilter::Hz4000 => 63164,
    }
}

impl HighPassFilter {
    /// The largest raw value the highpass filter register accepts at this
    /// corner frequency.
    pub fn max_value(&self) -> (r: u16)
        ensures
            r == spec_hpf_max_value(*self),
    {
        match self {
            HighPassFilter::Hz250 => 56492,
            HighPassFilter::Hz1000 => 61787,
            HighPassFilter::Hz2000 => 61787,
            HighPassFilter::Hz4000 => 63164,
        }
    }
}

} // verus!
