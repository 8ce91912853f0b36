//! Conversion speed names, one per 4-bit rate code.

use vstd::prelude::*;

verus! {

/// Conversion speed (samples per second), named by rate code.
#[derive(Debug, Clone, Copy, PartialEq, Eq, Structural)]
pub enum ConversionSpeed {
    /// 0.95 with SINC filter, 25 with single-cycle conversion
    Rate0,
    /// 1.9 with SINC filter, 31.25 with single-cycle conversion
    Rate1,
    /// 3.9 with SINC filter, 50 with single-cycle conversion
    Rate2,
    /// 7.8 with SINC filter, 62.5 with single-cycle conversion
    Rate3,
    /// 15.6 with SINC filter, 100 with single-cycle conversion
    Rate4,
    /// 31.25 with SINC filter, 125 with single-cycle conversion
    Rate5,
    /// 62.5 with SINC filter (supports FIR filter), 200 with single-cycle conversion
    Rate6,
    /// 125 with SINC filter (supports FIR filter), 250 with single-cycle conversion
    Rate7,
    /// 250 with SINC filter (supports FIR filter), 400 with single-cycle conversion
    Rate8,
    /// 500 with SINC filter (supports FIR filter), 500 with single-cycle conversion
    Rate9,
    /// 1000 with SINC filter (supports FIR filter), 800 with single-cycle conversion
    Rate10,
    /// 2000 with SINC filter (supports FIR filter), 1000 with single-cycle conversion
    Rate11,
    /// 4000 with SINC filter (supports FIR filter), 1600 with single-cycle conversion
    Rate12,
    /// 8000 with SINC filter (supports FIR filter), 2000 with single-cycle conversion
    Rate13,
    /// 16000 with SINC filter, 3200 with single-cycle conversion
    Rate14,
    /// 32000 with SINC filter, 6400 with single-cycle conversion
    Rate15,
}

/// The 4-bit rate code that names each speed.
pub open spec fn spec_speed_code(speed: ConversionSpeed) -> u8 {
    match speed {
        ConversionSpeed::Rate0 => 0x0,
        ConversionSpeed::Rate1 => 0x1,
        ConversionSpeed::Rate2 => 0x2,
        ConversionSpeed::Rate3 => 0x3,
        ConversionSpeed::Rate4 => 0x4,
        ConversionSpeed::Rate5 => 0x5,
        ConversionSpeed::Rate6 => 0x6,
        ConversionSpeed::Rate7 => 0x7,
        ConversionSpeed::Rate8 => 0x8,
        ConversionSpeed::Rate9 => 0x9,
        ConversionSpeed::Rate10 => 0xa,
        ConversionSpeed::Rate11 => 0xb,
        ConversionSpeed::Rate12 => 0xc,
        ConversionSpeed::Rate13 => 0xd,
        ConversionSpeed::Rate14 => 0xe,
        ConversionSpeed::Rate15 => 0xf,
    }
}

impl ConversionSpeed {
    /// The 4-bit rate code of this speed.
    pub fn code(self) -> (r: u8)
        ensures
            r == spec_speed_code(self),
            r < 16,
    {
        match self {
            ConversionSpeed::Rate0 => 0x0,
            ConversionSpeed::Rate1 => 0x1,
            ConversionSpeed::Rate2 => 0x2,
            ConversionSpeed::Rate3 => 0x3,
            ConversionSpeed::Rate4 => 0x4,
            ConversionSpeed::Rate5 => 0x5,
            ConversionSpeed::Rate6 => 0x6,
            ConversionSpeed::Rate7 => 0x7,
            ConversionSpeed::Rate8 => 0x8,
            ConversionSpeed::Rate9 => 0x9,
            ConversionSpeed::Rate10 => 0xa,
            ConversionSpeed::Rate11 => 0xb,
            ConversionSpeed::Rate12 => 0xc,
            ConversionSpeed::Rate13 => 0xd,
            ConversionSpeed::Rate14 => 0xe,
            ConversionSpeed::Rate15 => 0xf,
        }
    }
}

} // verus!
