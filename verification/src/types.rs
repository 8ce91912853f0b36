//! Public value types: the 24-bit integer codec, the rate, format, clock,
//! gain and calibration enumerations, and the decoded status view.

use vstd::prelude::*;

use crate::register::{
    Stat, STAT_AOR, STAT_DOR, STAT_MSTAT, STAT_RDERR, STAT_RDY, STAT_SYSGOR,
};

verus! {

/// A 24-bit unsigned integer, stored as three bytes, most significant first.
#[allow(non_camel_case_types)]
#[derive(Debug, Clone, Copy, PartialEq, Eq, Structural)]
pub struct u24(pub u8, pub u8, pub u8);

impl u24 {
    /// The value as an unsigned integer: byte 0 is the most significant.
    pub open spec fn spec_value(self) -> int {
        (self.0 as int) * 0x10000 + (self.1 as int) * 0x100 + (self.2 as int)
    }

    /// The value as a signed integer, sign-extended from bit 23.
    pub open spec fn spec_signed_value(self) -> int {
        if self.spec_value() >= 0x800000 {
            self.spec_value() - 0x1000000
        } else {
            self.spec_value()
        }
    }

    /// Create a value from its representation as a byte array in big endian.
    pub fn from_be_bytes(bytes: [u8; 3]) -> (r: u24)
        ensures
            r == (u24(bytes[0], bytes[1], bytes[2])),
    {
        u24(bytes[0], bytes[1], bytes[2])
    }

    /// The memory representation of this integer as a byte array in
    /// big-endian (network) byte order.
    pub fn to_be_bytes(&self) -> (r: [u8; 3])
        ensures
            r@ == seq![self.0, self.1, self.2],
    {
        let r = [self.0, self.1, self.2];
        proof {
            assert(r@ =~= seq![self.0, self.1, self.2]);
        }
        r
    }

    /// The memory representation of this integer as a byte array in
    /// little-endian byte order.
    pub fn to_le_bytes(&self) -> (r: [u8; 3])
        ensures
            r@ == seq![self.2, self.1, self.0],
    {
        let r = [self.2, self.1, self.0];
        proof {
            assert(r@ =~= seq![self.2, self.1, self.0]);
        }
        r
    }
}

impl From<u24> for u32 {
    /// Zero-extend the three bytes into a native 32-bit unsigned integer.
    fn from(n: u24) -> (r: u32)
        ensures
            r == n.spec_value(),
    {
        (n.0 as u32) * 0x10000 + (n.1 as u32) * 0x100 + (n.2 as u32)
    }
}

impl vstd::std_specs::convert::FromSpecImpl<u24> for u32 {
    open spec fn obeys_from_spec() -> bool {
        true
    }

    open spec fn from_spec(n: u24) -> u32 {
        n.spec_value() as u32
    }
}

impl From<u24> for i32 {
    /// Sign-extend from bit 23 into a native 32-bit signed integer.
    fn from(n: u24) -> (r: i32)
        ensures
            r == n.spec_signed_value(),
    {
        let v: u32 = (n.0 as u32) * 0x10000 + (n.1 as u32) * 0x100 + (n.2 as u32);
        if v >= 0x800000 {
            ((v as i64) - 0x1000000) as i32
        } else {
            v as i32
        }
    }
}

impl vstd::std_specs::convert::FromSpecImpl<u24> for i32 {
    open spec fn obeys_from_spec() -> bool {
        true
    }

    open spec fn from_spec(n: u24) -> i32 {
        n.spec_signed_value() as i32
    }
}

/// Round trip: building a 24-bit value from big-endian bytes and widening
/// it to 32 bits reconstructs `b0 << 16 | b1 << 8 | b2` exactly, for every
/// byte triple.
pub proof fn lemma_u24_round_trip(b0: u8, b1: u8, b2: u8)
    ensures
        u24(b0, b1, b2).spec_value() == ((b0 as u32) << 16) | ((b1 as u32) << 8) | (b2 as u32),
{
    assert((b0 as u32) * 0x10000 + (b1 as u32) * 0x100 + (b2 as u32) == ((b0 as u32) << 16) | (
    (b1 as u32) << 8) | (b2 as u32)) by (bit_vector);
}

/// The 16-bit value carried big-endian by two wire bytes.
pub open spec fn spec_u16_from_be(hi: u8, lo: u8) -> u16 {
    ((hi as u16) << 8) | (lo as u16)
}

/// The 32-bit value carried big-endian by four wire bytes.
pub open spec fn spec_u32_from_be(b0: u8, b1: u8, b2: u8, b3: u8) -> u32 {
    ((b0 as u32) << 24) | ((b1 as u32) << 16) | ((b2 as u32) << 8) | (b3 as u32)
}

/// Conversion rate (samples per second).
#[derive(Debug, Clone, Copy, PartialEq, Eq, Structural)]
pub enum ConversionRate {
    /// 0.95 with SINC filter, 25 with single-cycle conversion
    Hz0_95,
    /// 1.9 with SINC filter, 31.25 with single-cycle conversion
    Hz1_9,
    /// 3.9 with SINC filter, 50 with single-cycle conversion
    Hz3_9,
    /// 7.8 with SINC filter, 62.5 with single-cycle conversion
    Hz7_8,
    /// 15.6 with SINC filter, 100 with single-cycle conversion
    Hz15_6,
    /// 31.25 with SINC filter, 125 with single-cycle conversion
    Hz31_25,
    /// 62.5 with SINC filter (supports FIR filter), 200 with single-cycle conversion
    Hz62_5,
    /// 125 with SINC filter (supports FIR filter), 250 with single-cycle conversion
    Hz125,
    /// 250 with SINC filter (supports FIR filter), 400 with single-cycle conversion
    Hz250,
    /// 500 with SINC filter (supports FIR filter), 500 with single-cycle conversion
    Hz500,
    /// 1000 with SINC filter (supports FIR filter), 800 with single-cycle conversion
    Hz1000,
    /// 2000 with SINC filter (supports FIR filter), 1000 with single-cycle conversion
    Hz2000,
    /// 4000 with SINC filter (supports FIR filter), 1600 with single-cycle conversion
    Hz4000,
    /// 8000 with SINC filter (supports FIR filter), 2000 with single-cycle conversion
    Hz8000,
    /// 16000 with SINC filter, 3200 with single-cycle conversion
    Hz16000,
    /// 32000 with SINC filter, 6400 with single-cycle conversion
    Hz32000,
}

/// The 4-bit code that selects `rate` in a conversion command, and that
/// the status register reports in its rate field.
pub open spec fn spec_rate_code(rate: ConversionRate) -> u8 {
    match rate {
        ConversionRate::Hz0_95 => 0x0,
        ConversionRate::Hz1_9 => 0x1,
        ConversionRate::Hz3_9 => 0x2,
        ConversionRate::Hz7_8 => 0x3,
        ConversionRate::Hz15_6 => 0x4,
        ConversionRate::Hz31_25 => 0x5,
        ConversionRate::Hz62_5 => 0x6,
        ConversionRate::Hz125 => 0x7,
        ConversionRate::Hz250 => 0x8,
        ConversionRate::Hz500 => 0x9,
        ConversionRate::Hz1000 => 0xa,
        ConversionRate::Hz2000 => 0xb,
        ConversionRate::Hz4000 => 0xc,
        ConversionRate::Hz8000 => 0xd,
        ConversionRate::Hz16000 => 0xe,
        ConversionRate::Hz32000 => 0xf,
    }
}

/// The rate that a 4-bit rate code names. Codes above 15 cannot come out
/// of a 4-bit field; they fall into the last arm.
pub open spec fn spec_rate_decode(code: u8) -> ConversionRate {
    if code == 0x0 {
        ConversionRate::Hz0_95
    } else if code == 0x1 {
        ConversionRate::Hz1_9
    } else if code == 0x2 {
        ConversionRate::Hz3_9
    } else if code == 0x3 {
        ConversionRate::Hz7_8
    } else if code == 0x4 {
        ConversionRate::Hz15_6
    } else if code == 0x5 {
        ConversionRate::Hz31_25
    } else if code == 0x6 {
        ConversionRate::Hz62_5
    } else if code == 0x7 {
        ConversionRate::Hz125
    } else if code == 0x8 {
        ConversionRate::Hz250
    } else if code == 0x9 {
        ConversionRate::Hz500
    } else if code == 0xa {
        ConversionRate::Hz1000
    } else if code == 0xb {
        ConversionRate::Hz2000
    } else if code == 0xc {
        ConversionRate::Hz4000
    } else if code == 0xd {
        ConversionRate::Hz8000
    } else if code == 0xe {
        ConversionRate::Hz16000
    } else {
        ConversionRate::Hz32000
    }
}

impl ConversionRate {
    /// The 4-bit code of this rate.
    pub fn code(self) -> (r: u8)
        ensures
            r == spec_rate_code(self),
            r < 16,
    {
        match self {
            ConversionRate::Hz0_95 => 0x0,
            ConversionRate::Hz1_9 => 0x1,
            ConversionRate::Hz3_9 => 0x2,
            ConversionRate::Hz7_8 => 0x3,
            ConversionRate::Hz15_6 => 0x4,
            ConversionRate::Hz31_25 => 0x5,
            ConversionRate::Hz62_5 => 0x6,
            ConversionRate::Hz125 => 0x7,
            ConversionRate::Hz250 => 0x8,
            ConversionRate::Hz500 => 0x9,
            ConversionRate::Hz1000 => 0xa,
            ConversionRate::Hz2000 => 0xb,
            ConversionRate::Hz4000 => 0xc,
            ConversionRate::Hz8000 => 0xd,
            ConversionRate::Hz16000 => 0xe,
            ConversionRate::Hz32000 => 0xf,
        }
    }
}

/// The code of every rate is a 4-bit value.
pub proof fn lemma_rate_code_fits(rate: ConversionRate)
    ensures
        spec_rate_code(rate) < 16,
{
}

/// Every rate comes back from its own code.
pub proof fn lemma_rate_code_round_trip(rate: ConversionRate)
    ensures
        spec_rate_decode(spec_rate_code(rate)) == rate,
{
}

/// Bipolar range format.
#[derive(Debug, Clone, Copy, PartialEq, Eq, Structural)]
pub enum Format {
    /// Offset binary.
    OffsetBinary,
    /// Two's complement.
    TwosComplement,
}

/// Clock source.
#[derive(Debug, Clone, Copy, PartialEq, Eq, Structural)]
pub enum ClockSource {
    /// Use the external clock as the system clock.
    External,
    /// Use the internal clock as the system clock.
    Internal,
}

/// PGA gain.
#[derive(Debug, Clone, Copy, PartialEq, Eq, Structural)]
pub enum Pga {
    /// × 1
    X1,
    /// × 2
    X2,
    /// × 4
    X4,
    /// × 8
    X8,
    /// × 16
    X16,
    /// × 32
    X32,
    /// × 64
    X64,
    /// × 128
    X128,
}

/// The 3-bit gain code written to the PGA gain field of CTRL2.
pub open spec fn spec_pga_code(pga: Pga) -> u8 {
    match pga {
        Pga::X1 => 0x0,
        Pga::X2 => 0x1,
        Pga::X4 => 0x2,
        Pga::X8 => 0x3,
        Pga::X16 => 0x4,
        Pga::X32 => 0x5,
        Pga::X64 => 0x6,
        Pga::X128 => 0x7,
    }
}

/// ADC state, as the status register reports it.
#[derive(Debug, Clone, Copy, PartialEq, Eq, Structural)]
pub enum State {
    /// The ADC is converting.
    Conversion,
    /// The ADC is fully powered down.
    PowerDown,
    /// The ADC is in standby mode: the modulator is powered off but the
    /// subregulator stays powered on.
    Standby,
}

/// Calibration kind.
#[derive(Debug, Clone, Copy, PartialEq, Eq, Structural)]
pub enum Calibration {
    /// Self-calibration.
    SelfCalibration,
    /// System-level offset calibration.
    SystemOffsetCalibration,
    /// System-level full-scale calibration.
    SystemFullScaleCalibration,
}

/// The 2-bit power-state field of the status register, bits 11..=10.
pub open spec fn spec_pdstat_field(bits: u16) -> u16 {
    (bits >> 10) & 0x3
}

/// The state that a power-state field names. The fourth code (3) is
/// unreachable by the chip's contract and is excluded by callers.
pub open spec fn spec_state_decode(field: u16) -> State {
    if field == 0 {
        State::Conversion
    } else if field == 1 {
        State::PowerDown
    } else {
        State::Standby
    }
}

/// The 4-bit rate field of the status register, bits 7..=4.
pub open spec fn spec_stat_rate_field(bits: u16) -> u8 {
    ((bits >> 4) & 0xf) as u8
}

/// A decoded snapshot of the status register at the moment of the read.
/// It does not refresh itself.
#[derive(Debug, Clone, Copy, PartialEq, Eq, Structural)]
pub struct Status {
    /// The raw status register contents behind this snapshot.
    pub status: Stat,
}

impl Status {
    /// Whether a new conversion result is available.
    ///
    /// The chip resets this by a read of the DATA register.
    pub fn data_ready(&self) -> (r: bool)
        ensures
            r == (self.status.0 & STAT_RDY == STAT_RDY),
    {
        self.status.0 & STAT_RDY == STAT_RDY
    }

    /// Whether the modulator is busy with a conversion, a
    /// self-calibration, or a system calibration.
    pub fn modulator_busy(&self) -> (r: bool)
        ensures
            r == (self.status.0 & STAT_MSTAT == STAT_MSTAT),
    {
        self.status.0 & STAT_MSTAT == STAT_MSTAT
    }

    /// Whether the conversion result exceeded the maximum or minimum value
    /// and was clipped.
    pub fn data_overrange(&self) -> (r: bool)
        ensures
            r == (self.status.0 & STAT_DOR == STAT_DOR),
    {
        self.status.0 & STAT_DOR == STAT_DOR
    }

    /// Whether the system gain calibration was overranged.
    pub fn system_gain_overrange(&self) -> (r: bool)
        ensures
            r == (self.status.0 & STAT_SYSGOR == STAT_SYSGOR),
    {
        self.status.0 & STAT_SYSGOR == STAT_SYSGOR
    }

    /// The conversion rate of the result in the DATA register, or the rate
    /// used for calibration coefficient calculation. This is the rate of
    /// the previous conversion, never of one still in progress.
    pub fn data_rate(&self) -> (r: ConversionRate)
        ensures
            r == spec_rate_decode(spec_stat_rate_field(self.status.0)),
    {
        self.status.rate()
    }

    /// Whether the modulator detects an analog input voltage beyond
    /// 1.3 times the full-scale range.
    pub fn analog_overrange(&self) -> (r: bool)
        ensures
            r == (self.status.0 & STAT_AOR == STAT_AOR),
    {
        self.status.0 & STAT_AOR == STAT_AOR
    }

    /// Whether a new result was written to the DATA register while it was
    /// being read.
    pub fn data_read_error(&self) -> (r: bool)
        ensures
            r == (self.status.0 & STAT_RDERR == STAT_RDERR),
    {
        self.status.0 & STAT_RDERR == STAT_RDERR
    }

    /// The ADC state at the moment of the status read.
    ///
    /// The reserved power-state code (3) signals a protocol or hardware
    /// fault; a status value carrying it is excluded by the precondition,
    /// so this decode never observes it.
    pub fn state(&self) -> (r: State)
        requires
            spec_pdstat_field(self.status.0) != 3,
        ensures
            r == spec_state_decode(spec_pdstat_field(self.status.0)),
    {
        let field: u16 = (self.status.0 >> 10) & 0x3;
        if field == 0 {
            State::Conversion
        } else if field == 1 {
            State::PowerDown
        } else {
            State::Standby
        }
    }
}

} // verus!
