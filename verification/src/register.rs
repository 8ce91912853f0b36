//! The register map: one type per register, each with a fixed address, a
//! fixed wire width, and a decode/encode pair. Decoding passes the raw
//! integer through unchanged, reserved bits included: each accessor masks
//! the field it reads, and read-modify-write leaves unrelated bits alone.

use vstd::prelude::*;

use crate::types::{
    spec_rate_decode, spec_stat_rate_field, u24, Calibration, ClockSource, ConversionRate, Format,
    Pga,
};

verus! {

/// A register that can be read over the bus.
pub trait ReadReg<R>: Sized {
    /// The register's address.
    spec fn spec_addr() -> u8;

    /// What decoding a raw register value yields.
    spec fn spec_from_reg(reg: R) -> Self;

    /// The register's address.
    fn addr() -> (a: u8)
        ensures
            a == Self::spec_addr(),
    ;

    /// Decode a raw register value.
    fn from_reg(reg: R) -> (r: Self)
        ensures
            r == Self::spec_from_reg(reg),
    ;
}

/// A register that can be written over the bus.
pub trait WriteReg<R>: ReadReg<R> {
    /// What encoding this value yields.
    spec fn spec_to_reg(self) -> R;

    /// Encode this value as a raw register value.
    fn to_reg(self) -> (r: R)
        ensures
            r == self.spec_to_reg(),
    ;
}

/// Address of the status register.
pub const ADDR_STAT: u8 = 0x00;

/// Address of the first control register.
pub const ADDR_CTRL1: u8 = 0x01;

/// Address of the second control register.
pub const ADDR_CTRL2: u8 = 0x02;

/// Address of the third control register.
pub const ADDR_CTRL3: u8 = 0x03;

/// Address of the fourth control register.
pub const ADDR_CTRL4: u8 = 0x04;

/// Address of the fifth control register.
pub const ADDR_CTRL5: u8 = 0x05;

/// Address of the conversion data register.
pub const ADDR_DATA: u8 = 0x06;

/// Address of the SPI system offset calibration register.
pub const ADDR_SOC_SPI: u8 = 0x07;

/// Address of the SPI system gain calibration register.
pub const ADDR_SGC_SPI: u8 = 0x08;

/// Address of the SPI self-calibration offset register.
pub const ADDR_SCOC_SPI: u8 = 0x09;

/// Address of the SPI self-calibration gain register.
pub const ADDR_SCGC_SPI: u8 = 0x0a;

/// Address of the highpass filter register.
pub const ADDR_HPF: u8 = 0x0b;

/// Address of the ADC system offset calibration register.
pub const ADDR_SOC_ADC: u8 = 0x15;

/// Address of the ADC system gain calibration register.
pub const ADDR_SGC_ADC: u8 = 0x16;

/// Address of the ADC self-calibration offset register.
pub const ADDR_SCOC_ADC: u8 = 0x17;

/// Address of the ADC self-calibration gain register.
pub const ADDR_SCGC_ADC: u8 = 0x18;

// Status register bits.

/// In-reset flag.
pub const STAT_INRESET: u16 = 0x8000;

/// Error summary flag.
pub const STAT_ERROR: u16 = 0x4000;

/// High bit of the power-state field.
pub const STAT_PDSTAT1: u16 = 0x0800;

/// Low bit of the power-state field.
pub const STAT_PDSTAT0: u16 = 0x0400;

/// Data-read-error flag.
pub const STAT_RDERR: u16 = 0x0200;

/// Analog overrange flag.
pub const STAT_AOR: u16 = 0x0100;

/// The 4-bit rate field, bits 7..=4.
pub const STAT_RATE: u16 = 0x00f0;

/// System gain overrange flag.
pub const STAT_SYSGOR: u16 = 0x0008;

/// Data overrange flag.
pub const STAT_DOR: u16 = 0x0004;

/// Modulator busy flag.
pub const STAT_MSTAT: u16 = 0x0002;

/// Data ready flag.
pub const STAT_RDY: u16 = 0x0001;

/// STAT register (`0x0`).
#[derive(Debug, Clone, Copy, PartialEq, Eq, Structural)]
pub struct Stat(pub u16);

impl Stat {
    /// The conversion rate named by the rate field, bits 7..=4.
    pub fn rate(self) -> (r: ConversionRate)
        ensures
            r == spec_rate_decode(spec_stat_rate_field(self.0)),
    {
        let code: u8 = ((self.0 >> 4) & 0xf) as u8;
        if code == 0x0 {
            ConversionRate::Hz0_95
        } else if code == 0x1 {
            ConversionRate::Hz1_9
        } else if code == 0x2 {
            ConversionRate::Hz3_9
        } else if code == 0x3 {
            ConversionRate::Hz7_8
        } else if code == 0x4 {
            ConversionRate::Hz15_6
        } else if code == 0x5 {
            ConversionRate::Hz31_25
        } else if code == 0x6 {
            ConversionRate::Hz62_5
        } else if code == 0x7 {
            ConversionRate::Hz125
        } else if code == 0x8 {
            ConversionRate::Hz250
        } else if code == 0x9 {
            ConversionRate::Hz500
        } else if code == 0xa {
            ConversionRate::Hz1000
        } else if code == 0xb {
            ConversionRate::Hz2000
        } else if code == 0xc {
            ConversionRate::Hz4000
        } else if code == 0xd {
            ConversionRate::Hz8000
        } else if code == 0xe {
            ConversionRate::Hz16000
        } else {
            ConversionRate::Hz32000
        }
    }
}

impl ReadReg<u16> for Stat {
    open spec fn spec_addr() -> u8 {
        ADDR_STAT
    }

    open spec fn spec_from_reg(reg: u16) -> Stat {
        Stat(reg)
    }

    fn addr() -> u8 {
        ADDR_STAT
    }

    fn from_reg(reg: u16) -> Stat {
        Stat(reg)
    }
}

// CTRL1 register bits.

/// Continuous single-cycle bit.
pub const CTRL1_CONTSC: u8 = 0x01;

/// Single-cycle control bit: set for single-cycle mode, clear for
/// continuous conversion mode.
pub const CTRL1_SCYCLE: u8 = 0x02;

/// Bipolar range format bit: set for offset binary, clear for two's
/// complement.
pub const CTRL1_FORMAT: u8 = 0x04;

/// Unipolar/bipolar bit.
pub const CTRL1_UB: u8 = 0x08;

/// Low bit of the power-mode field.
pub const CTRL1_PD0: u8 = 0x10;

/// High bit of the power-mode field.
pub const CTRL1_PD1: u8 = 0x20;

/// Synchronization bit.
pub const CTRL1_SYNC: u8 = 0x40;

/// External clock bit.
pub const CTRL1_EXTCK: u8 = 0x80;

/// CTRL1 register (`0x1`).
#[derive(Debug, Clone, Copy, PartialEq, Eq, Structural)]
pub struct Ctrl1(pub u8);

/// CTRL1 with the power-mode field set to standby: PD1 set, PD0 clear.
pub open spec fn spec_standby_ctrl1(v: u8) -> u8 {
    (v | CTRL1_PD1) & !CTRL1_PD0
}

/// CTRL1 with the power-mode field set to sleep: PD1 clear, PD0 set.
pub open spec fn spec_sleep_ctrl1(v: u8) -> u8 {
    (v & !CTRL1_PD1) | CTRL1_PD0
}

/// CTRL1 set up for a conversion: both power-mode bits clear, and the
/// single-cycle bit set exactly when the conversion is not continuous.
pub open spec fn spec_conversion_ctrl1(v: u8, continuous: bool) -> u8 {
    if continuous {
        (v & !CTRL1_SCYCLE) & !CTRL1_PD1 & !CTRL1_PD0
    } else {
        (v | CTRL1_SCYCLE) & !CTRL1_PD1 & !CTRL1_PD0
    }
}

/// CTRL1 with the external-clock bit following the clock source.
pub open spec fn spec_clock_ctrl1(v: u8, clock: ClockSource) -> u8 {
    match clock {
        ClockSource::External => v | CTRL1_EXTCK,
        ClockSource::Internal => v & !CTRL1_EXTCK,
    }
}

/// CTRL1 with the format bit following the bipolar range format.
pub open spec fn spec_format_ctrl1(v: u8, format: Format) -> u8 {
    match format {
        Format::OffsetBinary => v | CTRL1_FORMAT,
        Format::TwosComplement => v & !CTRL1_FORMAT,
    }
}

/// The CTRL1 bits that hold configuration rather than power mode: the
/// clock-source and format settings.
pub const CTRL1_SETTINGS: u8 = 0x84;

/// Power-mode rewrites of CTRL1 leave the clock-source and format bits
/// unchanged, for every starting value: a round trip such as standby to
/// conversion and back to standby cannot disturb those settings.
pub proof fn lemma_power_rewrites_preserve_settings(v: u8, continuous: bool)
    by (bit_vector)
    ensures
        spec_standby_ctrl1(v) & CTRL1_SETTINGS == v & CTRL1_SETTINGS,
        spec_sleep_ctrl1(v) & CTRL1_SETTINGS == v & CTRL1_SETTINGS,
        spec_conversion_ctrl1(v, continuous) & CTRL1_SETTINGS == v & CTRL1_SETTINGS,
        spec_standby_ctrl1(spec_conversion_ctrl1(v, continuous)) & CTRL1_SETTINGS == v
            & CTRL1_SETTINGS,
{
}

impl Ctrl1 {
    /// This value with the power-mode field set to standby.
    pub fn standby_power(self) -> (r: Ctrl1)
        ensures
            r.0 == spec_standby_ctrl1(self.0),
    {
        Ctrl1((self.0 | CTRL1_PD1) & !CTRL1_PD0)
    }

    /// This value with the power-mode field set to sleep.
    pub fn sleep_power(self) -> (r: Ctrl1)
        ensures
            r.0 == spec_sleep_ctrl1(self.0),
    {
        Ctrl1((self.0 & !CTRL1_PD1) | CTRL1_PD0)
    }

    /// This value set up for a conversion.
    pub fn conversion_power(self, continuous: bool) -> (r: Ctrl1)
        ensures
            r.0 == spec_conversion_ctrl1(self.0, continuous),
    {
        if continuous {
            Ctrl1((self.0 & !CTRL1_SCYCLE) & !CTRL1_PD1 & !CTRL1_PD0)
        } else {
            Ctrl1((self.0 | CTRL1_SCYCLE) & !CTRL1_PD1 & !CTRL1_PD0)
        }
    }

    /// This value with the external-clock bit following `clock`.
    pub fn with_clock(self, clock: ClockSource) -> (r: Ctrl1)
        ensures
            r.0 == spec_clock_ctrl1(self.0, clock),
    {
        match clock {
            ClockSource::External => Ctrl1(self.0 | CTRL1_EXTCK),
            ClockSource::Internal => Ctrl1(self.0 & !CTRL1_EXTCK),
        }
    }

    /// This value with the format bit following `format`.
    pub fn with_format(self, format: Format) -> (r: Ctrl1)
        ensures
            r.0 == spec_format_ctrl1(self.0, format),
    {
        match format {
            Format::OffsetBinary => Ctrl1(self.0 | CTRL1_FORMAT),
            Format::TwosComplement => Ctrl1(self.0 & !CTRL1_FORMAT),
        }
    }
}

impl ReadReg<u8> for Ctrl1 {
    open spec fn spec_addr() -> u8 {
        ADDR_CTRL1
    }

    open spec fn spec_from_reg(reg: u8) -> Ctrl1 {
        Ctrl1(reg)
    }

    fn addr() -> u8 {
        ADDR_CTRL1
    }

    fn from_reg(reg: u8) -> Ctrl1 {
        Ctrl1(reg)
    }
}

impl WriteReg<u8> for Ctrl1 {
    open spec fn spec_to_reg(self) -> u8 {
        self.0
    }

    fn to_reg(self) -> u8 {
        self.0
    }
}

// CTRL2 register bits.

/// High bit of the modulator digital gain field.
pub const CTRL2_DGAIN1: u8 = 0x80;

/// Low bit of the modulator digital gain field.
pub const CTRL2_DGAIN0: u8 = 0x40;

/// Analog input buffer enable bit.
pub const CTRL2_BUFEN: u8 = 0x20;

/// PGA low-power mode bit.
pub const CTRL2_LPMODE: u8 = 0x10;

/// PGA enable bit.
pub const CTRL2_PGAEN: u8 = 0x08;

/// The 3-bit PGA gain field, bits 2..=0.
pub const CTRL2_PGAG: u8 = 0x07;

/// CTRL2 register (`0x2`).
#[derive(Debug, Clone, Copy, PartialEq, Eq, Structural)]
pub struct Ctrl2(pub u8);

/// CTRL2 with the PGA enabled at the given gain, or disabled when no gain
/// is requested. Disabling leaves the gain field as it was.
pub open spec fn spec_pga_ctrl2(v: u8, pga: Option<Pga>) -> u8 {
    match pga {
        Option::Some(gain) => ((v | CTRL2_PGAEN) & !CTRL2_PGAG) | crate::types::spec_pga_code(
            gain,
        ),
        Option::None => v & !CTRL2_PGAEN,
    }
}

impl Ctrl2 {
    /// This value with the PGA enabled at the given gain, or disabled.
    pub fn with_pga(self, pga: Option<Pga>) -> (r: Ctrl2)
        ensures
            r.0 == spec_pga_ctrl2(self.0, pga),
    {
        match pga {
            Option::Some(gain) => {
                let code: u8 = match gain {
                    Pga::X1 => 0x0,
                    Pga::X2 => 0x1,
                    Pga::X4 => 0x2,
                    Pga::X8 => 0x3,
                    Pga::X16 => 0x4,
                    Pga::X32 => 0x5,
                    Pga::X64 => 0x6,
                    Pga::X128 => 0x7,
                };
                Ctrl2(((self.0 | CTRL2_PGAEN) & !CTRL2_PGAG) | code)
            },
            Option::None => Ctrl2(self.0 & !CTRL2_PGAEN),
        }
    }
}

impl ReadReg<u8> for Ctrl2 {
    open spec fn spec_addr() -> u8 {
        ADDR_CTRL2
    }

    open spec fn spec_from_reg(reg: u8) -> Ctrl2 {
        Ctrl2(reg)
    }

    fn addr() -> u8 {
        ADDR_CTRL2
    }

    fn from_reg(reg: u8) -> Ctrl2 {
        Ctrl2(reg)
    }
}

impl WriteReg<u8> for Ctrl2 {
    open spec fn spec_to_reg(self) -> u8 {
        self.0
    }

    fn to_reg(self) -> u8 {
        self.0
    }
}

/// CTRL3 register (`0x3`).
#[derive(Debug, Clone, Copy, PartialEq, Eq, Structural)]
pub struct Ctrl3(pub u8);

impl ReadReg<u8> for Ctrl3 {
    open spec fn spec_addr() -> u8 {
        ADDR_CTRL3
    }

    open spec fn spec_from_reg(reg: u8) -> Ctrl3 {
        Ctrl3(reg)
    }

    fn addr() -> u8 {
        ADDR_CTRL3
    }

    fn from_reg(reg: u8) -> Ctrl3 {
        Ctrl3(reg)
    }
}

impl WriteReg<u8> for Ctrl3 {
    open spec fn spec_to_reg(self) -> u8 {
        self.0
    }

    fn to_reg(self) -> u8 {
        self.0
    }
}

/// CTRL4 register (`0x4`).
#[derive(Debug, Clone, Copy, PartialEq, Eq, Structural)]
pub struct Ctrl4(pub u8);

impl ReadReg<u8> for Ctrl4 {
    open spec fn spec_addr() -> u8 {
        ADDR_CTRL4
    }

    open spec fn spec_from_reg(reg: u8) -> Ctrl4 {
        Ctrl4(reg)
    }

    fn addr() -> u8 {
        ADDR_CTRL4
    }

    fn from_reg(reg: u8) -> Ctrl4 {
        Ctrl4(reg)
    }
}

impl WriteReg<u8> for Ctrl4 {
    open spec fn spec_to_reg(self) -> u8 {
        self.0
    }

    fn to_reg(self) -> u8 {
        self.0
    }
}

// CTRL5 register bits.

/// High bit of the calibration mode field.
pub const CTRL5_CAL1: u8 = 0x80;

/// Low bit of the calibration mode field.
pub const CTRL5_CAL0: u8 = 0x40;

/// Bit that disables use of the system gain correction.
pub const CTRL5_NOSYSG: u8 = 0x08;

/// Bit that disables use of the system offset correction.
pub const CTRL5_NOSYSO: u8 = 0x04;

/// Bit that disables use of the self-calibration gain correction.
pub const CTRL5_NOSCG: u8 = 0x02;

/// Bit that disables use of the self-calibration offset correction.
pub const CTRL5_NOSCO: u8 = 0x01;

/// CTRL5 register (`0x5`).
#[derive(Debug, Clone, Copy, PartialEq, Eq, Structural)]
pub struct Ctrl5(pub u8);

/// CTRL5 with the calibration mode field selecting `calibration`:
/// 0 for self-calibration, 1 for system offset, 2 for system full-scale.
pub open spec fn spec_calibration_ctrl5(v: u8, calibration: Calibration) -> u8 {
    match calibration {
        Calibration::SelfCalibration => v & !CTRL5_CAL1 & !CTRL5_CAL0,
        Calibration::SystemOffsetCalibration => (v & !CTRL5_CAL1) | CTRL5_CAL0,
        Calibration::SystemFullScaleCalibration => (v | CTRL5_CAL1) & !CTRL5_CAL0,
    }
}

impl Ctrl5 {
    /// This value with the calibration mode field selecting `calibration`.
    pub fn with_calibration(self, calibration: Calibration) -> (r: Ctrl5)
        ensures
            r.0 == spec_calibration_ctrl5(self.0, calibration),
    {
        match calibration {
            Calibration::SelfCalibration => Ctrl5(self.0 & !CTRL5_CAL1 & !CTRL5_CAL0),
            Calibration::SystemOffsetCalibration => Ctrl5((self.0 & !CTRL5_CAL1) | CTRL5_CAL0),
            Calibration::SystemFullScaleCalibration => Ctrl5((self.0 | CTRL5_CAL1) & !CTRL5_CAL0),
        }
    }
}

impl ReadReg<u8> for Ctrl5 {
    open spec fn spec_addr() -> u8 {
        ADDR_CTRL5
    }

    open spec fn spec_from_reg(reg: u8) -> Ctrl5 {
        Ctrl5(reg)
    }

    fn addr() -> u8 {
        ADDR_CTRL5
    }

    fn from_reg(reg: u8) -> Ctrl5 {
        Ctrl5(reg)
    }
}

impl WriteReg<u8> for Ctrl5 {
    open spec fn spec_to_reg(self) -> u8 {
        self.0
    }

    fn to_reg(self) -> u8 {
        self.0
    }
}

/// 32-bit data register (`0x6`).
#[derive(Debug, Clone, Copy, PartialEq, Eq, Structural)]
pub struct Data32(pub u32);

impl ReadReg<u32> for Data32 {
    open spec fn spec_addr() -> u8 {
        ADDR_DATA
    }

    open spec fn spec_from_reg(reg: u32) -> Data32 {
        Data32(reg)
    }

    fn addr() -> u8 {
        ADDR_DATA
    }

    fn from_reg(reg: u32) -> Data32 {
        Data32(reg)
    }
}

/// 24-bit data register (`0x6`).
#[derive(Debug, Clone, Copy, PartialEq, Eq, Structural)]
pub struct Data24(pub u24);

impl ReadReg<u24> for Data24 {
    open spec fn spec_addr() -> u8 {
        ADDR_DATA
    }

    open spec fn spec_from_reg(reg: u24) -> Data24 {
        Data24(reg)
    }

    fn addr() -> u8 {
        ADDR_DATA
    }

    fn from_reg(reg: u24) -> Data24 {
        Data24(reg)
    }
}

/// SPI system offset calibration register (`0x7`).
#[derive(Debug, Clone, Copy, PartialEq, Eq, Structural)]
pub struct SocSpi(pub u24);

impl ReadReg<u24> for SocSpi {
    open spec fn spec_addr() -> u8 {
        ADDR_SOC_SPI
    }

    open spec fn spec_from_reg(reg: u24) -> SocSpi {
        SocSpi(reg)
    }

    fn addr() -> u8 {
        ADDR_SOC_SPI
    }

    fn from_reg(reg: u24) -> SocSpi {
        SocSpi(reg)
    }
}

impl WriteReg<u24> for SocSpi {
    open spec fn spec_to_reg(self) -> u24 {
        self.0
    }

    fn to_reg(self) -> u24 {
        self.0
    }
}

/// SPI system gain calibration register (`0x8`).
#[derive(Debug, Clone, Copy, PartialEq, Eq, Structural)]
pub struct SgcSpi(pub u24);

impl ReadReg<u24> for SgcSpi {
    open spec fn spec_addr() -> u8 {
        ADDR_SGC_SPI
    }

    open spec fn spec_from_reg(reg: u24) -> SgcSpi {
        SgcSpi(reg)
    }

    fn addr() -> u8 {
        ADDR_SGC_SPI
    }

    fn from_reg(reg: u24) -> SgcSpi {
        SgcSpi(reg)
    }
}

impl WriteReg<u24> for SgcSpi {
    open spec fn spec_to_reg(self) -> u24 {
        self.0
    }

    fn to_reg(self) -> u24 {
        self.0
    }
}

/// SPI self-calibration offset register (`0x9`).
#[derive(Debug, Clone, Copy, PartialEq, Eq, Structural)]
pub struct ScocSpi(pub u24);

impl ReadReg<u24> for ScocSpi {
    open spec fn spec_addr() -> u8 {
        ADDR_SCOC_SPI
    }

    open spec fn spec_from_reg(reg: u24) -> ScocSpi {
        ScocSpi(reg)
    }

    fn addr() -> u8 {
        ADDR_SCOC_SPI
    }

    fn from_reg(reg: u24) -> ScocSpi {
        ScocSpi(reg)
    }
}

impl WriteReg<u24> for ScocSpi {
    open spec fn spec_to_reg(self) -> u24 {
        self.0
    }

    fn to_reg(self) -> u24 {
        self.0
    }
}

/// SPI self-calibration gain register (`0xA`).
#[derive(Debug, Clone, Copy, PartialEq, Eq, Structural)]
pub struct ScgcSpi(pub u24);

impl ReadReg<u24> for ScgcSpi {
    open spec fn spec_addr() -> u8 {
        ADDR_SCGC_SPI
    }

    open spec fn spec_from_reg(reg: u24) -> ScgcSpi {
        ScgcSpi(reg)
    }

    fn addr() -> u8 {
        ADDR_SCGC_SPI
    }

    fn from_reg(reg: u24) -> ScgcSpi {
        ScgcSpi(reg)
    }
}

impl WriteReg<u24> for ScgcSpi {
    open spec fn spec_to_reg(self) -> u24 {
        self.0
    }

    fn to_reg(self) -> u24 {
        self.0
    }
}

/// Highpass filter register (`0xB`).
#[derive(Debug, Clone, Copy, PartialEq, Eq, Structural)]
pub struct Hpf(pub u16);

impl ReadReg<u16> for Hpf {
    open spec fn spec_addr() -> u8 {
        ADDR_HPF
    }

    open spec fn spec_from_reg(reg: u16) -> Hpf {
        Hpf(reg)
    }

    fn addr() -> u8 {
        ADDR_HPF
    }

    fn from_reg(reg: u16) -> Hpf {
        Hpf(reg)
    }
}

impl WriteReg<u16> for Hpf {
    open spec fn spec_to_reg(self) -> u16 {
        self.0
    }

    fn to_reg(self) -> u16 {
        self.0
    }
}

/// ADC system offset calibration register (`0x15`).
#[derive(Debug, Clone, Copy, PartialEq, Eq, Structural)]
pub struct SocAdc(pub u24);

impl ReadReg<u24> for SocAdc {
    open spec fn spec_addr() -> u8 {
        ADDR_SOC_ADC
    }

    open spec fn spec_from_reg(reg: u24) -> SocAdc {
        SocAdc(reg)
    }

    fn addr() -> u8 {
        ADDR_SOC_ADC
    }

    fn from_reg(reg: u24) -> SocAdc {
        SocAdc(reg)
    }
}

/// ADC system gain calibration register (`0x16`).
#[derive(Debug, Clone, Copy, PartialEq, Eq, Structural)]
pub struct SgcAdc(pub u24);

impl ReadReg<u24> for SgcAdc {
    open spec fn spec_addr() -> u8 {
        ADDR_SGC_ADC
    }

    open spec fn spec_from_reg(reg: u24) -> SgcAdc {
        SgcAdc(reg)
    }

    fn addr() -> u8 {
        ADDR_SGC_ADC
    }

    fn from_reg(reg: u24) -> SgcAdc {
        SgcAdc(reg)
    }
}

/// ADC self-calibration offset register (`0x17`).
#[derive(Debug, Clone, Copy, PartialEq, Eq, Structural)]
pub struct ScocAdc(pub u24);

impl ReadReg<u24> for ScocAdc {
    open spec fn spec_addr() -> u8 {
        ADDR_SCOC_ADC
    }

    open spec fn spec_from_reg(reg: u24) -> ScocAdc {
        ScocAdc(reg)
    }

    fn addr() -> u8 {
        ADDR_SCOC_ADC
    }

    fn from_reg(reg: u24) -> ScocAdc {
        ScocAdc(reg)
    }
}

/// ADC self-calibration gain register (`0x18`).
#[derive(Debug, Clone, Copy, PartialEq, Eq, Structural)]
pub struct ScgcAdc(pub u24);

impl ReadReg<u24> for ScgcAdc {
    open spec fn spec_addr() -> u8 {
        ADDR_SCGC_ADC
    }

    open spec fn spec_from_reg(reg: u24) -> ScgcAdc {
        ScgcAdc(reg)
    }

    fn addr() -> u8 {
        ADDR_SCGC_ADC
    }

    fn from_reg(reg: u24) -> ScgcAdc {
        ScgcAdc(reg)
    }
}

} // verus!
