//! The single-byte command encoder.
//!
//! A command byte always has bit 7 (the start marker) set. Bit 6 selects
//! register access; when it is clear the low four bits carry a conversion
//! rate code, and when it is set bits 5..=1 carry a register address and
//! bit 0 selects read (1) or write (0).

use vstd::prelude::*;

use crate::types::{
    spec_rate_code, spec_rate_decode, spec_stat_rate_field, ConversionRate,
    lemma_rate_code_round_trip,
};

verus! {

/// Start marker, present in every command byte.
pub const CMD_START: u8 = 0x80;

/// Mode bit: set for register access, clear for conversion commands.
pub const CMD_MODE: u8 = 0x40;

/// Power-down bit of the conversion-mode command set.
pub const CMD_IMPD: u8 = 0x10;

/// Calibration bit of the conversion-mode command set.
pub const CMD_CAL: u8 = 0x20;

/// Command byte that starts a conversion at the given 4-bit rate code.
pub open spec fn spec_conversion_command(rate_code: u8) -> u8 {
    CMD_START | (rate_code & 0x0f)
}

/// Command byte that powers the ADC down.
pub open spec fn spec_power_down_command() -> u8 {
    CMD_START | CMD_IMPD
}

/// Command byte that triggers a calibration.
pub open spec fn spec_calibrate_command() -> u8 {
    CMD_START | CMD_CAL
}

/// Command byte that announces a register write. An address above five
/// bits truncates silently, exactly as the hardware would interpret it.
pub open spec fn spec_register_write_command(addr: u8) -> u8 {
    CMD_START | CMD_MODE | (addr << 1)
}

/// Command byte that announces a register read.
pub open spec fn spec_register_read_command(addr: u8) -> u8 {
    CMD_START | CMD_MODE | (addr << 1) | 0x01
}

/// A single command byte for the ADC.
#[derive(Debug, Clone, Copy, PartialEq, Eq, Structural)]
pub struct Command(pub u8);

impl Command {
    /// The raw command byte.
    pub fn bits(self) -> (r: u8)
        ensures
            r == self.0,
    {
        self.0
    }

    /// Build the command that starts a conversion at the given rate.
    pub fn conversion(rate: ConversionRate) -> (r: Command)
        ensures
            r.0 == spec_conversion_command(spec_rate_code(rate)),
    {
        let code = rate.code();
        Command(CMD_START | (code & 0x0f))
    }

    /// Build the command that powers the ADC down. The power state the
    /// chip settles in is controlled by the CTRL1 register, not by this
    /// command byte.
    pub fn power_down() -> (r: Command)
        ensures
            r.0 == spec_power_down_command(),
    {
        Command(CMD_START | CMD_IMPD)
    }

    /// Build the command that triggers the calibration configured in CTRL5.
    pub fn calibrate() -> (r: Command)
        ensures
            r.0 == spec_calibrate_command(),
    {
        Command(CMD_START | CMD_CAL)
    }

    /// Build the command that announces a write to the register at `addr`.
    pub fn register_write(addr: u8) -> (r: Command)
        ensures
            r.0 == spec_register_write_command(addr),
    {
        Command(CMD_START | CMD_MODE | (addr << 1))
    }

    /// Build the command that announces a read of the register at `addr`.
    pub fn register_read(addr: u8) -> (r: Command)
        ensures
            r.0 == spec_register_read_command(addr),
    {
        Command(CMD_START | CMD_MODE | (addr << 1) | 0x01)
    }
}

/// For every rate: the rate bits of its conversion command, placed in the
/// status register's rate field, decode back to the same rate.
pub proof fn lemma_conversion_command_rate_round_trip(rate: ConversionRate)
    ensures
        spec_rate_decode(
            spec_stat_rate_field(
                ((spec_conversion_command(spec_rate_code(rate)) & 0x0f) as u16) << 4,
            ),
        ) == rate,
{
    let c = spec_rate_code(rate);
    assert(c < 16) by {
        crate::types::lemma_rate_code_fits(rate);
    }
    assert(c < 16 ==> ((((((0x80u8 | (c & 0x0f)) & 0x0f) as u16) << 4) >> 4) & 0xf) as u8 == c)
        by (bit_vector);
    lemma_rate_code_round_trip(rate);
}

/// A register-read command is the matching register-write command with
/// the read/write bit set, for every address.
pub proof fn lemma_register_read_is_write_or_one(addr: u8)
    ensures
        spec_register_read_command(addr) == spec_register_write_command(addr) | 0x01,
{
    assert((CMD_START | CMD_MODE | (addr << 1) | 0x01) == (CMD_START | CMD_MODE | (addr << 1))
        | 0x01) by (bit_vector);
}

} // verus!
