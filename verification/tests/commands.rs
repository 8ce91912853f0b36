//! Command-byte encoding tests.

use max112x::{Command, ConversionRate, Stat};

fn all_rates() -> Vec<ConversionRate> {
    vec![
        ConversionRate::Hz0_95,
        ConversionRate::Hz1_9,
        ConversionRate::Hz3_9,
        ConversionRate::Hz7_8,
        ConversionRate::Hz15_6,
        ConversionRate::Hz31_25,
        ConversionRate::Hz62_5,
        ConversionRate::Hz125,
        ConversionRate::Hz250,
        ConversionRate::Hz500,
        ConversionRate::Hz1000,
        ConversionRate::Hz2000,
        ConversionRate::Hz4000,
        ConversionRate::Hz8000,
        ConversionRate::Hz16000,
        ConversionRate::Hz32000,
    ]
}

#[test]
fn conversion_commands_have_start_bit_and_rate_code() {
    for (code, rate) in all_rates().into_iter().enumerate() {
        let cmd = Command::conversion(rate);
        assert_eq!(cmd.bits(), 0x80 | (code as u8));
    }
}

#[test]
fn power_down_command_is_fixed_constant() {
    assert_eq!(Command::power_down().bits(), 0b1001_0000);
}

#[test]
fn calibrate_command_is_fixed_constant() {
    assert_eq!(Command::calibrate().bits(), 0b1010_0000);
}

#[test]
fn register_write_command_packs_address() {
    assert_eq!(Command::register_write(0x00).bits(), 0b1100_0000);
    assert_eq!(Command::register_write(0x01).bits(), 0b1100_0010);
    assert_eq!(Command::register_write(0x05).bits(), 0b1100_1010);
    assert_eq!(Command::register_write(0x1f).bits(), 0b1111_1110);
}

#[test]
fn register_read_command_packs_address_and_read_bit() {
    assert_eq!(Command::register_read(0x00).bits(), 0b1100_0001);
    assert_eq!(Command::register_read(0x01).bits(), 0b1100_0011);
    assert_eq!(Command::register_read(0x17).bits(), 0b1110_1111);
    assert_eq!(Command::register_read(0x1f).bits(), 0b1111_1111);
}

#[test]
fn register_read_is_register_write_or_one_for_all_addresses() {
    for addr in 0u8..32 {
        assert_eq!(
            Command::register_read(addr).bits(),
            Command::register_write(addr).bits() | 1
        );
    }
}

#[test]
fn conversion_command_rate_bits_decode_back_through_status_rate_field() {
    for rate in all_rates() {
        let cmd = Command::conversion(rate);
        let stat_bits = ((cmd.bits() & 0x0f) as u16) << 4;
        assert_eq!(Stat(stat_bits).rate(), rate);
    }
}
