//! Device state-machine tests against a scripted mock transport with a
//! simulated clock.

use std::cell::RefCell;
use std::collections::VecDeque;
use std::rc::Rc;

use max112x::{
    Calibration, ClockSource, ConversionRate, Error, Max11214, State, Transport,
};

/// One recorded bus transaction.
#[derive(Debug, Clone, PartialEq, Eq)]
enum Op {
    Write(Vec<u8>),
    Exchange(Vec<u8>, Vec<u8>),
    WriteDelay(Vec<u8>, u32),
}

#[derive(Debug, Default)]
struct SharedState {
    /// Transactions in submission order.
    ops: Vec<Op>,
    /// The simulated clock, in nanoseconds, when each transaction ended.
    times: Vec<u64>,
    /// Scripted responses for exchanges, oldest first.
    responses: VecDeque<Vec<u8>>,
    /// The simulated clock, in nanoseconds.
    now_ns: u64,
    /// When set, every call fails.
    fail: bool,
}

#[derive(Debug, Clone, PartialEq, Eq)]
struct MockError;

#[derive(Debug, Clone)]
struct MockSpi(Rc<RefCell<SharedState>>);

impl MockSpi {
    fn new() -> MockSpi {
        MockSpi(Rc::new(RefCell::new(SharedState::default())))
    }

    fn respond(&self, bytes: Vec<u8>) {
        self.0.borrow_mut().responses.push_back(bytes);
    }

    fn ops(&self) -> Vec<Op> {
        self.0.borrow().ops.clone()
    }

    fn times(&self) -> Vec<u64> {
        self.0.borrow().times.clone()
    }
}

impl Transport for MockSpi {
    type Error = MockError;

    fn write(&mut self, bytes: &[u8]) -> Result<(), MockError> {
        let mut st = self.0.borrow_mut();
        if st.fail {
            return Err(MockError);
        }
        st.ops.push(Op::Write(bytes.to_vec()));
        let now = st.now_ns;
        st.times.push(now);
        Ok(())
    }

    fn exchange_in_place(&mut self, buffer: &mut Vec<u8>) -> Result<(), MockError> {
        let mut st = self.0.borrow_mut();
        if st.fail {
            return Err(MockError);
        }
        let response = match st.responses.pop_front() {
            Some(r) => r,
            None => return Err(MockError),
        };
        assert_eq!(response.len(), buffer.len(), "scripted response length");
        st.ops.push(Op::Exchange(buffer.clone(), response.clone()));
        let now = st.now_ns;
        st.times.push(now);
        *buffer = response;
        Ok(())
    }

    fn write_then_delay(&mut self, bytes: &[u8], delay_ns: u32) -> Result<(), MockError> {
        let mut st = self.0.borrow_mut();
        if st.fail {
            return Err(MockError);
        }
        st.now_ns += delay_ns as u64;
        st.ops.push(Op::WriteDelay(bytes.to_vec(), delay_ns));
        let now = st.now_ns;
        st.times.push(now);
        Ok(())
    }
}

#[test]
fn release_returns_the_same_transport() {
    let spi = MockSpi::new();
    let inner = spi.0.clone();
    let adc = Max11214::new(spi);
    let spi = adc.release();
    assert!(Rc::ptr_eq(&spi.0, &inner));
}

#[test]
fn into_standby_skips_the_write_when_ctrl1_already_reads_standby() {
    // CTRL1 already reads 0b0010_0000: PD1 set, PD0 clear. The transition
    // must perform exactly one read and zero writes of CTRL1, then the
    // power-down command.
    let spi = MockSpi::new();
    spi.respond(vec![0b1100_0011, 0b0010_0000]);
    let handle = spi.clone();
    let adc = Max11214::new(spi);
    let adc = adc.into_standby().unwrap();
    assert_eq!(
        handle.ops(),
        vec![
            Op::Exchange(vec![0b1100_0011, 0], vec![0b1100_0011, 0b0010_0000]),
            Op::Write(vec![0b1001_0000]),
        ]
    );
    drop(adc);
}

#[test]
fn into_standby_rewrites_ctrl1_when_the_power_field_differs() {
    // CTRL1 reads 0b0001_0000: PD0 set. Standby needs PD1 set, PD0 clear.
    let spi = MockSpi::new();
    spi.respond(vec![0b1100_0011, 0b0001_0000]);
    let handle = spi.clone();
    let adc = Max11214::new(spi);
    let adc = adc.into_standby().unwrap();
    assert_eq!(
        handle.ops(),
        vec![
            Op::Exchange(vec![0b1100_0011, 0], vec![0b1100_0011, 0b0001_0000]),
            Op::Write(vec![0b1100_0010, 0b0010_0000]),
            Op::Write(vec![0b1001_0000]),
        ]
    );
    drop(adc);
}

#[test]
fn into_sleep_sets_pd0_and_clears_pd1() {
    let spi = MockSpi::new();
    spi.respond(vec![0b1100_0011, 0b0010_0000]);
    let handle = spi.clone();
    let adc = Max11214::new(spi);
    let adc = adc.into_sleep().unwrap();
    assert_eq!(
        handle.ops(),
        vec![
            Op::Exchange(vec![0b1100_0011, 0], vec![0b1100_0011, 0b0010_0000]),
            Op::Write(vec![0b1100_0010, 0b0001_0000]),
            Op::Write(vec![0b1001_0000]),
        ]
    );
    drop(adc);
}

#[test]
fn set_clock_skips_the_write_when_the_bit_already_agrees() {
    // External clock requested while EXTCK is already set: one read of
    // CTRL1 and no write reaches the transport.
    let spi = MockSpi::new();
    spi.respond(vec![0b1100_0011, 0b1000_0000]);
    let handle = spi.clone();
    let adc = Max11214::new(spi);
    let mut adc = adc;
    adc.set_clock(ClockSource::External).unwrap();
    assert_eq!(
        handle.ops(),
        vec![Op::Exchange(vec![0b1100_0011, 0], vec![0b1100_0011, 0b1000_0000])]
    );
    drop(adc);
}

#[test]
fn set_clock_writes_the_toggled_bit_when_it_differs() {
    let spi = MockSpi::new();
    spi.respond(vec![0b1100_0011, 0b1000_0000]);
    let handle = spi.clone();
    let mut adc = Max11214::new(spi);
    adc.set_clock(ClockSource::Internal).unwrap();
    assert_eq!(
        handle.ops(),
        vec![
            Op::Exchange(vec![0b1100_0011, 0], vec![0b1100_0011, 0b1000_0000]),
            Op::Write(vec![0b1100_0010, 0b0000_0000]),
        ]
    );
    drop(adc);
}

#[test]
fn set_format_toggles_only_the_format_bit() {
    let spi = MockSpi::new();
    spi.respond(vec![0b1100_0011, 0b0010_0001]);
    let handle = spi.clone();
    let mut adc = Max11214::new(spi);
    adc.set_format(max112x::Format::OffsetBinary).unwrap();
    assert_eq!(
        handle.ops(),
        vec![
            Op::Exchange(vec![0b1100_0011, 0], vec![0b1100_0011, 0b0010_0001]),
            Op::Write(vec![0b1100_0010, 0b0010_0101]),
        ]
    );
    drop(adc);
}

#[test]
fn set_pga_enables_the_gain_and_rewrites_the_gain_field() {
    // CTRL2 read command: address 2 -> 0b1100_0101.
    let spi = MockSpi::new();
    spi.respond(vec![0b1100_0101, 0b0010_0110]);
    let handle = spi.clone();
    let mut adc = Max11214::new(spi);
    adc.set_pga(Some(max112x::Pga::X16)).unwrap();
    // 0b0010_0110 | PGAEN, gain field cleared, then code 0b100.
    assert_eq!(
        handle.ops(),
        vec![
            Op::Exchange(vec![0b1100_0101, 0], vec![0b1100_0101, 0b0010_0110]),
            Op::Write(vec![0b1100_0100, 0b0010_1100]),
        ]
    );
    drop(adc);
}

#[test]
fn set_pga_none_only_clears_the_enable_bit() {
    let spi = MockSpi::new();
    spi.respond(vec![0b1100_0101, 0b0000_1101]);
    let handle = spi.clone();
    let mut adc = Max11214::new(spi);
    adc.set_pga(None).unwrap();
    assert_eq!(
        handle.ops(),
        vec![
            Op::Exchange(vec![0b1100_0101, 0], vec![0b1100_0101, 0b0000_1101]),
            Op::Write(vec![0b1100_0100, 0b0000_0101]),
        ]
    );
    drop(adc);
}

#[test]
fn status_bytes_with_power_down_field_decode_to_power_down() {
    // Status payload 0b0000_0100, 0b0000_0000 carries power-state field
    // 01: powered down.
    let spi = MockSpi::new();
    spi.respond(vec![0b1100_0001, 0b0000_0100, 0b0000_0000]);
    let mut adc = Max11214::new(spi);
    let status = adc.status().unwrap();
    assert_eq!(status.state(), State::PowerDown);
    drop(adc);
}

#[test]
fn data_reads_the_24_bit_data_register() {
    let spi = MockSpi::new();
    // CTRL1 read for the transition into conversion mode.
    spi.respond(vec![0b1100_0011, 0b0011_0000]);
    // DATA register read: address 6 -> read command 0b1100_1101.
    spi.respond(vec![0b1100_1101, 0xab, 0xcd, 0xef]);
    let handle = spi.clone();
    let adc = Max11214::new(spi);
    let mut adc = adc.start_conversion(ConversionRate::Hz500, true).unwrap();
    let value = adc.data().unwrap();
    assert_eq!(value, 0x00ab_cdef);
    // The transition wrote CTRL1 (power bits cleared) and the conversion
    // command carrying rate code 9.
    assert_eq!(
        handle.ops(),
        vec![
            Op::Exchange(vec![0b1100_0011, 0], vec![0b1100_0011, 0b0011_0000]),
            Op::Write(vec![0b1100_0010, 0b0000_0000]),
            Op::Write(vec![0b1000_1001]),
            Op::Exchange(
                vec![0b1100_1101, 0, 0, 0],
                vec![0b1100_1101, 0xab, 0xcd, 0xef]
            ),
        ]
    );
    drop(adc);
}

#[test]
fn power_mode_round_trip_preserves_clock_and_format_settings() {
    // CTRL1 starts with EXTCK and FORMAT set plus standby power bits.
    let spi = MockSpi::new();
    spi.respond(vec![0b1100_0011, 0b1010_0100]);
    let handle = spi.clone();
    let adc = Max11214::new(spi);
    // Standby -> conversion.
    let adc = adc.start_conversion(ConversionRate::Hz0_95, true).unwrap();
    // The conversion exited externally; the handle is reconstructed from
    // the released transport, then put back into standby.
    let spi = MockSpi(Rc::clone(&handle.0));
    drop(adc);
    spi.respond(vec![0b1100_0011, 0b1000_0100]);
    let adc = Max11214::new(spi);
    let adc = adc.into_standby().unwrap();
    // Every CTRL1 value written kept the clock-source and format bits.
    for op in handle.ops() {
        if let Op::Write(bytes) = &op {
            if bytes.len() == 2 && bytes[0] == 0b1100_0010 {
                assert_eq!(bytes[1] & 0b1000_0100, 0b1000_0100);
            }
        }
    }
    // The round trip ends with CTRL1 back at its starting value.
    assert_eq!(
        handle.ops().last(),
        Some(&Op::Write(vec![0b1001_0000]))
    );
    let writes: Vec<Op> = handle
        .ops()
        .into_iter()
        .filter(|op| matches!(op, Op::Write(b) if b.len() == 2))
        .collect();
    assert_eq!(
        writes,
        vec![
            Op::Write(vec![0b1100_0010, 0b1000_0100]),
            Op::Write(vec![0b1100_0010, 0b1010_0100]),
        ]
    );
    drop(adc);
}

#[test]
fn self_calibration_blocks_for_its_settle_time_before_results_are_read() {
    let spi = MockSpi::new();
    // CTRL5 read: address 5 -> read command 0b1100_1011. CAL field reads
    // 0b01 and must become 0b00 for self-calibration.
    spi.respond(vec![0b1100_1011, 0b0100_0000]);
    // Self-cal offset result: address 0x17 -> read command 0b1110_1111.
    spi.respond(vec![0b1110_1111, 0x12, 0x34, 0x56]);
    let handle = spi.clone();
    let mut adc = Max11214::new(spi);
    adc.self_calibrate(Calibration::SelfCalibration).unwrap();
    let value = adc.self_calibration_offset_calibration_value().unwrap();
    assert_eq!(value, 0x0012_3456);
    let ops = handle.ops();
    assert_eq!(
        ops,
        vec![
            Op::Exchange(vec![0b1100_1011, 0], vec![0b1100_1011, 0b0100_0000]),
            Op::Write(vec![0b1100_1010, 0b0000_0000]),
            Op::WriteDelay(vec![0b1010_0000], 200_000_000),
            Op::Exchange(
                vec![0b1110_1111, 0, 0, 0],
                vec![0b1110_1111, 0x12, 0x34, 0x56]
            ),
        ]
    );
    // On the simulated clock, at least 200 ms pass between triggering the
    // calibration and reading the result back.
    let times = handle.times();
    let trigger_started = times[2] - 200_000_000;
    assert!(times[3] - trigger_started >= 200_000_000);
    drop(adc);
}

#[test]
fn system_calibrations_use_the_shorter_settle_time() {
    let spi = MockSpi::new();
    spi.respond(vec![0b1100_1011, 0b0000_0000]);
    let handle = spi.clone();
    let mut adc = Max11214::new(spi);
    adc.self_calibrate(Calibration::SystemOffsetCalibration).unwrap();
    assert_eq!(
        handle.ops(),
        vec![
            Op::Exchange(vec![0b1100_1011, 0], vec![0b1100_1011, 0b0000_0000]),
            Op::Write(vec![0b1100_1010, 0b0100_0000]),
            Op::WriteDelay(vec![0b1010_0000], 100_000_000),
        ]
    );
    drop(adc);

    let spi = MockSpi::new();
    spi.respond(vec![0b1100_1011, 0b0000_0000]);
    let handle = spi.clone();
    let mut adc = Max11214::new(spi);
    adc.self_calibrate(Calibration::SystemFullScaleCalibration).unwrap();
    assert_eq!(
        handle.ops(),
        vec![
            Op::Exchange(vec![0b1100_1011, 0], vec![0b1100_1011, 0b0000_0000]),
            Op::Write(vec![0b1100_1010, 0b1000_0000]),
            Op::WriteDelay(vec![0b1010_0000], 100_000_000),
        ]
    );
    drop(adc);
}

#[test]
fn calibration_value_reads_hit_their_own_registers() {
    let spi = MockSpi::new();
    // Addresses 0x15, 0x16, 0x17, 0x18 -> read commands 0xeb, 0xed, 0xef, 0xf1.
    spi.respond(vec![0xeb, 0x00, 0x00, 0x01]);
    spi.respond(vec![0xed, 0x00, 0x00, 0x02]);
    spi.respond(vec![0xef, 0x00, 0x00, 0x03]);
    spi.respond(vec![0xf1, 0x00, 0x00, 0x04]);
    let handle = spi.clone();
    let mut adc = Max11214::new(spi);
    assert_eq!(adc.system_offset_calibration_value().unwrap(), 1);
    assert_eq!(adc.system_gain_calibration_value().unwrap(), 2);
    assert_eq!(adc.self_calibration_offset_calibration_value().unwrap(), 3);
    assert_eq!(adc.self_calibration_gain_calibration_value().unwrap(), 4);
    let sent: Vec<u8> = handle
        .ops()
        .iter()
        .map(|op| match op {
            Op::Exchange(sent, _) => sent[0],
            _ => 0,
        })
        .collect();
    assert_eq!(sent, vec![0xeb, 0xed, 0xef, 0xf1]);
    drop(adc);
}

#[test]
fn transport_failure_propagates_as_the_spi_error() {
    let spi = MockSpi::new();
    spi.0.borrow_mut().fail = true;
    let adc = Max11214::new(spi);
    let result = adc.into_standby();
    assert!(matches!(result, Err(Error::Spi(MockError))));
}
