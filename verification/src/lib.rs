//! Driver logic for the MAX11214 family of 24-bit delta-sigma ADCs.
//!
//! The driver encodes the chip's single-byte command protocol and its
//! register map, decodes the status register, and enforces the legal
//! power-mode transitions (standby, sleep, conversion) through a typed
//! device handle. All byte exchanges go through the [`Transport`]
//! capability, which the caller implements for the actual bus; every
//! operation's contract states exactly which transactions it submits.

use core::marker::PhantomData;

use vstd::prelude::*;

mod command;
mod error;
mod high_pass_filter;
pub mod register;
mod speed;
mod transport;
mod types;

pub use command::Command;
pub use error::Error;
pub use high_pass_filter::HighPassFilter;
pub use register::{ReadReg, Stat, WriteReg};
pub use speed::ConversionSpeed;
pub use transport::{BusOp, Transport};
pub use types::{u24, Calibration, ClockSource, ConversionRate, Format, Pga, State, Status};

use command::{
    spec_calibrate_command, spec_conversion_command, spec_power_down_command,
    spec_register_read_command, spec_register_write_command,
};
use register::{
    spec_calibration_ctrl5, spec_clock_ctrl1, spec_conversion_ctrl1, spec_format_ctrl1,
    spec_pga_ctrl2, spec_sleep_ctrl1, spec_standby_ctrl1, Ctrl1, Ctrl2, Ctrl5, Data24, ScgcAdc,
    ScocAdc, SgcAdc, SocAdc, ADDR_CTRL1, ADDR_CTRL5, ADDR_DATA, ADDR_SCGC_ADC, ADDR_SCOC_ADC,
    ADDR_SGC_ADC, ADDR_SOC_ADC, ADDR_STAT,
};
use types::{spec_rate_code, spec_u16_from_be};

verus! {

/// Marker type for a [`Max11214`] in conversion mode.
#[derive(Debug)]
pub struct Conversion;

/// Marker type for a [`Max11214`] in sleep mode.
#[derive(Debug)]
pub struct Sleep;

/// Marker type for a [`Max11214`] in standby mode.
#[derive(Debug)]
pub struct Standby;

/// The modes in which the modulator is idle, so configuration and
/// calibration are legal: standby and sleep.
pub trait LowPowerMode {

}

impl LowPowerMode for Standby {

}

impl LowPowerMode for Sleep {

}

/// A MAX11214 ADC, tagged with its current power mode.
#[derive(Debug)]
pub struct Max11214<SPI, MODE> {
    spi: SPI,
    mode: PhantomData<MODE>,
}

/// The read-modify-write discipline on a one-byte register at `addr`:
/// the register is read once, and the rewritten value `new_of` of the byte
/// that came back is written back only when it differs, so an unchanged
/// register costs no write transaction.
pub open spec fn spec_modify_u8_trace(
    pre: Seq<BusOp>,
    post: Seq<BusOp>,
    addr: u8,
    new_of: spec_fn(u8) -> u8,
) -> bool {
    pre.len() < post.len() && (post[pre.len() as int] matches BusOp::Exchange(sent, recv) && (
    sent == seq![spec_register_read_command(addr), 0u8] && recv.len() == 2 && (if new_of(recv[1])
        == recv[1] {
        post == pre.push(BusOp::Exchange(sent, recv))
    } else {
        post == pre.push(BusOp::Exchange(sent, recv)).push(
            BusOp::Write(seq![spec_register_write_command(addr), new_of(recv[1])]),
        )
    })))
}

/// A mode transition: a read-modify-write of the register at `addr`
/// followed by the single command byte `cmd`.
pub open spec fn spec_transition_trace(
    pre: Seq<BusOp>,
    post: Seq<BusOp>,
    addr: u8,
    new_of: spec_fn(u8) -> u8,
    cmd: u8,
) -> bool {
    &&& post.len() > 0
    &&& post.last() == BusOp::Write(seq![cmd])
    &&& spec_modify_u8_trace(pre, post.drop_last(), addr, new_of)
}

/// When the rewritten value equals the byte that was read, the
/// read-modify-write trace holds exactly the one read exchange: the write
/// sub-transaction is skipped.
pub proof fn lemma_modify_skips_write_when_unchanged(
    pre: Seq<BusOp>,
    post: Seq<BusOp>,
    addr: u8,
    new_of: spec_fn(u8) -> u8,
)
    requires
        spec_modify_u8_trace(pre, post, addr, new_of),
        (post[pre.len() as int] matches BusOp::Exchange(sent, recv) ==> new_of(recv[1]) == recv[
            1
        ]),
    ensures
        post.len() == pre.len() + 1,
        forall|i: int| 0 <= i < pre.len() ==> post[i] == pre[i],
{
}

impl<SPI, MODE> Max11214<SPI, MODE> {
    /// The transport this handle owns.
    pub closed spec fn spec_transport(&self) -> SPI {
        self.spi
    }
}

impl<SPI: Transport, MODE> Max11214<SPI, MODE> {
    /// The transactions this handle's transport has carried, oldest first.
    pub open spec fn log(&self) -> Seq<BusOp> {
        self.spec_transport().requests()
    }
}

impl<SPI> Max11214<SPI, Standby> {
    /// Create a new ADC handle around the given transport. The chip powers
    /// up in standby mode.
    pub fn new(spi: SPI) -> (r: Max11214<SPI, Standby>)
        ensures
            r.spec_transport() == spi,
    {
        Max11214 { spi, mode: PhantomData }
    }

    /// Release the contained transport, destroying the handle.
    pub fn release(self) -> (r: SPI)
        ensures
            r == self.spec_transport(),
    {
        self.spi
    }
}

impl<SPI: Transport, MODE> Max11214<SPI, MODE> {
    /// Send the single command byte `cmd`.
    fn write_cmd(&mut self, cmd: Command) -> (r: Result<(), Error<SPI::Error>>)
        ensures
            r is Ok ==> final(self).log() == old(self).log().push(BusOp::Write(seq![cmd.0])),
    {
        let mut buf: Vec<u8> = Vec::new();
        buf.push(cmd.bits());
        proof {
            assert(buf@ =~= seq![cmd.0]);
        }
        match self.spi.write(buf.as_slice()) {
            Ok(()) => Ok(()),
            Err(e) => Err(Error::Spi(e)),
        }
    }

    /// Write the one-byte register `reg`.
    fn write_reg_u8<R: WriteReg<u8>>(&mut self, reg: R) -> (r: Result<(), Error<SPI::Error>>)
        ensures
            r is Ok ==> final(self).log() == old(self).log().push(
                BusOp::Write(seq![spec_register_write_command(R::spec_addr()), reg.spec_to_reg()]),
            ),
    {
        let mut buf: Vec<u8> = Vec::new();
        buf.push(Command::register_write(R::addr()).bits());
        buf.push(reg.to_reg());
        proof {
            assert(buf@ =~= seq![spec_register_write_command(R::spec_addr()), reg.spec_to_reg()]);
        }
        match self.spi.write(buf.as_slice()) {
            Ok(()) => Ok(()),
            Err(e) => Err(Error::Spi(e)),
        }
    }

    /// Read a one-byte register.
    fn read_reg_u8<R: ReadReg<u8>>(&mut self) -> (r: Result<R, Error<SPI::Error>>)
        ensures
            r matches Ok(reg) ==> (final(self).log().last() matches BusOp::Exchange(sent, recv)
                && final(self).log() == old(self).log().push(BusOp::Exchange(sent, recv)) && sent
                == seq![spec_register_read_command(R::spec_addr()), 0u8] && recv.len() == 2 && reg
                == R::spec_from_reg(recv[1])),
    {
        let mut buf: Vec<u8> = Vec::new();
        buf.push(Command::register_read(R::addr()).bits());
        buf.push(0);
        proof {
            assert(buf@ =~= seq![spec_register_read_command(R::spec_addr()), 0u8]);
        }
        match self.spi.exchange_in_place(&mut buf) {
            Ok(()) => Ok(R::from_reg(buf[1])),
            Err(e) => Err(Error::Spi(e)),
        }
    }

    /// Read a two-byte register, big-endian on the wire.
    fn read_reg_u16<R: ReadReg<u16>>(&mut self) -> (r: Result<R, Error<SPI::Error>>)
        ensures
            r matches Ok(reg) ==> (final(self).log().last() matches BusOp::Exchange(sent, recv)
                && final(self).log() == old(self).log().push(BusOp::Exchange(sent, recv)) && sent
                == seq![spec_register_read_command(R::spec_addr()), 0u8, 0u8] && recv.len() == 3
                && reg == R::spec_from_reg(spec_u16_from_be(recv[1], recv[2]))),
    {
        let mut buf: Vec<u8> = Vec::new();
        buf.push(Command::register_read(R::addr()).bits());
        buf.push(0);
        buf.push(0);
        proof {
            assert(buf@ =~= seq![spec_register_read_command(R::spec_addr()), 0u8, 0u8]);
        }
        match self.spi.exchange_in_place(&mut buf) {
            Ok(()) => {
                let value: u16 = ((buf[1] as u16) << 8) | (buf[2] as u16);
                Ok(R::from_reg(value))
            },
            Err(e) => Err(Error::Spi(e)),
        }
    }

    /// Read a three-byte register, big-endian on the wire.
    fn read_reg_u24<R: ReadReg<u24>>(&mut self) -> (r: Result<R, Error<SPI::Error>>)
        ensures
            r matches Ok(reg) ==> (final(self).log().last() matches BusOp::Exchange(sent, recv)
                && final(self).log() == old(self).log().push(BusOp::Exchange(sent, recv)) && sent
                == seq![spec_register_read_command(R::spec_addr()), 0u8, 0u8, 0u8] && recv.len()
                == 4 && reg == R::spec_from_reg(u24(recv[1], recv[2], recv[3]))),
    {
        let mut buf: Vec<u8> = Vec::new();
        buf.push(Command::register_read(R::addr()).bits());
        buf.push(0);
        buf.push(0);
        buf.push(0);
        proof {
            assert(buf@ =~= seq![spec_register_read_command(R::spec_addr()), 0u8, 0u8, 0u8]);
        }
        match self.spi.exchange_in_place(&mut buf) {
            Ok(()) => Ok(R::from_reg(u24::from_be_bytes([buf[1], buf[2], buf[3]]))),
            Err(e) => Err(Error::Spi(e)),
        }
    }

    /// Read a four-byte register, big-endian on the wire.
    #[allow(unused)]
    fn read_reg_u32<R: ReadReg<u32>>(&mut self) -> (r: Result<R, Error<SPI::Error>>)
        ensures
            r matches Ok(reg) ==> (final(self).log().last() matches BusOp::Exchange(sent, recv)
                && final(self).log() == old(self).log().push(BusOp::Exchange(sent, recv)) && sent
                == seq![spec_register_read_command(R::spec_addr()), 0u8, 0u8, 0u8, 0u8]
                && recv.len() == 5 && reg == R::spec_from_reg(types::spec_u32_from_be(recv[1],
            recv[2], recv[3], recv[4]))),
    {
        let mut buf: Vec<u8> = Vec::new();
        buf.push(Command::register_read(R::addr()).bits());
        buf.push(0);
        buf.push(0);
        buf.push(0);
        buf.push(0);
        proof {
            assert(buf@ =~= seq![spec_register_read_command(R::spec_addr()), 0u8, 0u8, 0u8, 0u8]);
        }
        match self.spi.exchange_in_place(&mut buf) {
            Ok(()) => {
                let value: u32 = ((buf[1] as u32) << 24) | ((buf[2] as u32) << 16) | ((buf[3]
                    as u32) << 8) | (buf[4] as u32);
                Ok(R::from_reg(value))
            },
            Err(e) => Err(Error::Spi(e)),
        }
    }

    /// Put the ADC into standby mode: set the CTRL1 power field to
    /// standby (skipping the write when it already is), then issue the
    /// power-down command.
    pub fn into_standby(self) -> (r: Result<Max11214<SPI, Standby>, Error<SPI::Error>>)
        ensures
            r matches Ok(dev) ==> spec_transition_trace(
                self.log(),
                dev.log(),
                ADDR_CTRL1,
                (|v: u8| spec_standby_ctrl1(v)),
                spec_power_down_command(),
            ),
    {
        let mut dev = Max11214::<SPI, Standby> { spi: self.spi, mode: PhantomData };
        let ghost pre = dev.log();
        let cur: Ctrl1 = match dev.read_reg_u8::<Ctrl1>() {
            Ok(c) => c,
            Err(e) => {
                return Err(e);
            },
        };
        let next = cur.standby_power();
        if next.0 != cur.0 {
            match dev.write_reg_u8::<Ctrl1>(next) {
                Ok(()) => (),
                Err(e) => {
                    return Err(e);
                },
            }
        }
        let ghost mid = dev.log();
        match dev.write_cmd(Command::power_down()) {
            Ok(()) => (),
            Err(e) => {
                return Err(e);
            },
        }
        proof {
            assert(dev.log().drop_last() =~= mid);
            assert(spec_modify_u8_trace(pre, mid, ADDR_CTRL1, (|v: u8| spec_standby_ctrl1(v))));
        }
        Ok(dev)
    }

    /// Put the ADC into sleep mode: set the CTRL1 power field to sleep
    /// (skipping the write when it already is), then issue the power-down
    /// command.
    pub fn into_sleep(self) -> (r: Result<Max11214<SPI, Sleep>, Error<SPI::Error>>)
        ensures
            r matches Ok(dev) ==> spec_transition_trace(
                self.log(),
                dev.log(),
                ADDR_CTRL1,
                (|v: u8| spec_sleep_ctrl1(v)),
                spec_power_down_command(),
            ),
    {
        let mut dev = Max11214::<SPI, Sleep> { spi: self.spi, mode: PhantomData };
        let ghost pre = dev.log();
        let cur: Ctrl1 = match dev.read_reg_u8::<Ctrl1>() {
            Ok(c) => c,
            Err(e) => {
                return Err(e);
            },
        };
        let next = cur.sleep_power();
        if next.0 != cur.0 {
            match dev.write_reg_u8::<Ctrl1>(next) {
                Ok(()) => (),
                Err(e) => {
                    return Err(e);
                },
            }
        }
        let ghost mid = dev.log();
        match dev.write_cmd(Command::power_down()) {
            Ok(()) => (),
            Err(e) => {
                return Err(e);
            },
        }
        proof {
            assert(dev.log().drop_last() =~= mid);
            assert(spec_modify_u8_trace(pre, mid, ADDR_CTRL1, (|v: u8| spec_sleep_ctrl1(v))));
        }
        Ok(dev)
    }

    /// Start converting: clear both CTRL1 power bits and set the
    /// single-cycle bit exactly when the conversion is not continuous
    /// (skipping the write when CTRL1 already agrees), then issue the
    /// conversion command carrying the requested rate.
    pub fn start_conversion(self, rate: ConversionRate, continuous: bool) -> (r: Result<
        Max11214<SPI, Conversion>,
        Error<SPI::Error>,
    >)
        ensures
            r matches Ok(dev) ==> spec_transition_trace(
                self.log(),
                dev.log(),
                ADDR_CTRL1,
                (|v: u8| spec_conversion_ctrl1(v, continuous)),
                spec_conversion_command(spec_rate_code(rate)),
            ),
    {
        let mut dev = Max11214::<SPI, Conversion> { spi: self.spi, mode: PhantomData };
        let ghost pre = dev.log();
        let cur: Ctrl1 = match dev.read_reg_u8::<Ctrl1>() {
            Ok(c) => c,
            Err(e) => {
                return Err(e);
            },
        };
        let next = cur.conversion_power(continuous);
        if next.0 != cur.0 {
            match dev.write_reg_u8::<Ctrl1>(next) {
                Ok(()) => (),
                Err(e) => {
                    return Err(e);
                },
            }
        }
        let ghost mid = dev.log();
        match dev.write_cmd(Command::conversion(rate)) {
            Ok(()) => (),
            Err(e) => {
                return Err(e);
            },
        }
        proof {
            assert(dev.log().drop_last() =~= mid);
            assert(spec_modify_u8_trace(
                pre,
                mid,
                ADDR_CTRL1,
                (|v: u8| spec_conversion_ctrl1(v, continuous)),
            ));
        }
        Ok(dev)
    }

    /// Read the status register and return its decoded snapshot.
    pub fn status(&mut self) -> (r: Result<Status, Error<SPI::Error>>)
        ensures
            r matches Ok(st) ==> (final(self).log().last() matches BusOp::Exchange(sent, recv)
                && final(self).log() == old(self).log().push(BusOp::Exchange(sent, recv)) && sent
                == seq![spec_register_read_command(ADDR_STAT), 0u8, 0u8] && recv.len() == 3
                && st.status == Stat::spec_from_reg(spec_u16_from_be(recv[1], recv[2]))),
    {
        let stat: Stat = match self.read_reg_u16::<Stat>() {
            Ok(s) => s,
            Err(e) => {
                return Err(e);
            },
        };
        Ok(Status { status: stat })
    }
}

/// The settle time, in nanoseconds, that must pass after a calibration is
/// triggered before its result registers are valid: 200 ms for
/// self-calibration, 100 ms for the system calibrations.
pub open spec fn spec_calibration_delay_ns(calibration: Calibration) -> u32 {
    match calibration {
        Calibration::SelfCalibration => 200_000_000,
        Calibration::SystemOffsetCalibration => 100_000_000,
        Calibration::SystemFullScaleCalibration => 100_000_000,
    }
}

impl<SPI: Transport, MODE: LowPowerMode> Max11214<SPI, MODE> {
    /// Set the system clock source by rewriting the external-clock bit of
    /// CTRL1, writing only when the bit changes.
    pub fn set_clock(&mut self, clock: ClockSource) -> (r: Result<(), Error<SPI::Error>>)
        ensures
            r is Ok ==> spec_modify_u8_trace(
                old(self).log(),
                final(self).log(),
                ADDR_CTRL1,
                (|v: u8| spec_clock_ctrl1(v, clock)),
            ),
    {
        let cur: Ctrl1 = match self.read_reg_u8::<Ctrl1>() {
            Ok(c) => c,
            Err(e) => {
                return Err(e);
            },
        };
        let next = cur.with_clock(clock);
        if next.0 != cur.0 {
            match self.write_reg_u8::<Ctrl1>(next) {
                Ok(()) => (),
                Err(e) => {
                    return Err(e);
                },
            }
        }
        Ok(())
    }

    /// Set the bipolar range format by rewriting the format bit of CTRL1,
    /// writing only when the bit changes.
    pub fn set_format(&mut self, format: Format) -> (r: Result<(), Error<SPI::Error>>)
        ensures
            r is Ok ==> spec_modify_u8_trace(
                old(self).log(),
                final(self).log(),
                ADDR_CTRL1,
                (|v: u8| spec_format_ctrl1(v, format)),
            ),
    {
        let cur: Ctrl1 = match self.read_reg_u8::<Ctrl1>() {
            Ok(c) => c,
            Err(e) => {
                return Err(e);
            },
        };
        let next = cur.with_format(format);
        if next.0 != cur.0 {
            match self.write_reg_u8::<Ctrl1>(next) {
                Ok(()) => (),
                Err(e) => {
                    return Err(e);
                },
            }
        }
        Ok(())
    }

    /// Set the PGA gain by rewriting the PGA enable bit and gain field of
    /// CTRL2, or clear the enable bit when no gain is requested; the write
    /// happens only when the register value changes.
    pub fn set_pga(&mut self, pga: Option<Pga>) -> (r: Result<(), Error<SPI::Error>>)
        ensures
            r is Ok ==> spec_modify_u8_trace(
                old(self).log(),
                final(self).log(),
                register::ADDR_CTRL2,
                (|v: u8| spec_pga_ctrl2(v, pga)),
            ),
    {
        let cur: Ctrl2 = match self.read_reg_u8::<Ctrl2>() {
            Ok(c) => c,
            Err(e) => {
                return Err(e);
            },
        };
        let next = cur.with_pga(pga);
        if next.0 != cur.0 {
            match self.write_reg_u8::<Ctrl2>(next) {
                Ok(()) => (),
                Err(e) => {
                    return Err(e);
                },
            }
        }
        Ok(())
    }

    /// Trigger a calibration: select its mode in the CTRL5 calibration
    /// field (writing only on change), then issue the calibrate command
    /// and block for the calibration's settle time in the same
    /// transaction. Only after the delay has elapsed are the
    /// calibration-result registers valid.
    pub fn self_calibrate(&mut self, calibration: Calibration) -> (r: Result<
        (),
        Error<SPI::Error>,
    >)
        ensures
            r is Ok ==> final(self).log().len() > 0,
            r is Ok ==> final(self).log().last() == BusOp::WriteDelay(
                seq![spec_calibrate_command()],
                spec_calibration_delay_ns(calibration),
            ),
            r is Ok ==> spec_modify_u8_trace(
                old(self).log(),
                final(self).log().drop_last(),
                ADDR_CTRL5,
                (|v: u8| spec_calibration_ctrl5(v, calibration)),
            ),
    {
        let cur: Ctrl5 = match self.read_reg_u8::<Ctrl5>() {
            Ok(c) => c,
            Err(e) => {
                return Err(e);
            },
        };
        let next = cur.with_calibration(calibration);
        if next.0 != cur.0 {
            match self.write_reg_u8::<Ctrl5>(next) {
                Ok(()) => (),
                Err(e) => {
                    return Err(e);
                },
            }
        }
        let ghost mid = self.log();
        let delay_ns: u32 = match calibration {
            Calibration::SelfCalibration => 200_000_000,
            Calibration::SystemOffsetCalibration => 100_000_000,
            Calibration::SystemFullScaleCalibration => 100_000_000,
        };
        let mut buf: Vec<u8> = Vec::new();
        buf.push(Command::calibrate().bits());
        proof {
            assert(buf@ =~= seq![spec_calibrate_command()]);
        }
        match self.spi.write_then_delay(buf.as_slice(), delay_ns) {
            Ok(()) => (),
            Err(e) => {
                return Err(Error::Spi(e));
            },
        }
        proof {
            assert(self.log().drop_last() =~= mid);
        }
        Ok(())
    }

    /// Read the system offset calibration value, widened to 32 bits.
    pub fn system_offset_calibration_value(&mut self) -> (r: Result<u32, Error<SPI::Error>>)
        ensures
            r matches Ok(value) ==> (final(self).log().last() matches BusOp::Exchange(sent, recv)
                && final(self).log() == old(self).log().push(BusOp::Exchange(sent, recv)) && sent
                == seq![spec_register_read_command(ADDR_SOC_ADC), 0u8, 0u8, 0u8] && recv.len()
                == 4 && value == u24(recv[1], recv[2], recv[3]).spec_value()),
    {
        let reg: SocAdc = match self.read_reg_u24::<SocAdc>() {
            Ok(v) => v,
            Err(e) => {
                return Err(e);
            },
        };
        Ok(u32::from(reg.0))
    }

    /// Read the system gain calibration value, widened to 32 bits.
    pub fn system_gain_calibration_value(&mut self) -> (r: Result<u32, Error<SPI::Error>>)
        ensures
            r matches Ok(value) ==> (final(self).log().last() matches BusOp::Exchange(sent, recv)
                && final(self).log() == old(self).log().push(BusOp::Exchange(sent, recv)) && sent
                == seq![spec_register_read_command(ADDR_SGC_ADC), 0u8, 0u8, 0u8] && recv.len()
                == 4 && value == u24(recv[1], recv[2], recv[3]).spec_value()),
    {
        let reg: SgcAdc = match self.read_reg_u24::<SgcAdc>() {
            Ok(v) => v,
            Err(e) => {
                return Err(e);
            },
        };
        Ok(u32::from(reg.0))
    }

    /// Read the self-calibration offset value, widened to 32 bits.
    pub fn self_calibration_offset_calibration_value(&mut self) -> (r: Result<
        u32,
        Error<SPI::Error>,
    >)
        ensures
            r matches Ok(value) ==> (final(self).log().last() matches BusOp::Exchange(sent, recv)
                && final(self).log() == old(self).log().push(BusOp::Exchange(sent, recv)) && sent
                == seq![spec_register_read_command(ADDR_SCOC_ADC), 0u8, 0u8, 0u8] && recv.len()
                == 4 && value == u24(recv[1], recv[2], recv[3]).spec_value()),
    {
        let reg: ScocAdc = match self.read_reg_u24::<ScocAdc>() {
            Ok(v) => v,
            Err(e) => {
                return Err(e);
            },
        };
        Ok(u32::from(reg.0))
    }

    /// Read the self-calibration gain value, widened to 32 bits.
    pub fn self_calibration_gain_calibration_value(&mut self) -> (r: Result<
        u32,
        Error<SPI::Error>,
    >)
        ensures
            r matches Ok(value) ==> (final(self).log().last() matches BusOp::Exchange(sent, recv)
                && final(self).log() == old(self).log().push(BusOp::Exchange(sent, recv)) && sent
                == seq![spec_register_read_command(ADDR_SCGC_ADC), 0u8, 0u8, 0u8] && recv.len()
                == 4 && value == u24(recv[1], recv[2], recv[3]).spec_value()),
    {
        let reg: ScgcAdc = match self.read_reg_u24::<ScgcAdc>() {
            Ok(v) => v,
            Err(e) => {
                return Err(e);
            },
        };
        Ok(u32::from(reg.0))
    }
}

impl<SPI: Transport> Max11214<SPI, Conversion> {
    /// Read the latest conversion result, widened to 32 bits unsigned.
    pub fn data(&mut self) -> (r: Result<u32, Error<SPI::Error>>)
        ensures
            r matches Ok(value) ==> (final(self).log().last() matches BusOp::Exchange(sent, recv)
                && final(self).log() == old(self).log().push(BusOp::Exchange(sent, recv)) && sent
                == seq![spec_register_read_command(ADDR_DATA), 0u8, 0u8, 0u8] && recv.len() == 4
                && value == u24(recv[1], recv[2], recv[3]).spec_value()),
    {
        let data: Data24 = match self.read_reg_u24::<Data24>() {
            Ok(d) => d,
            Err(e) => {
                return Err(e);
            },
        };
        Ok(u32::from(data.0))
    }
}

} // verus!
