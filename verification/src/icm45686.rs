pub mod config;

use crate::bytes::{i16_from_le, read_command, spec_i16_le};
use crate::icm45686::config::{
    AccelMode, AccelOdr, AccelRange, GyroMode, GyroOdr, GyroRange, OscSource, Slew, SpiSlew,
};
use vstd::prelude::*;
use vstd::slice::slice_to_vec;

verus! {

/// First accelerometer data register; the gyroscope and temperature data follow it.
pub const REG_ACCEL_DATA_X1: u8 = 0x00;

/// PWR_MGMT0 register.
pub const REG_PWR_MGMT0: u8 = 0x10;

/// INT1_CONFIG0 register, followed by INT1_CONFIG1 and INT1_CONFIG2.
pub const REG_INT1_CONFIG0: u8 = 0x16;

/// ACCEL_CONFIG0 register, followed by GYRO_CONFIG0.
pub const REG_ACCEL_CONFIG0: u8 = 0x1b;

/// RTC_CONFIG register.
pub const REG_RTC_CONFIG: u8 = 0x26;

/// IOC_PAD_SCENARIO_OVRD register.
pub const REG_IOC_PAD_SCENARIO_OVRD: u8 = 0x31;

/// DRIVE_CONFIG1 register.
pub const REG_DRIVE_CONFIG1: u8 = 0x32;

/// DRIVE_CONFIG2 register.
pub const REG_DRIVE_CONFIG2: u8 = 0x34;

/// Clock source request register.
pub const REG_OSC_SOURCE: u8 = 0x35;

/// WHO_AM_I register.
pub const REG_WHO_AM_I: u8 = 0x72;

/// Indirect register access: takes the address (low byte first) and, for a write, the data.
pub const REG_IREG_ADDR: u8 = 0x7c;

/// Indirect register access: data read back.
pub const REG_IREG_DATA: u8 = 0x7e;

/// Indirect register access status; bit 0 is the ready flag the driver waits for.
pub const REG_IREG_STATUS: u8 = 0x7f;

/// The WHO_AM_I value of an ICM-45686.
pub const WHO_AM_I_VALUE: u8 = 0xE9;

/// Indirect register that puts the accelerometer in the mode for an external clock.
pub const IREG_ACCEL_CLKIN: u16 = 0xa500 + 0x7b;

/// Indirect register that puts the gyroscope in the mode for an external clock.
pub const IREG_GYRO_CLKIN: u16 = 0xa400 + 0xa6;

/// Driver state of one ICM-45686 on SPI: the power modes last written, and
/// whether the switch to the external clock has been handed out.
///
/// Each method gives the bytes of one transaction, or decodes the bytes a
/// transaction read back; the bus stays with the caller.
pub struct Icm45686 {
    gyro_mode: GyroMode,
    accel_mode: AccelMode,
    external_clock: bool,
}

/// Accelerometer and gyroscope readings in sensor counts.
#[derive(Clone, Copy, Debug, PartialEq, Eq, Structural)]
pub struct SixAxisReport {
    pub x_accel: i16,
    pub y_accel: i16,
    pub z_accel: i16,
    pub x_gyro: i16,
    pub y_gyro: i16,
    pub z_gyro: i16,
}

/// Accelerometer and gyroscope readings in sensor counts with the raw
/// temperature; `temp / 128 + 25` is in degrees C.
#[derive(Clone, Copy, Debug, PartialEq, Eq, Structural)]
pub struct RawSixAxisTemperatureReport {
    pub x_accel: i16,
    pub y_accel: i16,
    pub z_accel: i16,
    pub x_gyro: i16,
    pub y_gyro: i16,
    pub z_gyro: i16,
    pub temp: i16,
}

/// One step of a configuration sequence.
#[derive(Debug, PartialEq, Eq)]
pub enum IcmStep {
    /// Write registers: the first address, then the values.
    RegisterWrite(Vec<u8>),
    /// Write an indirect register through `IregAccess`.
    IndirectWrite { addr: u16, data: u8 },
}

/// Whether output data rate `odr` is allowed in a power mode: the rates from
/// 6.25 Hz down need low-power mode, the rates from 800 Hz up need low-noise
/// mode, and the rates in between suit either.
pub open spec fn odr_suits(odr_bits: u8, low_power: bool, low_noise: bool) -> bool {
    if odr_bits >= 0b1101 {
        low_power
    } else if odr_bits <= 0b0110 {
        low_noise
    } else {
        true
    }
}

pub open spec fn accel_odr_suits(mode: AccelMode, odr: AccelOdr) -> bool {
    odr_suits(odr.spec_bits(), mode == AccelMode::LowPower, mode == AccelMode::LowNoise)
}

pub open spec fn gyro_odr_suits(mode: GyroMode, odr: GyroOdr) -> bool {
    odr_suits(odr.spec_bits(), mode == GyroMode::LowPower, mode == GyroMode::LowNoise)
}

/// The six readings as they lie in the bytes read after `report_request`:
/// byte 0 is clocked out while the address goes in, then each reading is a
/// little-endian pair.
pub open spec fn spec_six_axis(read_buf: Seq<u8>) -> (int, int, int, int, int, int) {
    (
        spec_i16_le(read_buf[1], read_buf[2]),
        spec_i16_le(read_buf[3], read_buf[4]),
        spec_i16_le(read_buf[5], read_buf[6]),
        spec_i16_le(read_buf[7], read_buf[8]),
        spec_i16_le(read_buf[9], read_buf[10]),
        spec_i16_le(read_buf[11], read_buf[12]),
    )
}

/// The steps of `Icm45686::set_osc_external`.
pub open spec fn osc_external_steps_ok(steps: Seq<IcmStep>) -> bool {
    &&& steps.len() == 6
    &&& steps[0] == IcmStep::IndirectWrite { addr: IREG_ACCEL_CLKIN, data: 2 }
    &&& steps[1] == IcmStep::IndirectWrite { addr: IREG_GYRO_CLKIN, data: 2 }
    &&& steps[2] matches IcmStep::RegisterWrite(f) && f@ == seq![REG_RTC_CONFIG, 0b0010_0000u8]
    &&& steps[3] matches IcmStep::RegisterWrite(f) && f@ == seq![REG_IOC_PAD_SCENARIO_OVRD, 0b0000_0100u8]
    &&& steps[4] matches IcmStep::RegisterWrite(f) && f@ == seq![REG_IOC_PAD_SCENARIO_OVRD, 0b0000_0110u8]
    &&& steps[5] matches IcmStep::RegisterWrite(f) && f@ == seq![REG_OSC_SOURCE, OscSource::Ext.spec_bits()]
}

/// The steps of `Icm45686::bring_up`: INT1 on data ready, medium slew on
/// the SPI pin and the other pins, both sensors in low-noise mode, the given
/// ranges at 6400 Hz, then the switch to the external clock.
pub open spec fn bring_up_steps_ok(steps: Seq<IcmStep>, accel_range: AccelRange, gyro_range: GyroRange) -> bool {
    &&& steps.len() == 11
    &&& steps[0] matches IcmStep::RegisterWrite(f) && f@ == seq![REG_INT1_CONFIG0, 0b0000_0100u8, 0u8, 0u8]
    &&& steps[1] matches IcmStep::RegisterWrite(f) && f@ == seq![REG_DRIVE_CONFIG1, (2 * SpiSlew::Medium.spec_bits()) as u8]
    &&& steps[2] matches IcmStep::RegisterWrite(f) && f@ == seq![REG_DRIVE_CONFIG2, Slew::Medium.spec_bits()]
    &&& steps[3] matches IcmStep::RegisterWrite(f) && f@ == seq![
        REG_PWR_MGMT0,
        (4 * GyroMode::LowNoise.spec_bits() + AccelMode::LowNoise.spec_bits()) as u8,
    ]
    &&& steps[4] matches IcmStep::RegisterWrite(f) && f@ == seq![
        REG_ACCEL_CONFIG0,
        (16 * accel_range.spec_bits() + AccelOdr::Odr6400.spec_bits()) as u8,
        (16 * gyro_range.spec_bits() + GyroOdr::Odr6400.spec_bits()) as u8,
    ]
    &&& osc_external_steps_ok(steps.subrange(5, 11))
}

/// The data-rate rule by rate, for the accelerometer: 6400, 3200, 1600 and
/// 800 Hz only in low-noise mode; 6.25, 3.125 and 1.5625 Hz only in
/// low-power mode; 400 Hz down to 12.5 Hz in any mode.
pub open spec fn accel_rate_fits(mode: AccelMode, odr: AccelOdr) -> bool {
    if odr == AccelOdr::Odr6400 || odr == AccelOdr::Odr3200 || odr == AccelOdr::Odr1600
        || odr == AccelOdr::Odr800 {
        mode == AccelMode::LowNoise
    } else if odr == AccelOdr::Odr6_25 || odr == AccelOdr::Odr3_125 || odr == AccelOdr::Odr1_5625 {
        mode == AccelMode::LowPower
    } else {
        true
    }
}

/// The data-rate rule by rate, for the gyroscope: 6400, 3200, 1600 and
/// 800 Hz only in low-noise mode; 6.25, 3.125 and 1.5625 Hz only in
/// low-power mode; 400 Hz down to 12.5 Hz in any mode.
pub open spec fn gyro_rate_fits(mode: GyroMode, odr: GyroOdr) -> bool {
    if odr == GyroOdr::Odr6400 || odr == GyroOdr::Odr3200 || odr == GyroOdr::Odr1600
        || odr == GyroOdr::Odr800 {
        mode == GyroMode::LowNoise
    } else if odr == GyroOdr::Odr6_25 || odr == GyroOdr::Odr3_125 || odr == GyroOdr::Odr1_5625 {
        mode == GyroMode::LowPower
    } else {
        true
    }
}

/// The rule on field values that `set_range_odr` requires is the rule by
/// rate: a rate of 6.25 Hz or lower is allowed only in low-power mode, a
/// rate of 800 Hz or higher only in low-noise mode, and the rates between in
/// every mode.
pub proof fn lemma_rate_rule(gyro_mode: GyroMode, accel_mode: AccelMode, gyro_odr: GyroOdr, accel_odr: AccelOdr)
    ensures
        gyro_odr_suits(gyro_mode, gyro_odr) == gyro_rate_fits(gyro_mode, gyro_odr),
        accel_odr_suits(accel_mode, accel_odr) == accel_rate_fits(accel_mode, accel_odr),
        gyro_odr.spec_bits() >= 0b1101 ==> (gyro_odr_suits(gyro_mode, gyro_odr) <==> gyro_mode == GyroMode::LowPower),
        gyro_odr.spec_bits() <= 0b0110 ==> (gyro_odr_suits(gyro_mode, gyro_odr) <==> gyro_mode == GyroMode::LowNoise),
        accel_odr.spec_bits() >= 0b1101 ==> (accel_odr_suits(accel_mode, accel_odr) <==> accel_mode == AccelMode::LowPower),
        accel_odr.spec_bits() <= 0b0110 ==> (accel_odr_suits(accel_mode, accel_odr) <==> accel_mode == AccelMode::LowNoise),
{
}

/// PWR_MGMT0 as `set_power_mode` writes it holds the gyroscope code in bits
/// 3:2 and the accelerometer code in bits 1:0: off 0, standby 1, low-power 2,
/// low-noise 3.
pub proof fn lemma_power_mode_fields(gyro: GyroMode, accel: AccelMode)
    ensures
        ((4 * gyro.spec_bits() + accel.spec_bits()) as u8) / 4 == match gyro {
            GyroMode::Off => 0u8,
            GyroMode::Standby => 1u8,
            GyroMode::LowPower => 2u8,
            GyroMode::LowNoise => 3u8,
        },
        ((4 * gyro.spec_bits() + accel.spec_bits()) as u8) % 4 == match accel {
            AccelMode::Off => 0u8,
            AccelMode::Standby => 1u8,
            AccelMode::LowPower => 2u8,
            AccelMode::LowNoise => 3u8,
        },
{
}

/// ACCEL_CONFIG0 and GYRO_CONFIG0 as `set_range_odr` writes them hold the
/// range code in the upper nibble and the rate code in the lower nibble.
pub proof fn lemma_range_odr_fields(
    accel_range: AccelRange,
    accel_odr: AccelOdr,
    gyro_range: GyroRange,
    gyro_odr: GyroOdr,
)
    ensures
        ((16 * accel_range.spec_bits() + accel_odr.spec_bits()) as u8) / 16 == accel_range.spec_bits(),
        ((16 * accel_range.spec_bits() + accel_odr.spec_bits()) as u8) % 16 == accel_odr.spec_bits(),
        ((16 * gyro_range.spec_bits() + gyro_odr.spec_bits()) as u8) / 16 == gyro_range.spec_bits(),
        ((16 * gyro_range.spec_bits() + gyro_odr.spec_bits()) as u8) % 16 == gyro_odr.spec_bits(),
{
}

/// DRIVE_CONFIG1 as `set_spi_slew` writes it holds the slew code in bits 3:1.
pub proof fn lemma_spi_slew_field(slew: SpiSlew)
    ensures
        ((2 * slew.spec_bits()) as u8) / 2 == slew.spec_bits(),
        ((2 * slew.spec_bits()) as u8) % 2 == 0,
{
}

impl View for Icm45686 {
    /// The gyroscope and accelerometer power modes last written, and whether
    /// the switch to the external clock has been handed out.
    type V = (GyroMode, AccelMode, bool);

    closed spec fn view(&self) -> (GyroMode, AccelMode, bool) {
        (self.gyro_mode, self.accel_mode, self.external_clock)
    }
}

impl Icm45686 {
    pub fn new() -> (r: Self)
        ensures
            r@ == (GyroMode::Off, AccelMode::Off, false),
    {
        Icm45686 { gyro_mode: GyroMode::Off, accel_mode: AccelMode::Off, external_clock: false }
    }

    /// The write that enables the INT1 interrupt on data ready, push-pull,
    /// pulsed, active low.
    pub fn init_int1(&self) -> (frame: [u8; 4])
        ensures
            frame@ == seq![REG_INT1_CONFIG0, 0b0000_0100u8, 0u8, 0u8],
    {
        [REG_INT1_CONFIG0, 0b0000_0100, 0, 0]
    }

    /// The byte to send to start a read of the data registers.
    pub fn report_request(&self) -> (frame: [u8; 1])
        ensures
            frame@ == seq![0x80u8],
    {
        [read_command(REG_ACCEL_DATA_X1)]
    }

    /// Decodes the accelerometer and gyroscope readings from the thirteen bytes of a report read.
    pub fn get_report(&self, read_buf: &[u8; 13]) -> (r: SixAxisReport)
        ensures
            (r.x_accel as int, r.y_accel as int, r.z_accel as int, r.x_gyro as int, r.y_gyro as int, r.z_gyro as int)
                == spec_six_axis(read_buf@),
    {
        SixAxisReport {
            x_accel: i16_from_le(read_buf[1], read_buf[2]),
            y_accel: i16_from_le(read_buf[3], read_buf[4]),
            z_accel: i16_from_le(read_buf[5], read_buf[6]),
            x_gyro: i16_from_le(read_buf[7], read_buf[8]),
            y_gyro: i16_from_le(read_buf[9], read_buf[10]),
            z_gyro: i16_from_le(read_buf[11], read_buf[12]),
        }
    }

    /// Decodes the readings and the raw temperature from the fifteen bytes of a report read.
    pub fn get_report_and_temperature(&self, read_buf: &[u8; 15]) -> (r: RawSixAxisTemperatureReport)
        ensures
            (r.x_accel as int, r.y_accel as int, r.z_accel as int, r.x_gyro as int, r.y_gyro as int, r.z_gyro as int)
                == spec_six_axis(read_buf@),
            r.temp == spec_i16_le(read_buf[13], read_buf[14]),
    {
        RawSixAxisTemperatureReport {
            x_accel: i16_from_le(read_buf[1], read_buf[2]),
            y_accel: i16_from_le(read_buf[3], read_buf[4]),
            z_accel: i16_from_le(read_buf[5], read_buf[6]),
            x_gyro: i16_from_le(read_buf[7], read_buf[8]),
            y_gyro: i16_from_le(read_buf[9], read_buf[10]),
            z_gyro: i16_from_le(read_buf[11], read_buf[12]),
            temp: i16_from_le(read_buf[13], read_buf[14]),
        }
    }

    /// Records the power modes and gives the write that selects them.
    pub fn set_power_mode(&mut self, gyro: GyroMode, accel: AccelMode) -> (frame: [u8; 2])
        ensures
            final(self)@ == (gyro, accel, old(self)@.2),
            frame@ == seq![REG_PWR_MGMT0, (4 * gyro.spec_bits() + accel.spec_bits()) as u8],
    {
        self.gyro_mode = gyro;
        self.accel_mode = accel;
        let g = gyro.bits();
        let a = accel.bits();
        let v: u8 = (g << 2) | a;
        assert(v == 4 * g + a) by (bit_vector)
            requires
                g < 4,
                a < 4,
                v == (g << 2) | a,
        ;
        [REG_PWR_MGMT0, v]
    }

    /// Whether both data rates suit the power modes last written.
    pub fn range_odr_allowed(&self, accel_odr: AccelOdr, gyro_odr: GyroOdr) -> (ok: bool)
        ensures
            ok == (accel_odr_suits(self@.1, accel_odr) && gyro_odr_suits(self@.0, gyro_odr)),
            ok == (accel_rate_fits(self@.1, accel_odr) && gyro_rate_fits(self@.0, gyro_odr)),
    {
        proof {
            lemma_rate_rule(self@.0, self@.1, gyro_odr, accel_odr);
        }
        let a = accel_odr.bits();
        let accel_ok = if a >= 0b1101 {
            self.accel_mode == AccelMode::LowPower
        } else if a <= 0b0110 {
            self.accel_mode == AccelMode::LowNoise
        } else {
            true
        };
        let g = gyro_odr.bits();
        let gyro_ok = if g >= 0b1101 {
            self.gyro_mode == GyroMode::LowPower
        } else if g <= 0b0110 {
            self.gyro_mode == GyroMode::LowNoise
        } else {
            true
        };
        accel_ok && gyro_ok
    }

    /// The write that sets both full-scale ranges and data rates. Each data
    /// rate must suit the power mode last written.
    pub fn set_range_odr(
        &self,
        accel_range: AccelRange,
        accel_odr: AccelOdr,
        gyro_range: GyroRange,
        gyro_odr: GyroOdr,
    ) -> (frame: [u8; 3])
        requires
            accel_odr_suits(self@.1, accel_odr),
            gyro_odr_suits(self@.0, gyro_odr),
        ensures
            frame@ == seq![
                REG_ACCEL_CONFIG0,
                (16 * accel_range.spec_bits() + accel_odr.spec_bits()) as u8,
                (16 * gyro_range.spec_bits() + gyro_odr.spec_bits()) as u8,
            ],
    {
        let ar = accel_range.bits();
        let ao = accel_odr.bits();
        let gr = gyro_range.bits();
        let go = gyro_odr.bits();
        let accel: u8 = (ar << 4) | ao;
        let gyro: u8 = (gr << 4) | go;
        assert(accel == 16 * ar + ao && gyro == 16 * gr + go) by (bit_vector)
            requires
                ar < 8,
                ao < 16,
                gr < 9,
                go < 16,
                accel == (ar << 4) | ao,
                gyro == (gr << 4) | go,
        ;
        [REG_ACCEL_CONFIG0, accel, gyro]
    }

    /// The write that requests a clock source.
    pub fn set_osc_source(&self, source: OscSource) -> (frame: [u8; 2])
        ensures
            frame@ == seq![REG_OSC_SOURCE, source.spec_bits()],
    {
        [REG_OSC_SOURCE, source.bits()]
    }

    /// The steps that switch the chip to an external clock on INT2, which
    /// should run at 32 kHz: both sensors into the external-clock mode,
    /// realignment on, INT2 enabled and then made the clock input, and the
    /// external source requested.
    pub fn set_osc_external(&mut self) -> (steps: Vec<IcmStep>)
        ensures
            final(self)@ == (old(self)@.0, old(self)@.1, true),
            osc_external_steps_ok(steps@),
    {
        self.external_clock = true;
        let mut steps: Vec<IcmStep> = Vec::new();
        // configure accel to be in the right mode for clkin
        steps.push(IcmStep::IndirectWrite { addr: IREG_ACCEL_CLKIN, data: 2 });
        // configure gyro to be in the right mode for clkin
        steps.push(IcmStep::IndirectWrite { addr: IREG_GYRO_CLKIN, data: 2 });
        // enable realign
        steps.push(IcmStep::RegisterWrite(slice_to_vec(&[REG_RTC_CONFIG, 0b0010_0000])));
        // enable int2 pin
        steps.push(IcmStep::RegisterWrite(slice_to_vec(&[REG_IOC_PAD_SCENARIO_OVRD, 0b0000_0100])));
        // set int2 as clkin
        steps.push(IcmStep::RegisterWrite(slice_to_vec(&[REG_IOC_PAD_SCENARIO_OVRD, 0b0000_0110])));
        // request external oscillator as source
        steps.push(IcmStep::RegisterWrite(slice_to_vec(&self.set_osc_source(OscSource::Ext))));
        steps
    }

    /// The configuration the board runs at start-up, one step per
    /// transaction: INT1 on data ready, medium slew rates, both sensors in
    /// low-noise mode at 6400 Hz with the given ranges, and the external clock.
    /// Each data rate suits the power mode written before it.
    pub fn bring_up(&mut self, accel_range: AccelRange, gyro_range: GyroRange) -> (steps: Vec<IcmStep>)
        ensures
            final(self)@ == (GyroMode::LowNoise, AccelMode::LowNoise, true),
            bring_up_steps_ok(steps@, accel_range, gyro_range),
    {
        let mut steps: Vec<IcmStep> = Vec::new();
        steps.push(IcmStep::RegisterWrite(slice_to_vec(&self.init_int1())));
        steps.push(IcmStep::RegisterWrite(slice_to_vec(&self.set_spi_slew(SpiSlew::Medium))));
        steps.push(IcmStep::RegisterWrite(slice_to_vec(&self.set_slew(Slew::Medium))));
        let power = self.set_power_mode(GyroMode::LowNoise, AccelMode::LowNoise);
        steps.push(IcmStep::RegisterWrite(slice_to_vec(&power)));
        let range_odr = self.set_range_odr(accel_range, AccelOdr::Odr6400, gyro_range, GyroOdr::Odr6400);
        steps.push(IcmStep::RegisterWrite(slice_to_vec(&range_odr)));
        let mut clock = self.set_osc_external();
        let ghost clock_steps = clock@;
        steps.append(&mut clock);
        assert(steps@.subrange(5, 11) =~= clock_steps);
        steps
    }

    /// The write that sets the slew rate of the SPI output pin.
    pub fn set_spi_slew(&self, slew: SpiSlew) -> (frame: [u8; 2])
        ensures
            frame@ == seq![REG_DRIVE_CONFIG1, (2 * slew.spec_bits()) as u8],
    {
        let s = slew.bits();
        let v: u8 = s << 1;
        assert(v == 2 * s) by (bit_vector)
            requires
                s < 7,
                v == s << 1u8,
        ;
        [REG_DRIVE_CONFIG1, v]
    }

    /// The write that sets the slew rate of the other output pins.
    pub fn set_slew(&self, slew: Slew) -> (frame: [u8; 2])
        ensures
            frame@ == seq![REG_DRIVE_CONFIG2, slew.spec_bits()],
    {
        [REG_DRIVE_CONFIG2, slew.bits()]
    }

    /// Whether the switch to the external clock has been handed out, which
    /// `realign` needs.
    pub fn external_clock(&self) -> (b: bool)
        ensures
            b == self@.2,
    {
        self.external_clock
    }

    /// The write that realigns the sampling to the external clock; it follows
    /// `set_osc_external`.
    pub fn realign(&self) -> (frame: [u8; 2])
        requires
            self@.2,
        ensures
            frame@ == seq![REG_RTC_CONFIG, 0b0110_0000u8],
    {
        [REG_RTC_CONFIG, 0b0110_0000]
    }

    /// The byte to send, with two bytes clocked back, to read WHO_AM_I.
    pub fn whoami_request(&self) -> (frame: [u8; 1])
        ensures
            frame@ == seq![0xF2u8],
    {
        [read_command(REG_WHO_AM_I)]
    }

    /// Whether the WHO_AM_I read gave the expected value.
    pub fn whoami(&self, read_buf: &[u8; 2]) -> (ok: bool)
        ensures
            ok == (read_buf[1] == WHO_AM_I_VALUE),
    {
        read_buf[1] == WHO_AM_I_VALUE
    }
}

/// An indirect register access.
#[derive(Clone, Copy, Debug, PartialEq, Eq, Structural)]
pub enum IregOp {
    Write { addr: u16, data: u8 },
    Read { addr: u16 },
}

/// Where an indirect register access stands.
#[derive(Clone, Copy, Debug, PartialEq, Eq, Structural)]
pub enum IregPhase {
    /// Polling the status register until it reports ready.
    WaitReady,
    /// The address frame (and, for a write, the data) has been handed out.
    AddressSent,
    /// Polling the status register until the read has completed.
    WaitReadDone,
    /// The data register read has been handed out.
    DataRequested,
    /// The access is over.
    Finished,
}

/// What the caller does next for an indirect register access.
#[derive(Debug, PartialEq, Eq)]
pub enum IregAction {
    /// Send this byte with two bytes clocked back, and pass byte 1 of the
    /// reply to `IregAccess::on_byte`.
    Transfer(u8),
    /// Write these bytes, then call `IregAccess::on_written`.
    Write(Vec<u8>),
    /// The access is over; a read carries the byte it read.
    Done(Option<u8>),
}

/// The decisions of an indirect register read or write, one bus transaction at a time.
pub struct IregAccess {
    pub op: IregOp,
    pub phase: IregPhase,
}

/// Whether a status byte reports ready (bit 0 set).
pub open spec fn ireg_ready(status: u8) -> bool {
    status % 2 == 1
}

/// The address frame of an access: the register, the address low byte and
/// high byte, and for a write the data byte.
pub open spec fn ireg_frame(op: IregOp) -> Seq<u8> {
    match op {
        IregOp::Write { addr, data } => seq![REG_IREG_ADDR, (addr % 256) as u8, (addr / 256) as u8, data],
        IregOp::Read { addr } => seq![REG_IREG_ADDR, (addr % 256) as u8, (addr / 256) as u8],
    }
}

impl IregAccess {
    /// Starts an access: its first step polls the status register.
    pub fn start(op: IregOp) -> (r: (IregAccess, IregAction))
        ensures
            r.0.op == op,
            r.0.phase == IregPhase::WaitReady,
            r.1 == IregAction::Transfer(0xFF),
    {
        (IregAccess { op, phase: IregPhase::WaitReady }, IregAction::Transfer(read_command(REG_IREG_STATUS)))
    }

    /// Takes byte 1 of the reply to the last transfer.
    ///
    /// While polling, a byte without the ready bit polls again; with it, a
    /// write or read access hands out its address frame, and a read whose
    /// data is ready asks for the data register. The reply to that request is
    /// the byte read.
    pub fn on_byte(&mut self, byte: u8) -> (action: IregAction)
        requires
            old(self).phase == IregPhase::WaitReady || old(self).phase == IregPhase::WaitReadDone
                || old(self).phase == IregPhase::DataRequested,
        ensures
            final(self).op == old(self).op,
            old(self).phase == IregPhase::DataRequested ==> {
                &&& final(self).phase == IregPhase::Finished
                &&& action == IregAction::Done(Some(byte))
            },
            old(self).phase != IregPhase::DataRequested && !ireg_ready(byte) ==> {
                &&& final(self).phase == old(self).phase
                &&& action == IregAction::Transfer(0xFF)
            },
            old(self).phase == IregPhase::WaitReady && ireg_ready(byte) ==> {
                &&& final(self).phase == IregPhase::AddressSent
                &&& action matches IregAction::Write(f) && f@ == ireg_frame(old(self).op)
            },
            old(self).phase == IregPhase::WaitReadDone && ireg_ready(byte) ==> {
                &&& final(self).phase == IregPhase::DataRequested
                &&& action == IregAction::Transfer(0xFE)
            },
    {
        if self.phase == IregPhase::DataRequested {
            self.phase = IregPhase::Finished;
            return IregAction::Done(Some(byte));
        }
        let bit: u8 = byte & 0b0000_0001;
        assert(bit == byte % 2) by (bit_vector)
            requires
                bit == byte & 1u8,
        ;
        if bit != 1 {
            return IregAction::Transfer(read_command(REG_IREG_STATUS));
        }
        if self.phase == IregPhase::WaitReady {
            self.phase = IregPhase::AddressSent;
            let mut frame: Vec<u8> = Vec::new();
            frame.push(REG_IREG_ADDR);
            match self.op {
                IregOp::Write { addr, data } => {
                    frame.push((addr % 256) as u8);
                    frame.push((addr / 256) as u8);
                    frame.push(data);
                },
                IregOp::Read { addr } => {
                    frame.push((addr % 256) as u8);
                    frame.push((addr / 256) as u8);
                },
            }
            assert(frame@ =~= ireg_frame(self.op));
            IregAction::Write(frame)
        } else {
            self.phase = IregPhase::DataRequested;
            IregAction::Transfer(read_command(REG_IREG_DATA))
        }
    }

    /// Reports that the address frame has been written: a write is then
    /// over, and a read polls the status register until the data is ready.
    pub fn on_written(&mut self) -> (action: IregAction)
        requires
            old(self).phase == IregPhase::AddressSent,
        ensures
            final(self).op == old(self).op,
            old(self).op is Write ==> {
                &&& final(self).phase == IregPhase::Finished
                &&& action == IregAction::Done(None)
            },
            old(self).op is Read ==> {
                &&& final(self).phase == IregPhase::WaitReadDone
                &&& action == IregAction::Transfer(0xFF)
            },
    {
        match self.op {
            IregOp::Write { .. } => {
                self.phase = IregPhase::Finished;
                IregAction::Done(None)
            },
            IregOp::Read { .. } => {
                self.phase = IregPhase::WaitReadDone;
                IregAction::Transfer(read_command(REG_IREG_STATUS))
            },
        }
    }
}

/// The address frame of an indirect access names its register, carries its
/// address low byte first, and for a write ends with the data byte.
pub proof fn lemma_ireg_frame(op: IregOp)
    ensures
        ireg_frame(op)[0] == REG_IREG_ADDR,
        match op {
            IregOp::Write { addr, data } => {
                &&& ireg_frame(op).len() == 4
                &&& ireg_frame(op)[1] + 256 * ireg_frame(op)[2] == addr
                &&& ireg_frame(op)[3] == data
            },
            IregOp::Read { addr } => {
                &&& ireg_frame(op).len() == 3
                &&& ireg_frame(op)[1] + 256 * ireg_frame(op)[2] == addr
            },
        },
{
}

} // verus!
