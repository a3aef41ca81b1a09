pub mod config;

use crate::bmp581::config::{
    CompensationConfig, OdrConfig, PowerConfig, PressIirConfig, PressOsrConfig, TempIirConfig,
    TempOsrConfig,
};
use crate::bytes::{read_command, spec_u32_le, u32_from_le};
use vstd::prelude::*;

verus! {

/// CHIP_ID register.
pub const REG_CHIP_ID: u8 = 0x01;

/// First data register: temperature XLSB, followed by the rest of temperature and pressure.
pub const REG_TEMP_DATA_XLSB: u8 = 0x1D;

/// DSP_CONFIG register.
pub const REG_DSP_CONFIG: u8 = 0x30;

/// DSP_IIR register.
pub const REG_DSP_IIR: u8 = 0x31;

/// OSR_CONFIG register.
pub const REG_OSR_CONFIG: u8 = 0x36;

/// ODR_CONFIG register.
pub const REG_ODR_CONFIG: u8 = 0x37;

/// OSR_EFF register: the oversampling rates in effect.
pub const REG_OSR_EFF: u8 = 0x38;

/// Command set of the BMP581 barometer on SPI.
///
/// The driver keeps no state: each method gives the bytes of one transaction,
/// or decodes the bytes a transaction read back.
pub struct Bmp581 {}

/// One reading packed as the driver packs it: of each quantity's three data
/// bytes (XLSB, LSB, MSB in register order), the MSB goes to bits 15:8, the
/// LSB to bits 23:16 and the XLSB to bits 31:24, bits 7:0 being zero. The
/// driver scales `press / 128` as Pa and `temp / 131072` as degrees C; with
/// this packing those quotients are not the datasheet's Pa and degrees C,
/// which take the MSB as the highest byte.
#[derive(Clone, Copy, Debug, PartialEq, Eq, Structural)]
pub struct RawBaroReport {
    pub press: u32,
    pub temp: u32,
}

/// DSP_CONFIG value: the IIR flag for both temperature (bit 4) and pressure
/// (bit 6), and the compensation selection in bits 1:0.
pub open spec fn spec_dsp_value(use_iir: bool, compensation: CompensationConfig) -> int {
    (if use_iir { 0x50int } else { 0int }) + compensation.spec_bits()
}

/// DSP_IIR value: pressure coefficient in bits 5:3, temperature in bits 2:0.
pub open spec fn spec_iir_value(temp: TempIirConfig, press: PressIirConfig) -> int {
    8 * press.spec_bits() + temp.spec_bits()
}

/// OSR_CONFIG value: pressure enabled (bit 6), pressure rate in bits 5:3,
/// temperature rate in bits 2:0.
pub open spec fn spec_osr_value(press_osr: PressOsrConfig, temp_osr: TempOsrConfig) -> int {
    0x40 + 8 * press_osr.spec_bits() + temp_osr.spec_bits()
}

/// ODR_CONFIG value: data rate in bits 6:2, power mode in bits 1:0.
pub open spec fn spec_power_odr_value(power: PowerConfig, odr: OdrConfig) -> int {
    4 * odr.spec_bits() + power.spec_bits()
}

impl Bmp581 {
    pub fn new() -> (r: Self) {
        Bmp581 {}
    }

    /// The byte to send, with two bytes clocked back, at start-up: a read of
    /// CHIP_ID, which puts the chip in SPI mode.
    pub fn init(&self) -> (frame: [u8; 1])
        ensures
            frame@ == seq![0x81u8],
    {
        [read_command(REG_CHIP_ID)]
    }

    /// The byte to send, with seven bytes clocked back, to read one report.
    pub fn report_request(&self) -> (frame: [u8; 1])
        ensures
            frame@ == seq![0x9Du8],
    {
        [read_command(REG_TEMP_DATA_XLSB)]
    }

    /// Packs the report from the seven bytes read after `report_request`
    /// (byte 0 is clocked out with the address, bytes 1-3 are temperature
    /// XLSB, LSB, MSB and bytes 4-6 pressure XLSB, LSB, MSB): each quantity
    /// is the little-endian word `[0, MSB, LSB, XLSB]`, as the driver packs it.
    pub fn get_report(&self, read_buf: &[u8; 7]) -> (r: RawBaroReport)
        ensures
            r.press == spec_u32_le(0, read_buf[6], read_buf[5], read_buf[4]),
            r.temp == spec_u32_le(0, read_buf[3], read_buf[2], read_buf[1]),
    {
        RawBaroReport {
            press: u32_from_le(0, read_buf[6], read_buf[5], read_buf[4]),
            temp: u32_from_le(0, read_buf[3], read_buf[2], read_buf[1]),
        }
    }

    /// The write that sets the IIR filter on or off for both readings and selects compensation.
    pub fn set_dsp(&self, use_iir: bool, compensation: CompensationConfig) -> (frame: [u8; 2])
        ensures
            frame@ == seq![REG_DSP_CONFIG, spec_dsp_value(use_iir, compensation) as u8],
    {
        let iir: u8 = if use_iir { 1 } else { 0 };
        let c = compensation.bits();
        let v: u8 = (iir << 6) | (iir << 4) | c;
        assert(v == (if iir == 1 { 0x50u8 } else { 0u8 }) + c) by (bit_vector)
            requires
                iir == 0 || iir == 1,
                c < 4,
                v == (iir << 6) | (iir << 4) | c,
        ;
        [REG_DSP_CONFIG, v]
    }

    /// The write that sets the IIR coefficients.
    pub fn set_iir(&self, temp: TempIirConfig, press: PressIirConfig) -> (frame: [u8; 2])
        ensures
            frame@ == seq![REG_DSP_IIR, spec_iir_value(temp, press) as u8],
    {
        let p = press.bits();
        let t = temp.bits();
        let v: u8 = (p << 3) | t;
        assert(v == 8 * p + t) by (bit_vector)
            requires
                p < 8,
                t < 8,
                v == (p << 3) | t,
        ;
        [REG_DSP_IIR, v]
    }

    /// The write that sets the oversampling rates and enables pressure readings.
    pub fn set_oversample(&self, press_osr: PressOsrConfig, temp_osr: TempOsrConfig) -> (frame: [u8; 2])
        ensures
            frame@ == seq![REG_OSR_CONFIG, spec_osr_value(press_osr, temp_osr) as u8],
    {
        let p = press_osr.bits();
        let t = temp_osr.bits();
        let v: u8 = 0b0100_0000 | ((p << 3) | t);
        assert(v == 0x40 + 8 * p + t) by (bit_vector)
            requires
                p < 8,
                t < 8,
                v == 0x40u8 | ((p << 3) | t),
        ;
        [REG_OSR_CONFIG, v]
    }

    /// The write that sets the power mode and the output data rate.
    pub fn set_power_odr(&self, power: PowerConfig, odr: OdrConfig) -> (frame: [u8; 2])
        ensures
            frame@ == seq![REG_ODR_CONFIG, spec_power_odr_value(power, odr) as u8],
    {
        let o = odr.bits();
        let p = power.bits();
        let v: u8 = (o << 2) | p;
        assert(v == 4 * o + p) by (bit_vector)
            requires
                o < 32,
                p < 4,
                v == (o << 2) | p,
        ;
        [REG_ODR_CONFIG, v]
    }

    /// The byte to send, with two bytes clocked back, to read OSR_EFF.
    pub fn odr_osr_request(&self) -> (frame: [u8; 1])
        ensures
            frame@ == seq![0xB8u8],
    {
        [read_command(REG_OSR_EFF)]
    }

    /// Decodes the two bytes read after `odr_osr_request` into the validity
    /// flag and the oversampling rates in effect (bits 5:3 and 2:0 of byte 1).
    ///
    /// The flag is the masked bit 6 compared against 1; the masked value is 0
    /// or 64, so the flag is false for every input.
    pub fn check_odr_osr_valid(&self, read_buf: &[u8; 2]) -> (r: (bool, PressOsrConfig, TempOsrConfig))
        ensures
            !r.0,
            r.1 == PressOsrConfig::spec_from_bits(read_buf[1] / 8),
            r.2 == TempOsrConfig::spec_from_bits(read_buf[1]),
    {
        let b = read_buf[1];
        let press_field: u8 = (b & 0b0011_1000) >> 3;
        let temp_field: u8 = b & 0b0000_0111;
        let masked: u8 = b & 0b0100_0000;
        assert(press_field == (b / 8) % 8 && temp_field == b % 8 && (masked == 0 || masked == 64))
            by (bit_vector)
            requires
                press_field == (b & 0x38u8) >> 3u8,
                temp_field == b & 7u8,
                masked == b & 0x40u8,
        ;
        let effective_press_osr = PressOsrConfig::from_bits(press_field);
        let effective_temp_osr = TempOsrConfig::from_bits(temp_field);
        let odr_osr_valid = masked == 1;
        (odr_osr_valid, effective_press_osr, effective_temp_osr)
    }
}

/// Reading OSR_EFF back with the field layout of OSR_CONFIG gives the
/// oversampling rates that `set_oversample` wrote.
pub proof fn lemma_oversample_reads_back(press_osr: PressOsrConfig, temp_osr: TempOsrConfig)
    ensures
        PressOsrConfig::spec_from_bits((spec_osr_value(press_osr, temp_osr) as u8) / 8) == press_osr,
        TempOsrConfig::spec_from_bits(spec_osr_value(press_osr, temp_osr) as u8) == temp_osr,
{
}

/// `set_dsp` switches the IIR filter for temperature (bit 4) and pressure
/// (bit 6) together, and leaves the compensation selection in bits 1:0.
pub proof fn lemma_dsp_switches_both_filters(use_iir: bool, compensation: CompensationConfig)
    ensures
        ((spec_dsp_value(use_iir, compensation) as u8) & 0x10 != 0) == use_iir,
        ((spec_dsp_value(use_iir, compensation) as u8) & 0x40 != 0) == use_iir,
        (spec_dsp_value(use_iir, compensation) as u8) & 0x03 == compensation.spec_bits(),
{
    let v = spec_dsp_value(use_iir, compensation) as u8;
    let c = compensation.spec_bits();
    let i: u8 = if use_iir { 1 } else { 0 };
    assert(v == i * 0x50 + c);
    assert((v & 0x10 != 0) == (i == 1) && (v & 0x40 != 0) == (i == 1) && v & 0x03 == c) by (bit_vector)
        requires
            i < 2,
            c < 4,
            v == i * 0x50 + c,
    ;
}

/// Every `set_oversample` write keeps pressure readings enabled (bit 6).
pub proof fn lemma_oversample_enables_pressure(press_osr: PressOsrConfig, temp_osr: TempOsrConfig)
    ensures
        (spec_osr_value(press_osr, temp_osr) as u8) & 0x40 == 0x40,
{
    let v = spec_osr_value(press_osr, temp_osr) as u8;
    let p = press_osr.spec_bits();
    let t = temp_osr.spec_bits();
    assert(v == 0x40 + 8 * p + t);
    assert(v & 0x40 == 0x40) by (bit_vector)
        requires
            p < 8,
            t < 8,
            v == 0x40 + 8 * p + t,
    ;
}

/// DSP_IIR as `set_iir` writes it holds the pressure coefficient code in
/// bits 5:3 and the temperature coefficient code in bits 2:0.
pub proof fn lemma_iir_fields(temp: TempIirConfig, press: PressIirConfig)
    ensures
        (spec_iir_value(temp, press) as u8) / 8 == press.spec_bits(),
        (spec_iir_value(temp, press) as u8) % 8 == temp.spec_bits(),
{
}

/// ODR_CONFIG as `set_power_odr` writes it holds the data-rate code in bits
/// 6:2 and the power-mode code in bits 1:0, with bit 7 clear.
pub proof fn lemma_power_odr_fields(power: PowerConfig, odr: OdrConfig)
    ensures
        (spec_power_odr_value(power, odr) as u8) / 4 == odr.spec_bits(),
        (spec_power_odr_value(power, odr) as u8) % 4 == power.spec_bits(),
        (spec_power_odr_value(power, odr) as u8) < 128,
{
}

} // verus!
