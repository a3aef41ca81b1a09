use sensor_drivers::bmp581::config::{
    CompensationConfig, OdrConfig, PowerConfig, PressIirConfig, PressOsrConfig, TempIirConfig,
    TempOsrConfig,
};
use sensor_drivers::bmp581::{Bmp581, RawBaroReport};

const PRESS_OSR: [PressOsrConfig; 8] = [
    PressOsrConfig::Osr1,
    PressOsrConfig::Osr2,
    PressOsrConfig::Osr4,
    PressOsrConfig::Osr8,
    PressOsrConfig::Osr16,
    PressOsrConfig::Osr32,
    PressOsrConfig::Osr64,
    PressOsrConfig::Osr128,
];
const TEMP_OSR: [TempOsrConfig; 8] = [
    TempOsrConfig::Osr1,
    TempOsrConfig::Osr2,
    TempOsrConfig::Osr4,
    TempOsrConfig::Osr8,
    TempOsrConfig::Osr16,
    TempOsrConfig::Osr32,
    TempOsrConfig::Osr64,
    TempOsrConfig::Osr128,
];

#[test]
fn request_bytes() {
    let b = Bmp581::new();
    assert_eq!(b.init(), [0x81]);
    assert_eq!(b.report_request(), [0x9D]);
    assert_eq!(b.odr_osr_request(), [0xB8]);
}

#[test]
fn baro_report_assembly() {
    let b = Bmp581::new();
    let buf = [0xEE, 0x11, 0x22, 0x33, 0x44, 0x55, 0x66];
    let r = b.get_report(&buf);
    assert_eq!(r, RawBaroReport { press: 0x4455_6600, temp: 0x1122_3300 });
    assert_eq!(r.press, u32::from_le_bytes([0, buf[6], buf[5], buf[4]]));
    assert_eq!(r.temp, u32::from_le_bytes([0, buf[3], buf[2], buf[1]]));
    let r = b.get_report(&[0; 7]);
    assert_eq!(r, RawBaroReport { press: 0, temp: 0 });
    let r = b.get_report(&[0xFF; 7]);
    assert_eq!(r, RawBaroReport { press: 0xFFFF_FF00, temp: 0xFFFF_FF00 });
}

#[test]
fn dsp_frames() {
    let b = Bmp581::new();
    assert_eq!(b.set_dsp(false, CompensationConfig::Both), [0x30, 0b11]);
    assert_eq!(b.set_dsp(true, CompensationConfig::Disabled), [0x30, 0b0101_0000]);
    assert_eq!(b.set_dsp(true, CompensationConfig::Press), [0x30, 0b0101_0010]);
    assert_eq!(b.set_dsp(false, CompensationConfig::Temp), [0x30, 0b01]);
}

#[test]
fn dsp_switches_both_filters() {
    let b = Bmp581::new();
    for c in [
        CompensationConfig::Disabled,
        CompensationConfig::Temp,
        CompensationConfig::Press,
        CompensationConfig::Both,
    ] {
        for iir in [false, true] {
            let v = b.set_dsp(iir, c)[1];
            assert_eq!(v & 0x10 != 0, iir);
            assert_eq!(v & 0x40 != 0, iir);
            assert_eq!(v & 0x03, c.bits());
        }
    }
}

#[test]
fn iir_frames() {
    let b = Bmp581::new();
    assert_eq!(b.set_iir(TempIirConfig::Bypass, PressIirConfig::Bypass), [0x31, 0]);
    assert_eq!(b.set_iir(TempIirConfig::Coeff127, PressIirConfig::Coeff1), [0x31, 0b001_111]);
    assert_eq!(b.set_iir(TempIirConfig::Coeff3, PressIirConfig::Coeff127), [0x31, 0b111_010]);
}

#[test]
fn oversample_frames() {
    let b = Bmp581::new();
    assert_eq!(b.set_oversample(PressOsrConfig::Osr4, TempOsrConfig::Osr1), [0x36, 0b0101_0000]);
    assert_eq!(b.set_oversample(PressOsrConfig::Osr128, TempOsrConfig::Osr128), [0x36, 0b0111_1111]);
    for p in PRESS_OSR {
        for t in TEMP_OSR {
            assert_eq!(b.set_oversample(p, t)[1] & 0x40, 0x40);
        }
    }
}

#[test]
fn power_odr_frames() {
    let b = Bmp581::new();
    assert_eq!(b.set_power_odr(PowerConfig::Normal, OdrConfig::Odr240), [0x37, 0b01]);
    assert_eq!(b.set_power_odr(PowerConfig::Continuous, OdrConfig::Odr0_125), [0x37, 0x1F << 2 | 0b11]);
    assert_eq!(b.set_power_odr(PowerConfig::Forced, OdrConfig::Odr10), [0x37, 0x17 << 2 | 0b10]);
}

#[test]
fn odr_osr_decode() {
    let b = Bmp581::new();
    let (valid, p, t) = b.check_odr_osr_valid(&[0, 0b1101_0011]);
    assert!(!valid);
    assert_eq!(p, PressOsrConfig::Osr4);
    assert_eq!(t, TempOsrConfig::Osr8);
    let (valid, p, t) = b.check_odr_osr_valid(&[0xFF, 0xFF]);
    assert!(!valid);
    assert_eq!(p, PressOsrConfig::Osr128);
    assert_eq!(t, TempOsrConfig::Osr128);
}

#[test]
fn odr_osr_flag_is_never_set() {
    let b = Bmp581::new();
    for byte in 0..=255u8 {
        assert!(!b.check_odr_osr_valid(&[0, byte]).0);
    }
}

#[test]
fn oversample_reads_back() {
    let b = Bmp581::new();
    for p in PRESS_OSR {
        for t in TEMP_OSR {
            let written = b.set_oversample(p, t)[1];
            let (_, ep, et) = b.check_odr_osr_valid(&[0, written]);
            assert_eq!((ep, et), (p, t));
        }
    }
}

#[test]
fn osr_bits_roundtrip() {
    for (i, p) in PRESS_OSR.iter().enumerate() {
        assert_eq!(p.bits(), i as u8);
        assert_eq!(PressOsrConfig::from_bits(i as u8), *p);
    }
    for (i, t) in TEMP_OSR.iter().enumerate() {
        assert_eq!(t.bits(), i as u8);
        assert_eq!(TempOsrConfig::from_bits(i as u8), *t);
    }
}
