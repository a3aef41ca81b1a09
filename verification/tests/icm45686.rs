use sensor_drivers::icm45686::config::{
    AccelMode, AccelOdr, AccelRange, GyroMode, GyroOdr, GyroRange, OscSource, Slew, SpiSlew,
};
use sensor_drivers::icm45686::{
    IcmStep, Icm45686, IregAccess, IregAction, IregOp, IregPhase, SixAxisReport,
};

#[test]
fn fixed_frames() {
    let mut icm = Icm45686::new();
    assert_eq!(icm.init_int1(), [0x16, 0b0000_0100, 0, 0]);
    assert_eq!(icm.report_request(), [0x80]);
    assert!(!icm.external_clock());
    icm.set_osc_external();
    assert!(icm.external_clock());
    assert_eq!(icm.realign(), [0x26, 0b0110_0000]);
    assert_eq!(icm.whoami_request(), [0xF2]);
}

#[test]
fn report_decoding() {
    let icm = Icm45686::new();
    let buf = [0xAA, 0x01, 0x00, 0xFF, 0xFF, 0x00, 0x80, 0xFF, 0x7F, 0x34, 0x12, 0x00, 0x00];
    let r = icm.get_report(&buf);
    assert_eq!(
        r,
        SixAxisReport { x_accel: 1, y_accel: -1, z_accel: -32768, x_gyro: 32767, y_gyro: 0x1234, z_gyro: 0 }
    );
    let mut buf15 = [0u8; 15];
    buf15[..13].copy_from_slice(&buf);
    buf15[13] = 0x80;
    buf15[14] = 0xFC;
    let t = icm.get_report_and_temperature(&buf15);
    assert_eq!(t.x_accel, 1);
    assert_eq!(t.z_accel, -32768);
    assert_eq!(t.y_gyro, 0x1234);
    assert_eq!(t.temp, i16::from_le_bytes([0x80, 0xFC]));
    assert_eq!(t.temp, -896);
}

#[test]
fn report_of_zero_buffer() {
    let icm = Icm45686::new();
    let r = icm.get_report(&[0; 13]);
    assert_eq!(r, SixAxisReport { x_accel: 0, y_accel: 0, z_accel: 0, x_gyro: 0, y_gyro: 0, z_gyro: 0 });
}

#[test]
fn power_mode_frame() {
    let mut icm = Icm45686::new();
    assert_eq!(icm.set_power_mode(GyroMode::LowNoise, AccelMode::LowNoise), [0x10, 0b1111]);
    assert_eq!(icm.set_power_mode(GyroMode::Standby, AccelMode::LowPower), [0x10, 0b0110]);
    assert_eq!(icm.set_power_mode(GyroMode::Off, AccelMode::Off), [0x10, 0]);
}

#[test]
fn range_odr_frames() {
    let mut icm = Icm45686::new();
    icm.set_power_mode(GyroMode::LowNoise, AccelMode::LowNoise);
    assert!(icm.range_odr_allowed(AccelOdr::Odr6400, GyroOdr::Odr6400));
    assert_eq!(
        icm.set_range_odr(AccelRange::Range8, AccelOdr::Odr6400, GyroRange::Range1000, GyroOdr::Odr6400),
        [0x1b, 0b0010_0011, 0b0010_0011]
    );
    assert_eq!(
        icm.set_range_odr(AccelRange::Range32, AccelOdr::Odr6400, GyroRange::Range4000, GyroOdr::Odr6400),
        [0x1b, 0b0000_0011, 0b0000_0011]
    );
    assert_eq!(
        icm.set_range_odr(AccelRange::Range2, AccelOdr::Odr400, GyroRange::Range15_625, GyroOdr::Odr12_5),
        [0x1b, 0b0100_0111, 0b1000_1100]
    );
}

#[test]
fn odr_needs_a_suitable_power_mode() {
    let mut icm = Icm45686::new();
    // in the off state only the middle rates are allowed
    assert!(!icm.range_odr_allowed(AccelOdr::Odr800, GyroOdr::Odr400));
    assert!(!icm.range_odr_allowed(AccelOdr::Odr400, GyroOdr::Odr6_25));
    assert!(icm.range_odr_allowed(AccelOdr::Odr400, GyroOdr::Odr12_5));
    icm.set_power_mode(GyroMode::LowPower, AccelMode::LowNoise);
    assert!(icm.range_odr_allowed(AccelOdr::Odr800, GyroOdr::Odr1_5625));
    assert!(!icm.range_odr_allowed(AccelOdr::Odr6_25, GyroOdr::Odr1_5625));
    assert!(!icm.range_odr_allowed(AccelOdr::Odr800, GyroOdr::Odr3200));
}

#[test]
fn clock_and_slew_frames() {
    let icm = Icm45686::new();
    assert_eq!(icm.set_osc_source(OscSource::Ext), [0x35, 0b1000]);
    assert_eq!(icm.set_osc_source(OscSource::Mems), [0x35, 0b0010]);
    assert_eq!(icm.set_osc_source(OscSource::Auto), [0x35, 0]);
    assert_eq!(icm.set_spi_slew(SpiSlew::Medium), [0x32, 0b011 << 1]);
    assert_eq!(icm.set_spi_slew(SpiSlew::Maximum), [0x32, 0b110 << 1]);
    assert_eq!(icm.set_slew(Slew::Medium), [0x34, 0b011]);
    assert_eq!(icm.set_slew(Slew::Minimum), [0x34, 0]);
}

#[test]
fn osc_external_steps() {
    let steps = Icm45686::new().set_osc_external();
    assert_eq!(steps, osc_external_expected());
}

fn osc_external_expected() -> Vec<IcmStep> {
    vec![
        IcmStep::IndirectWrite { addr: 0xa57b, data: 2 },
        IcmStep::IndirectWrite { addr: 0xa4a6, data: 2 },
        IcmStep::RegisterWrite(vec![0x26, 0b0010_0000]),
        IcmStep::RegisterWrite(vec![0x31, 0b0000_0100]),
        IcmStep::RegisterWrite(vec![0x31, 0b0000_0110]),
        IcmStep::RegisterWrite(vec![0x35, 0b0000_1000]),
    ]
}

#[test]
fn bring_up_steps() {
    let mut icm = Icm45686::new();
    let steps = icm.bring_up(AccelRange::Range8, GyroRange::Range1000);
    let mut expected = vec![
        IcmStep::RegisterWrite(vec![0x16, 0b0000_0100, 0, 0]),
        IcmStep::RegisterWrite(vec![0x32, 0b011 << 1]),
        IcmStep::RegisterWrite(vec![0x34, 0b011]),
        IcmStep::RegisterWrite(vec![0x10, 0b1111]),
        IcmStep::RegisterWrite(vec![0x1b, 0b0010_0011, 0b0010_0011]),
    ];
    expected.extend(osc_external_expected());
    assert_eq!(steps, expected);
    assert!(icm.external_clock());
    assert!(icm.range_odr_allowed(AccelOdr::Odr6400, GyroOdr::Odr6400));
    assert_eq!(icm.realign(), [0x26, 0b0110_0000]);
}

#[test]
fn whoami_check() {
    let icm = Icm45686::new();
    assert!(icm.whoami(&[0x00, 0xE9]));
    assert!(!icm.whoami(&[0xE9, 0x00]));
    assert!(!icm.whoami(&[0x00, 0xE8]));
}

#[test]
fn indirect_write_waits_for_ready() {
    let (mut acc, first) = IregAccess::start(IregOp::Write { addr: 0xa57b, data: 2 });
    assert_eq!(first, IregAction::Transfer(0xFF));
    assert_eq!(acc.on_byte(0x00), IregAction::Transfer(0xFF));
    assert_eq!(acc.on_byte(0xFE), IregAction::Transfer(0xFF));
    assert_eq!(acc.phase, IregPhase::WaitReady);
    assert_eq!(acc.on_byte(0x01), IregAction::Write(vec![0x7c, 0x7b, 0xa5, 2]));
    assert_eq!(acc.phase, IregPhase::AddressSent);
    assert_eq!(acc.on_written(), IregAction::Done(None));
    assert_eq!(acc.phase, IregPhase::Finished);
}

#[test]
fn indirect_read_sequence() {
    let (mut acc, first) = IregAccess::start(IregOp::Read { addr: 0x1234 });
    assert_eq!(first, IregAction::Transfer(0xFF));
    assert_eq!(acc.on_byte(0x03), IregAction::Write(vec![0x7c, 0x34, 0x12]));
    assert_eq!(acc.on_written(), IregAction::Transfer(0xFF));
    assert_eq!(acc.phase, IregPhase::WaitReadDone);
    assert_eq!(acc.on_byte(0x02), IregAction::Transfer(0xFF));
    assert_eq!(acc.on_byte(0x01), IregAction::Transfer(0xFE));
    assert_eq!(acc.phase, IregPhase::DataRequested);
    assert_eq!(acc.on_byte(0x5A), IregAction::Done(Some(0x5A)));
    assert_eq!(acc.phase, IregPhase::Finished);
}

#[test]
fn enum_field_values() {
    assert_eq!(GyroOdr::Odr6400.bits(), 0b0011);
    assert_eq!(GyroOdr::Odr1_5625.bits(), 0b1111);
    assert_eq!(AccelOdr::Odr800.bits(), 0b0110);
    assert_eq!(AccelOdr::Odr6_25.bits(), 0b1101);
    assert_eq!(GyroRange::Range15_625.bits(), 0b1000);
    assert_eq!(AccelRange::Range2.bits(), 0b100);
    assert_eq!(GyroMode::LowNoise.bits(), 0b11);
    assert_eq!(AccelMode::Standby.bits(), 0b01);
}
