use sensor_drivers::mmc5983::config::{MagAutoSetReset, MagBw, MagOdr};
use sensor_drivers::mmc5983::{Mmc5983, RawMagReport, RawMagReport16};

fn reference_xyz(b: &[u8]) -> (u32, u32, u32) {
    (
        (b[1] as u32) << 10 | (b[2] as u32) << 2 | (b[7] >> 6) as u32,
        (b[3] as u32) << 10 | (b[4] as u32) << 2 | ((b[7] >> 4) & 0b11) as u32,
        (b[5] as u32) << 10 | (b[6] as u32) << 2 | ((b[7] >> 2) & 0b11) as u32,
    )
}

#[test]
fn mag_report_assembly() {
    let m = Mmc5983::new();
    assert_eq!(m.report_request(), [0x80]);
    let buf = [0x00, 0x12, 0x34, 0x56, 0x78, 0x9A, 0xBC, 0b1001_1100];
    let r = m.get_report(&buf);
    let (x, y, z) = reference_xyz(&buf);
    assert_eq!(r, RawMagReport { x, y, z });
    // X: 0x12 is bits 17:10, 0x34 bits 9:2, bits 7:6 of byte 7 (0b10) bits 1:0
    assert_eq!(r.x, 0x12 * 1024 + 0x34 * 4 + 2);
    assert_eq!(r.y, 0x56 * 1024 + 0x78 * 4 + 1);
    assert_eq!(r.z, 0x9A * 1024 + 0xBC * 4 + 3);
}

#[test]
fn report_matches_reference_on_many_buffers() {
    let m = Mmc5983::new();
    for seed in 0..200u32 {
        let mut buf = [0u8; 9];
        for (i, v) in buf.iter_mut().enumerate() {
            *v = ((seed * 131 + i as u32 * 71 + seed * seed) % 256) as u8;
        }
        let mut eight = [0u8; 8];
        eight.copy_from_slice(&buf[..8]);
        let r = m.get_report(&eight);
        assert_eq!((r.x, r.y, r.z), reference_xyz(&buf));
        let rt = m.get_report_temperature(&buf);
        assert_eq!((rt.x, rt.y, rt.z), reference_xyz(&buf));
        assert_eq!(rt.temp, buf[8]);
    }
}

#[test]
fn report_16_assembly() {
    let m = Mmc5983::new();
    let r = m.get_report_16(&[0xFF, 0x01, 0x80, 0xFF, 0xFF, 0x00, 0x00]);
    assert_eq!(r, RawMagReport16 { x: 0x8001, y: 0xFFFF, z: 0 });
}

#[test]
fn control_frames() {
    let m = Mmc5983::new();
    assert_eq!(m.init(), [0x09, 0b0000_0100]);
    assert_eq!(m.set_odr_sr(MagOdr::Odr1000, MagAutoSetReset::Sr2000), [0x09, 0xFF]);
    assert_eq!(m.set_odr_sr(MagOdr::OdrOff, MagAutoSetReset::Sr1), [0x09, 0x88]);
    assert_eq!(m.set_odr_sr(MagOdr::Odr50, MagAutoSetReset::Sr75), [0x09, 0x88 | 0x20 | 0x04]);
    assert_eq!(m.set_bw(MagBw::Bw800), [0x0a, 0b11]);
    assert_eq!(m.set_bw(MagBw::Bw100), [0x0a, 0]);
    assert_eq!(m.soft_reset(), [0x0a, 0x80]);
}

#[test]
fn set_and_reset_keep_auto_sr() {
    let mut m = Mmc5983::new();
    assert_eq!(m.set(), [0x09, 0x08]);
    assert_eq!(m.reset(), [0x09, 0x10]);
    assert_eq!(m.auto_sr(true), [0x09, 0x20]);
    assert_eq!(m.set(), [0x09, 0x28]);
    assert_eq!(m.reset(), [0x09, 0x30]);
    assert_eq!(m.auto_sr(false), [0x09, 0x00]);
    assert_eq!(m.set(), [0x09, 0x08]);
    assert_eq!(m.reset(), [0x09, 0x10]);
}

#[test]
fn mag_readings_stay_within_18_bits() {
    let m = Mmc5983::new();
    let r = m.get_report(&[0xFF; 8]);
    assert_eq!(r, RawMagReport { x: 262143, y: 262143, z: 262143 });
    let r = m.get_report(&[0, 0x80, 0, 0x80, 0, 0x80, 0, 0]);
    // zero field sits at 2^17 counts
    assert_eq!(r, RawMagReport { x: 131072, y: 131072, z: 131072 });
    let rt = m.get_report_temperature(&[0, 0, 0, 0, 0, 0, 0, 0xC0, 7]);
    assert_eq!((rt.x, rt.y, rt.z, rt.temp), (3, 0, 0, 7));
    for byte7 in 0..=255u8 {
        let r = m.get_report(&[0xFF, 0xFF, 0xFF, 0xFF, 0xFF, 0xFF, 0xFF, byte7]);
        assert!(r.x < 1 << 18 && r.y < 1 << 18 && r.z < 1 << 18);
    }
}
