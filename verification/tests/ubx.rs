use sensor_drivers::neom9n::config::CfgStorage;
use sensor_drivers::neom9n::ubx::{checksum, ubx_cfg_valset};

fn reference_checksum(data: &[u8]) -> (u8, u8) {
    let mut a: u32 = 0;
    let mut b: u32 = 0;
    for &x in data {
        a = (a + x as u32) % 256;
        b = (b + a) % 256;
    }
    (a as u8, b as u8)
}

#[test]
fn checksum_of_empty_is_zero() {
    assert_eq!(checksum(&[]), (0, 0));
}

#[test]
fn checksum_small_values() {
    // a = 1 + 2 + 3, b = 1 + 3 + 6
    assert_eq!(checksum(&[1, 2, 3]), (6, 10));
}

#[test]
fn checksum_of_mon_ver_poll() {
    // UBX-MON-VER poll: class 0x0a, id 0x04, empty payload; checksum 0e 34
    assert_eq!(checksum(&[0x0a, 0x04, 0x00, 0x00]), (0x0e, 0x34));
}

#[test]
fn checksum_wraps_modulo_256() {
    assert_eq!(checksum(&[0xff, 0x02]), (0x01, 0x00));
    let data: Vec<u8> = (0..=255u8).collect();
    assert_eq!(checksum(&data), reference_checksum(&data));
}

#[test]
fn checksum_closed_form() {
    // first byte: sum of bytes mod 256; second: sum of running sums mod 256
    let data: Vec<u8> = (0..300u32).map(|i| ((i * 37 + 11) % 256) as u8).collect();
    let sum: u64 = data.iter().map(|&x| x as u64).sum();
    let mut running: u64 = 0;
    let mut total: u64 = 0;
    for &x in &data {
        running += x as u64;
        total += running;
    }
    assert_eq!(checksum(&data), ((sum % 256) as u8, (total % 256) as u8));
}

#[test]
fn valset_header_and_payload() {
    let payload = [0x40, 0x52, 0x00, 0x01, 0x00, 0x01, 0xC2, 0x00];
    let mut buf = [0u8; 16];
    ubx_cfg_valset(CfgStorage::Ram, &payload, &mut buf);
    assert_eq!(
        buf,
        [0xb5, 0x62, 0x06, 0x8a, 12, 0x00, 0x01, 0x00, 0x40, 0x52, 0x00, 0x01, 0x00, 0x01, 0xC2, 0x00]
    );
}

#[test]
fn valset_keeps_the_rest_of_the_buffer() {
    let payload = [1, 2, 3];
    let mut buf = [0xAAu8; 14];
    ubx_cfg_valset(CfgStorage::BbrFlash, &payload, &mut buf);
    assert_eq!(
        buf,
        [0xb5, 0x62, 0x06, 0x8a, 7, 0x00, 0b110, 0x00, 1, 2, 3, 0xAA, 0xAA, 0xAA]
    );
}

#[test]
fn valset_empty_payload_clears_byte_8() {
    let mut buf = [0xAAu8; 9];
    ubx_cfg_valset(CfgStorage::RamBbrFlash, &[], &mut buf);
    assert_eq!(buf, [0xb5, 0x62, 0x06, 0x8a, 4, 0x00, 0b111, 0x00, 0x00]);
}

#[test]
fn valset_length_byte_wraps() {
    let payload = vec![0x5Au8; 252];
    let mut buf = vec![0u8; 260];
    ubx_cfg_valset(CfgStorage::Flash, &payload, &mut buf);
    assert_eq!(buf[4], 0);
    assert_eq!(buf[6], 0b100);
    assert!(buf[8..260].iter().all(|&b| b == 0x5A));
}

#[test]
fn valset_layer_masks() {
    let cases = [
        (CfgStorage::Ram, 0b001u8),
        (CfgStorage::Bbr, 0b010),
        (CfgStorage::Flash, 0b100),
        (CfgStorage::RamBbr, 0b011),
        (CfgStorage::RamFlash, 0b101),
        (CfgStorage::RamBbrFlash, 0b111),
        (CfgStorage::BbrFlash, 0b110),
    ];
    for (layer, mask) in cases {
        let mut buf = [0u8; 9];
        ubx_cfg_valset(layer, &[], &mut buf);
        assert_eq!(buf[6], mask);
        assert_eq!(layer.bits(), mask);
    }
}

#[test]
fn checksum_of_concatenation_continues() {
    let a: Vec<u8> = (0..40u32).map(|i| (i * 29 + 3) as u8).collect();
    let b: Vec<u8> = (0..25u32).map(|i| (i * 71 + 200) as u8).collect();
    let mut ab = a.clone();
    ab.extend_from_slice(&b);
    let (ca, cb) = checksum(&a);
    let sum_b: u64 = b.iter().map(|&x| x as u64).sum();
    let mut running: u64 = 0;
    let mut total_b: u64 = 0;
    for &x in &b {
        running += x as u64;
        total_b += running;
    }
    let expected_a = ((ca as u64 + sum_b) % 256) as u8;
    let expected_b = ((cb as u64 + b.len() as u64 * ca as u64 + total_b) % 256) as u8;
    assert_eq!(checksum(&ab), (expected_a, expected_b));
}
