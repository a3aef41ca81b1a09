use sensor_drivers::neom9n::config::DynamicModel;
use sensor_drivers::neom9n::{GpsStep, Neo, GPS_BAUDRATE};

#[test]
fn init_sequence() {
    let neo = Neo::new();
    let steps = neo.init();
    assert_eq!(steps.len(), 3);
    assert_eq!(
        steps[0],
        GpsStep::Send(vec![
            0xb5, 0x62, 0x06, 0x8a, 12, 0x00, 0x01, 0x00, 0x40, 0x52, 0x00, 0x01, 0x00, 0x01, 0xC2, 0x00
        ])
    );
    assert_eq!(steps[1], GpsStep::SetBaudrate(115200));
    assert_eq!(GPS_BAUDRATE, 115200);
    assert_eq!(
        steps[2],
        GpsStep::Send(vec![
            0xb5, 0x62, 0x06, 0x8a, 14, 0x00, 0x01, 0x00, 0x10, 0x74, 0x00, 0x01, 0x01, 0x10, 0x74,
            0x00, 0x02, 0x00, 0, 0, 0, 0, 0, 0
        ])
    );
}

#[test]
fn set_model_air4g() {
    let frame = Neo::new().set_model(DynamicModel::Air4g);
    assert_eq!(
        frame,
        [0xb5, 0x62, 0x06, 0x8a, 9, 0x00, 0x01, 0x00, 0x20, 0x11, 0x00, 0x21, 8, 0, 0, 0]
    );
}

#[test]
fn dynamic_model_values() {
    let cases = [
        (DynamicModel::Portable, 0u8),
        (DynamicModel::Stationary, 2),
        (DynamicModel::Pedestrian, 3),
        (DynamicModel::Automotive, 4),
        (DynamicModel::Sea, 5),
        (DynamicModel::Air1g, 6),
        (DynamicModel::Air2g, 7),
        (DynamicModel::Air4g, 8),
    ];
    for (model, v) in cases {
        assert_eq!(model.bits(), v);
        assert_eq!(Neo::new().set_model(model)[12], v);
    }
}

#[test]
fn set_verbosity_frame() {
    let frame = Neo::new().set_verbosity(0x1f);
    let mut expected = [0u8; 24];
    expected[..8].copy_from_slice(&[0xb5, 0x62, 0x06, 0x8a, 14, 0x00, 0x01, 0x00]);
    expected[9] = 0x1f;
    assert_eq!(frame, expected);
}

#[test]
fn set_rate_period_frame() {
    // high byte first, then one measurement per solution, UTC aligned
    let frame = Neo::new().set_rate_period(40);
    assert_eq!(
        frame,
        [0xb5, 0x62, 0x06, 0x8a, 9, 0x00, 0x01, 0x00, 0, 40, 0, 1, 0, 0, 0, 0]
    );
}

#[test]
fn init_baudrate_value_read_msb_first() {
    let steps = Neo::new().init();
    match &steps[0] {
        GpsStep::Send(frame) => {
            // payload starts at byte 8; the value follows the 4-byte key
            let v = u32::from_be_bytes([frame[12], frame[13], frame[14], frame[15]]);
            assert_eq!(v, GPS_BAUDRATE);
        }
        other => panic!("unexpected first step {:?}", other),
    }
}
