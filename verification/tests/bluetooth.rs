//! Bluetooth reports and their CRC.

use ds4l::ds4_bt::{
    accept_report, decode_bt_read, encode_output_report_bt, output_with_crc, parse_report_bt,
    trailer_matches, validate_crc, DS4_CALIBRATION_FEATURE_BT_ID, DS4_CALIBRATION_FEATURE_BT_SIZE,
    DS4_INPUT_REPORT_BT_ID, DS4_INPUT_REPORT_BT_SIZE,
};
use ds4l::ds4_input::{OutputReport, TouchFinger};

/// A full report, with a CRC that was worked out separately.
fn signed_report() -> [u8; 78] {
    let mut b = [0u8; 78];
    b[0] = 0x11;
    b[1] = 0xC0;
    let mut i: usize = 2;
    while i < 74 {
        b[i] = (i * 7 % 256) as u8;
        i += 1;
    }
    b[74] = 142;
    b[75] = 42;
    b[76] = 208;
    b[77] = 204;
    b
}

#[test]
fn report_constants() {
    assert_eq!(DS4_INPUT_REPORT_BT_ID, 0x11);
    assert_eq!(DS4_INPUT_REPORT_BT_SIZE, 78);
    assert_eq!(DS4_CALIBRATION_FEATURE_BT_ID, 0x02);
    assert_eq!(DS4_CALIBRATION_FEATURE_BT_SIZE, 37);
}

#[test]
fn crc_of_a_sound_report() {
    assert!(validate_crc(&signed_report()));
    // The CRC of the header byte alone, over an empty payload.
    assert!(validate_crc(&[0xF3, 0x7C, 0xD3, 0x73]));
}

#[test]
fn crc_of_a_damaged_report() {
    let good = signed_report();
    let mut i: usize = 0;
    while i < 78 {
        let mut bad = good;
        bad[i] ^= 0x10;
        assert!(!validate_crc(&bad));
        i += 1;
    }
    assert!(!validate_crc(&[1, 2, 3]));
    assert!(!validate_crc(&[]));
}

#[test]
fn trailer_is_little_endian() {
    assert!(trailer_matches(&[9, 0x78, 0x56, 0x34, 0x12], 0x1234_5678));
    assert!(!trailer_matches(&[9, 0x78, 0x56, 0x34, 0x12], 0x7856_3412));
    assert!(!trailer_matches(&[0, 0, 0], 0));
}

#[test]
fn bluetooth_fields() {
    let s = parse_report_bt(&signed_report());
    assert_eq!((s.lx, s.ly, s.rx, s.ry), (21, 28, 35, 42));
    assert_eq!(s.dpad, 1);
    assert!(s.square && s.cross && !s.circle && !s.triangle);
    assert!(s.r2_digital && s.share && s.options && !s.l1 && !s.r1 && !s.l3);
    assert!(s.ps && s.touchpad_click);
    assert_eq!((s.l2_analog, s.r2_analog), (70, 77));
    assert_eq!(s.gyro_x, i16::from_le_bytes([105, 112]));
    assert_eq!(s.accel_z, i16::from_le_bytes([175, 182]));
    assert_eq!(s.finger1, TouchFinger { touching: true, contact_id: 3, x: 0x10A, y: 0x181 });
    assert_eq!(s.finger2, TouchFinger { touching: true, contact_id: 31, x: 38 + 256 * 13, y: 2 + 16 * 52 });
}

#[test]
fn report_is_taken_only_with_its_crc() {
    let b = signed_report();
    assert_eq!(accept_report(&b, true), Some(parse_report_bt(&b)));
    assert_eq!(accept_report(&b, false), None);
}

#[test]
fn bluetooth_read() {
    let mut buf = [0xEEu8; 128];
    buf[..78].copy_from_slice(&signed_report());
    assert_eq!(decode_bt_read(&buf, 78), Some(parse_report_bt(&signed_report())));
    assert_eq!(decode_bt_read(&buf, 100), Some(parse_report_bt(&signed_report())));
    assert_eq!(decode_bt_read(&buf, 77), None);
    assert_eq!(decode_bt_read(&buf, 0), None);
    buf[5] ^= 1;
    assert_eq!(decode_bt_read(&buf, 78), None);
    let mut truncated = [0u8; 128];
    truncated[0] = 0x01;
    assert_eq!(decode_bt_read(&truncated, 78), None);
}

#[test]
fn bluetooth_output_bytes() {
    let r = OutputReport {
        rumble_weak: 10,
        rumble_strong: 20,
        led_red: 1,
        led_green: 2,
        led_blue: 3,
        led_blink_on: 99,
        led_blink_off: 98,
        set_rumble: true,
        set_led: true,
    };
    let b = encode_output_report_bt(&r);
    assert_eq!(&b[..12], &[0x11, 0xC4, 0, 3, 0, 0, 10, 20, 1, 2, 3, 0]);
    assert!(b[12..74].iter().all(|x| *x == 0));
    assert_eq!(&b[74..], &[141, 189, 163, 116]);
    let silent = encode_output_report_bt(&OutputReport::default());
    assert_eq!(&silent[74..], &[32, 168, 56, 172]);
    // Blink times do not travel.
    assert_eq!(encode_output_report_bt(&OutputReport { led_blink_on: 0, led_blink_off: 0, ..r }), b);
}

#[test]
fn output_crc_is_inverted() {
    let b = output_with_crc(&OutputReport::default(), 0x0000_00FF);
    assert_eq!(&b[74..], &[0x00, 0xFF, 0xFF, 0xFF]);
    let c = output_with_crc(&OutputReport { set_rumble: true, ..OutputReport::default() }, 0xFFFF_FFFF);
    assert_eq!((c[3], &c[74..]), (1, &[0u8, 0, 0, 0][..]));
}
