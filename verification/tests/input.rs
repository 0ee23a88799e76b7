//! USB input reports, calibration and output reports.

use ds4l::ds4_input::{
    bias_corrected_gyro, calibration_or_identity, decode_usb_read, encode_output_report, parse_calibration, parse_payload,
    parse_report, parse_touch_finger, read_i16_le, CalibrationError, GyroCalibration, OutputReport,
    PadState, Ratio, TouchFinger, CALIBRATION_REPORT_SIZE, DS4_V2_PID, SONY_VID,
    USB_INPUT_REPORT_MIN, USB_OUTPUT_REPORT_SIZE,
};

fn report() -> [u8; 64] {
    let mut b = [0u8; 64];
    b[0] = 0x01;
    b[1] = 10;
    b[2] = 20;
    b[3] = 30;
    b[4] = 40;
    b[5] = 0x23; // cross, d-pad south-east
    b[6] = 0x81; // R3, L1
    b[7] = 0x03; // PS, touchpad click
    b[8] = 200;
    b[9] = 5;
    b[13] = 0xFF;
    b[14] = 0xFF;
    b[15] = 0x00;
    b[16] = 0x80;
    b[17] = 0x34;
    b[18] = 0x12;
    b[19] = 1;
    b[21] = 2;
    b[23] = 3;
    b[35] = 0x05;
    b[36] = 0x34;
    b[37] = 0xA2;
    b[38] = 0x17;
    b[39] = 0x86;
    b[40] = 0xFF;
    b[41] = 0xFF;
    b[42] = 0xFF;
    b
}

#[test]
fn ids_of_the_controller() {
    assert_eq!(SONY_VID, 0x054C);
    assert_eq!(DS4_V2_PID, 0x09CC);
    assert_eq!(CALIBRATION_REPORT_SIZE, 37);
    assert_eq!(USB_INPUT_REPORT_MIN, 25);
    assert_eq!(USB_OUTPUT_REPORT_SIZE, 32);
}

#[test]
fn signed_numbers_are_little_endian() {
    assert_eq!(read_i16_le(&[0, 0x34, 0x12], 1), 0x1234);
    assert_eq!(read_i16_le(&[0xFF, 0xFF], 0), -1);
    assert_eq!(read_i16_le(&[0x00, 0x80], 0), -32768);
    assert_eq!(read_i16_le(&[0xFF, 0x7F], 0), 32767);
}

#[test]
fn touch_contact_fields() {
    let f = parse_touch_finger(&[0x05, 0x34, 0xA2, 0x17]);
    assert_eq!(f, TouchFinger { touching: true, contact_id: 5, x: 0x234, y: 0x17A });
    let g = parse_touch_finger(&[0x86, 0xFF, 0xFF, 0xFF]);
    assert_eq!(g, TouchFinger { touching: false, contact_id: 6, x: 4095, y: 4095 });
}

#[test]
fn whole_usb_report() {
    let s = parse_report(&report());
    assert_eq!((s.lx, s.ly, s.rx, s.ry), (10, 20, 30, 40));
    assert_eq!(s.dpad, 3);
    assert!(s.cross && !s.square && !s.circle && !s.triangle);
    assert!(s.l1 && s.r3 && !s.r1 && !s.l3 && !s.share && !s.options);
    assert!(!s.l2_digital && !s.r2_digital);
    assert!(s.ps && s.touchpad_click);
    assert_eq!((s.l2_analog, s.r2_analog), (200, 5));
    assert_eq!((s.gyro_x, s.gyro_y, s.gyro_z), (-1, -32768, 0x1234));
    assert_eq!((s.accel_x, s.accel_y, s.accel_z), (1, 2, 3));
    assert_eq!(s.finger1, TouchFinger { touching: true, contact_id: 5, x: 0x234, y: 0x17A });
    assert_eq!(s.finger2, TouchFinger { touching: false, contact_id: 6, x: 4095, y: 4095 });
    assert_eq!(parse_payload(&report(), 1), s);
}

#[test]
fn short_report_has_no_touch_data() {
    let full = report();
    let s = parse_report(&full[..42]);
    assert_eq!(s.finger1, TouchFinger::default());
    assert_eq!(s.finger2, TouchFinger::default());
    assert_eq!(s.accel_z, 3);
    let t = parse_report(&full[..43]);
    assert!(t.finger1.touching);
}

#[test]
fn usb_read_needs_its_id_and_length() {
    let b = report();
    assert_eq!(decode_usb_read(&b, 64), Some(parse_report(&b)));
    assert_eq!(decode_usb_read(&b, 25), Some(parse_report(&b)));
    assert_eq!(decode_usb_read(&b, 24), None);
    assert_eq!(decode_usb_read(&b, 0), None);
    let mut other = b;
    other[0] = 0x11;
    assert_eq!(decode_usb_read(&other, 64), None);
}

#[test]
fn transports_agree_on_the_fields() {
    let usb = report();
    let mut bt = [0u8; 66];
    let mut i: usize = 1;
    while i < 64 {
        bt[i + 2] = usb[i];
        i += 1;
    }
    assert_eq!(parse_payload(&bt, 3), parse_report(&usb));
}

#[test]
fn transports_agree_at_their_own_sizes() {
    let usb = report();
    let mut bt = [0u8; 78];
    let mut i: usize = 1;
    while i < 43 {
        bt[i + 2] = usb[i];
        i += 1;
    }
    assert_eq!(parse_payload(&bt, 3), parse_report(&usb));
}

#[test]
fn dpad_values() {
    let at = |dpad: u8| PadState { dpad, ..PadState::default() }.dpad_directions();
    assert_eq!(at(0), (true, false, false, false));
    assert_eq!(at(1), (true, false, false, true));
    assert_eq!(at(2), (false, false, false, true));
    assert_eq!(at(3), (false, true, false, true));
    assert_eq!(at(4), (false, true, false, false));
    assert_eq!(at(5), (false, true, true, false));
    assert_eq!(at(6), (false, false, true, false));
    assert_eq!(at(7), (true, false, true, false));
    assert_eq!(at(8), (false, false, false, false));
    assert_eq!(at(15), (false, false, false, false));
}

fn put(b: &mut [u8; 37], at: usize, v: i16) {
    let bytes = v.to_le_bytes();
    b[at] = bytes[0];
    b[at + 1] = bytes[1];
}

#[test]
fn calibration_values() {
    let mut b = [0u8; 37];
    b[0] = 2;
    put(&mut b, 1, -3);
    put(&mut b, 3, 4);
    put(&mut b, 5, 5);
    put(&mut b, 7, 8000);
    put(&mut b, 13, -8000);
    put(&mut b, 9, -100);
    put(&mut b, 15, 300);
    put(&mut b, 11, 7);
    put(&mut b, 17, 7);
    put(&mut b, 19, 540);
    put(&mut b, 21, 541);
    put(&mut b, 23, 8192);
    put(&mut b, 25, -8193);
    put(&mut b, 27, -10);
    put(&mut b, 29, 10);
    put(&mut b, 31, 5);
    put(&mut b, 33, -2);
    let c = parse_calibration(&b, 37).unwrap();
    assert_eq!((c.pitch_bias, c.yaw_bias, c.roll_bias), (-3, 4, 5));
    assert_eq!(c.pitch_scale, Ratio { num: 1081, den: 16000 });
    assert_eq!(c.yaw_scale, Ratio { num: 1081, den: 400 });
    assert_eq!(c.roll_scale, Ratio { num: 1081, den: 1 });
    assert_eq!((c.accel_x_bias, c.accel_y_bias, c.accel_z_bias), (0, 0, 1));
    assert_eq!(c.accel_x_scale, Ratio { num: 4, den: 16385 });
    // The accelerometer's span is signed: a reversed one counts as one.
    assert_eq!(c.accel_y_scale, Ratio { num: 4, den: 1 });
    assert_eq!(c.accel_z_scale, Ratio { num: 4, den: 7 });
}

#[test]
fn short_calibration_is_an_error() {
    let b = [0u8; 37];
    assert_eq!(parse_calibration(&b, 36), Err(CalibrationError::TooShort(36)));
    assert!(parse_calibration(&b, 37).is_ok());
}

#[test]
fn fallback_calibration_is_neutral() {
    let c = GyroCalibration::identity();
    let one = Ratio { num: 1, den: 1 };
    assert_eq!((c.pitch_bias, c.yaw_bias, c.roll_bias), (0, 0, 0));
    assert_eq!((c.pitch_scale, c.yaw_scale, c.roll_scale), (one, one, one));
    assert_eq!((c.accel_x_scale, c.accel_y_scale, c.accel_z_scale), (one, one, one));
}

#[test]
fn failed_calibration_read_falls_back_to_neutral() {
    let read = GyroCalibration { pitch_bias: 7, ..GyroCalibration::identity() };
    assert_eq!(calibration_or_identity(Ok(read)), read);
    assert_eq!(
        calibration_or_identity(Err("gone".to_string())),
        GyroCalibration::identity()
    );
}

#[test]
fn default_calibration_silences_every_axis() {
    let c = GyroCalibration::default();
    assert_eq!((c.pitch_bias, c.yaw_bias, c.roll_bias), (0, 0, 0));
    assert_eq!((c.pitch_scale.num, c.yaw_scale.num, c.roll_scale.num), (0, 0, 0));
    assert_eq!((c.accel_x_scale.num, c.accel_y_scale.num, c.accel_z_scale.num), (0, 0, 0));
    assert_eq!((c.pitch_scale.den, c.accel_z_scale.den), (1, 1));
}

#[test]
fn bias_is_taken_off() {
    let pad = PadState { gyro_x: 100, gyro_y: -50, gyro_z: 7, ..PadState::default() };
    let cal = GyroCalibration { pitch_bias: 10, yaw_bias: -50, roll_bias: 8, ..GyroCalibration::identity() };
    let t = bias_corrected_gyro(&pad, &cal);
    assert_eq!((t.pitch, t.yaw, t.roll), (90, 0, -1));
}

#[test]
fn usb_output_bytes() {
    let r = OutputReport {
        rumble_weak: 1,
        rumble_strong: 2,
        led_red: 3,
        led_green: 4,
        led_blue: 5,
        led_blink_on: 6,
        led_blink_off: 7,
        set_rumble: true,
        set_led: true,
    };
    let b = encode_output_report(&r);
    assert_eq!(&b[..12], &[0x05, 0x07, 0, 0, 1, 2, 3, 4, 5, 6, 7, 0]);
    assert!(b[12..].iter().all(|x| *x == 0));
    assert_eq!(encode_output_report(&OutputReport { set_led: false, ..r })[1], 0x01);
    assert_eq!(encode_output_report(&OutputReport { set_rumble: false, ..r })[1], 0x06);
    assert_eq!(encode_output_report(&OutputReport::default())[1], 0);
}
