//! What the bytes of a report mean, bit by bit and byte by byte.
//!
//! Positions count from the first stick byte, which a USB report holds at 1 and
//! a Bluetooth report at 3.

use crate::ds4_bt::{bt_output_bytes, bt_output_payload, crc32_of, sound, u32_le_at};
use crate::ds4_input::{
    calibration_in, dpad_down, dpad_left, dpad_right, dpad_up, finger_at, lemma_masks, pad_at,
    usb_output_bytes, OutputReport, PadState, Ratio, TouchFinger,
};
use vstd::prelude::*;

verus! {

/// Each button has a bit of its own: the face buttons in the upper half of the
/// byte after the sticks, above the d-pad value; the shoulders, clicks and menu
/// buttons in the next byte; PS and the touchpad click in the one after it.
pub proof fn law_each_button_has_its_bit(buf: Seq<u8>, base: int)
    ensures
        ({
            let p = pad_at(buf, base);
            let face = buf[base + 4];
            let shoulder = buf[base + 5];
            let system = buf[base + 6];
            &&& p.dpad == face & 0x0F
            &&& p.square <==> face & 0x10 != 0
            &&& p.cross <==> face & 0x20 != 0
            &&& p.circle <==> face & 0x40 != 0
            &&& p.triangle <==> face & 0x80 != 0
            &&& p.l1 <==> shoulder & 0x01 != 0
            &&& p.r1 <==> shoulder & 0x02 != 0
            &&& p.l2_digital <==> shoulder & 0x04 != 0
            &&& p.r2_digital <==> shoulder & 0x08 != 0
            &&& p.share <==> shoulder & 0x10 != 0
            &&& p.options <==> shoulder & 0x20 != 0
            &&& p.l3 <==> shoulder & 0x40 != 0
            &&& p.r3 <==> shoulder & 0x80 != 0
            &&& p.ps <==> system & 0x01 != 0
            &&& p.touchpad_click <==> system & 0x02 != 0
        }),
{
    lemma_masks(buf[base + 4]);
    lemma_masks(buf[base + 5]);
    lemma_masks(buf[base + 6]);
}

/// The buttons of a face byte make up that byte again: nothing in it is read
/// twice and nothing is left out.
pub proof fn law_face_byte_is_kept(buf: Seq<u8>, base: int)
    ensures
        ({
            let p = pad_at(buf, base);
            buf[base + 4] == p.dpad + (if p.square {
                16int
            } else {
                0
            }) + (if p.cross {
                32int
            } else {
                0
            }) + (if p.circle {
                64int
            } else {
                0
            }) + (if p.triangle {
                128int
            } else {
                0
            })
        }),
{
}

/// Sticks and triggers are whole bytes: left stick, right stick, three bytes of
/// buttons, then L2 and R2. The first byte of a stick is horizontal.
pub proof fn law_analog_values_are_bytes(buf: Seq<u8>, base: int)
    ensures
        ({
            let p = pad_at(buf, base);
            &&& seq![p.lx, p.ly, p.rx, p.ry] == seq![
                buf[base],
                buf[base + 1],
                buf[base + 2],
                buf[base + 3],
            ]
            &&& seq![p.l2_analog, p.r2_analog] == seq![buf[base + 7], buf[base + 8]]
        }),
{
}

/// Whether a signed number is what two bytes hold, low byte first: it agrees
/// with them up to whole turns of sixteen bits.
pub open spec fn held_at(buf: Seq<u8>, at: int, v: int) -> bool {
    &&& -0x8000 <= v < 0x8000
    &&& (v - buf[at] - 0x100 * buf[at + 1]) % 0x1_0000 == 0
}

/// Motion readings are signed and stored low byte first, the three gyro axes and
/// then the three accelerometer axes, from the twelfth byte on.
pub proof fn law_motion_readings(buf: Seq<u8>, base: int)
    ensures
        ({
            let p = pad_at(buf, base);
            &&& held_at(buf, base + 12, p.gyro_x as int)
            &&& held_at(buf, base + 14, p.gyro_y as int)
            &&& held_at(buf, base + 16, p.gyro_z as int)
            &&& held_at(buf, base + 18, p.accel_x as int)
            &&& held_at(buf, base + 20, p.accel_y as int)
            &&& held_at(buf, base + 22, p.accel_z as int)
        }),
{
}

/// Two bytes hold one number only.
pub proof fn law_held_number_is_one(buf: Seq<u8>, at: int, v: int, w: int)
    requires
        held_at(buf, at, v),
        held_at(buf, at, w),
    ensures
        v == w,
{
}

/// Whether four bytes pack a contact: twelve bits of X and twelve of Y side by
/// side, behind the contact id and a top bit that is set while nothing touches.
pub open spec fn packs(buf: Seq<u8>, at: int, f: TouchFinger) -> bool {
    &&& f.contact_id < 128 && f.x < 4096 && f.y < 4096
    &&& buf[at] == f.contact_id + (if f.touching {
        0int
    } else {
        128
    })
    &&& buf[at + 1] + 0x100 * buf[at + 2] + 0x1_0000 * buf[at + 3] == f.x + 0x1000 * f.y
}

/// A contact reads back as what was packed.
pub proof fn law_packed_contact_reads_back(buf: Seq<u8>, at: int, f: TouchFinger)
    requires
        packs(buf, at, f),
    ensures
        finger_at(buf, at) == f,
{
    let low = buf[at + 1] as int;
    let mid = buf[at + 2] as int;
    let high = buf[at + 3] as int;
    assert(f.x == low + 256 * (mid % 16)) by {
        assert((low + 256 * mid + 65536 * high) % 4096 == low + 256 * (mid % 16));
    }
    assert(f.y == mid / 16 + 16 * high);
}

/// Every contact that is read is packed in its bytes.
pub proof fn law_read_contact_is_packed(buf: Seq<u8>, at: int)
    ensures
        packs(buf, at, finger_at(buf, at)),
{
}

/// The contacts stand at 34 and 38. A report that ends before the second one
/// shows none.
pub proof fn law_contacts_have_their_place(buf: Seq<u8>, base: int)
    ensures
        ({
            let p = pad_at(buf, base);
            if buf.len() >= base + 42 {
                packs(buf, base + 34, p.finger1) && packs(buf, base + 38, p.finger2)
            } else {
                !p.finger1.touching && !p.finger2.touching
            }
        }),
{
}

/// The d-pad value is a compass that counts eighths of a turn clockwise: each
/// direction is leaned to within an eighth of its own point, a quarter turn takes
/// one direction to the next, and values beyond the compass lean nowhere.
pub proof fn law_dpad_is_a_compass(v: u8)
    ensures
        v < 8 ==> (dpad_up(v) <==> (v + 1) % 8 <= 2),
        v < 8 ==> dpad_up(v) == dpad_right(((v + 2) % 8) as u8),
        v < 8 ==> dpad_right(v) == dpad_down(((v + 2) % 8) as u8),
        v < 8 ==> dpad_down(v) == dpad_left(((v + 2) % 8) as u8),
        v < 8 ==> dpad_left(v) == dpad_up(((v + 2) % 8) as u8),
        v >= 8 ==> !dpad_up(v) && !dpad_down(v) && !dpad_left(v) && !dpad_right(v),
{
}

/// Whether a gyro factor turns the distance between two reference readings into
/// the sum of the two reference speeds. Readings that coincide count as one
/// apart.
pub open spec fn spans(scale: Ratio, speed_plus: int, speed_minus: int, plus: int, minus: int) -> bool {
    &&& scale.num == speed_plus + speed_minus
    &&& plus > minus ==> scale.den == plus - minus
    &&& plus < minus ==> scale.den == minus - plus
    &&& plus == minus ==> scale.den == 1
}

/// The gyro part of a calibration: the three rest readings, the three readings at
/// the upper and at the lower reference speed, and the two speeds, in this order.
pub proof fn law_gyro_calibration(
    buf: Seq<u8>,
    plus: (int, int, int),
    minus: (int, int, int),
    speed_plus: int,
    speed_minus: int,
)
    requires
        held_at(buf, 7, plus.0) && held_at(buf, 9, plus.1) && held_at(buf, 11, plus.2),
        held_at(buf, 13, minus.0) && held_at(buf, 15, minus.1) && held_at(buf, 17, minus.2),
        held_at(buf, 19, speed_plus) && held_at(buf, 21, speed_minus),
    ensures
        ({
            let c = calibration_in(buf);
            &&& held_at(buf, 1, c.pitch_bias as int)
            &&& held_at(buf, 3, c.yaw_bias as int)
            &&& held_at(buf, 5, c.roll_bias as int)
            &&& spans(c.pitch_scale, speed_plus, speed_minus, plus.0, minus.0)
            &&& spans(c.yaw_scale, speed_plus, speed_minus, plus.1, minus.1)
            &&& spans(c.roll_scale, speed_plus, speed_minus, plus.2, minus.2)
        }),
{
    law_held_number_is_one(buf, 7, plus.0, crate::ds4_input::i16_le_at(buf, 7));
    law_held_number_is_one(buf, 9, plus.1, crate::ds4_input::i16_le_at(buf, 9));
    law_held_number_is_one(buf, 11, plus.2, crate::ds4_input::i16_le_at(buf, 11));
    law_held_number_is_one(buf, 13, minus.0, crate::ds4_input::i16_le_at(buf, 13));
    law_held_number_is_one(buf, 15, minus.1, crate::ds4_input::i16_le_at(buf, 15));
    law_held_number_is_one(buf, 17, minus.2, crate::ds4_input::i16_le_at(buf, 17));
    law_held_number_is_one(buf, 19, speed_plus, crate::ds4_input::i16_le_at(buf, 19));
    law_held_number_is_one(buf, 21, speed_minus, crate::ds4_input::i16_le_at(buf, 21));
}

/// Whether an accelerometer axis is calibrated by its two references: at rest it
/// reads their middle, and their distance is four g. A distance that is not
/// positive counts as one.
pub open spec fn levels(bias: i32, scale: Ratio, plus: int, minus: int) -> bool {
    &&& scale.num == 4
    &&& plus > minus ==> scale.den == plus - minus
    &&& plus <= minus ==> scale.den == 1
    &&& plus + minus >= 0 ==> 0 <= plus + minus - 2 * bias <= 1
    &&& plus + minus < 0 ==> -1 <= plus + minus - 2 * bias <= 0
}

/// The accelerometer part of a calibration: for x, y and z in turn the upper and
/// the lower reference.
pub proof fn law_accel_calibration(
    buf: Seq<u8>,
    plus: (int, int, int),
    minus: (int, int, int),
)
    requires
        held_at(buf, 23, plus.0) && held_at(buf, 27, plus.1) && held_at(buf, 31, plus.2),
        held_at(buf, 25, minus.0) && held_at(buf, 29, minus.1) && held_at(buf, 33, minus.2),
    ensures
        ({
            let c = calibration_in(buf);
            &&& levels(c.accel_x_bias, c.accel_x_scale, plus.0, minus.0)
            &&& levels(c.accel_y_bias, c.accel_y_scale, plus.1, minus.1)
            &&& levels(c.accel_z_bias, c.accel_z_scale, plus.2, minus.2)
        }),
{
    law_held_number_is_one(buf, 23, plus.0, crate::ds4_input::i16_le_at(buf, 23));
    law_held_number_is_one(buf, 27, plus.1, crate::ds4_input::i16_le_at(buf, 27));
    law_held_number_is_one(buf, 31, plus.2, crate::ds4_input::i16_le_at(buf, 31));
    law_held_number_is_one(buf, 25, minus.0, crate::ds4_input::i16_le_at(buf, 25));
    law_held_number_is_one(buf, 29, minus.1, crate::ds4_input::i16_le_at(buf, 29));
    law_held_number_is_one(buf, 33, minus.2, crate::ds4_input::i16_le_at(buf, 33));
}

/// Whether a calibrated axis gives a raw reading back as it is.
pub open spec fn unchanged(raw: int, bias: i32, scale: Ratio) -> bool {
    scale.den > 0 && (raw - bias) * scale.num == raw * scale.den
}

/// A pad without a calibration is taken as it reads, on every axis.
pub proof fn law_neutral_calibration_changes_nothing(p: PadState)
    ensures
        ({
            let c = crate::ds4_input::GyroCalibration::neutral();
            &&& unchanged(p.gyro_x as int, c.pitch_bias, c.pitch_scale)
            &&& unchanged(p.gyro_y as int, c.yaw_bias, c.yaw_scale)
            &&& unchanged(p.gyro_z as int, c.roll_bias, c.roll_scale)
            &&& unchanged(p.accel_x as int, c.accel_x_bias, c.accel_x_scale)
            &&& unchanged(p.accel_y as int, c.accel_y_bias, c.accel_y_scale)
            &&& unchanged(p.accel_z as int, c.accel_z_bias, c.accel_z_scale)
        }),
{
}

/// A controller reads a USB output report as it was meant: the report id, one
/// flag for the motors and two for the lightbar, the weak and the strong motor,
/// the colour, the two blink times, and nothing else.
pub proof fn law_usb_output_is_read_as_meant(report: OutputReport)
    ensures
        ({
            let b = usb_output_bytes(report);
            &&& b.len() == 32
            &&& b[0] == 0x05
            &&& (b[1] & 0x01 != 0 <==> report.set_rumble)
            &&& (b[1] & 0x02 != 0 <==> report.set_led)
            &&& (b[1] & 0x04 != 0 <==> report.set_led)
            &&& b[1] < 8
            &&& (b[4], b[5]) == (report.rumble_weak, report.rumble_strong)
            &&& (b[6], b[7], b[8]) == (report.led_red, report.led_green, report.led_blue)
            &&& (b[9], b[10]) == (report.led_blink_on, report.led_blink_off)
            &&& forall|i: int| i == 2 || i == 3 || 11 <= i < 32 ==> #[trigger] b[i] == 0
        }),
{
    lemma_masks(usb_output_bytes(report)[1]);
}

/// A controller reads a Bluetooth output report as it was meant: behind its
/// header the flags, the motors and the colour stand in the order of the USB
/// report, two bytes further on, and the rest is blank.
pub proof fn law_bt_output_is_read_as_meant(report: OutputReport)
    ensures
        ({
            let b = bt_output_payload(report);
            let usb = usb_output_bytes(report);
            &&& b.len() == 74
            &&& (b[0], b[1], b[2]) == (0x11u8, 0xC4u8, 0u8)
            &&& (b[3] & 0x01 != 0 <==> report.set_rumble)
            &&& (b[3] & 0x02 != 0 <==> report.set_led)
            &&& b[3] < 4
            &&& forall|i: int| 4 <= i <= 8 ==> b[i + 2] == #[trigger] usb[i]
            &&& (b[6], b[7]) == (report.rumble_weak, report.rumble_strong)
            &&& (b[8], b[9], b[10]) == (report.led_red, report.led_green, report.led_blue)
            &&& forall|i: int| i == 4 || i == 5 || 11 <= i < 74 ==> #[trigger] b[i] == 0
        }),
{
    lemma_masks(bt_output_payload(report)[3]);
}

/// A Bluetooth output report ends in a number that, added to the CRC of all that
/// stands before it behind the header byte of output reports, has every bit set.
pub proof fn law_bt_output_ends_in_its_crc(report: OutputReport)
    ensures
        ({
            let b = bt_output_bytes(report);
            &&& b.len() == 78
            &&& b.take(74) == bt_output_payload(report)
            &&& u32_le_at(b, 74) + crc32_of(0xA2, b.take(74)) == 0xFFFF_FFFF
        }),
{
    let payload = bt_output_payload(report);
    let b = bt_output_bytes(report);
    assert(b.take(74) =~= payload);
    crate::ds4_bt::law_trailer_roundtrip(
        payload,
        (0xFFFF_FFFF - crc32_of(crate::ds4_bt::BT_OUTPUT_CRC_HEADER, payload)) as u32,
    );
}

/// A Bluetooth input report is sound exactly when its last four bytes, low byte
/// first, are the CRC of the others behind the header byte of input reports.
pub proof fn law_sound_report_ends_in_its_crc(report: Seq<u8>)
    requires
        report.len() >= 4,
    ensures
        ({
            let n = report.len() - 4;
            sound(report) <==> report[n] + 0x100 * (report[n + 1] + 0x100 * (report[n + 2] + 0x100
                * report[n + 3])) == crc32_of(0xA1, report.take(n))
        }),
{
}

/// Only a whole report with the id of full reports is looked at.
pub proof fn law_full_report_is_whole(buf: Seq<u8>, len: int)
    ensures
        crate::ds4_bt::full_report_read(buf, len) <==> len >= 78 && buf[0] == 0x11,
{
}

/// A report says what its own bytes say: two reports of the same length that
/// agree from the first stick byte on describe the same pad.
pub proof fn law_report_is_all_that_counts(a: Seq<u8>, b: Seq<u8>, base: int)
    requires
        0 <= base,
        base + 24 <= a.len(),
        a.len() == b.len(),
        forall|i: int| base <= i < a.len() ==> a[i] == #[trigger] b[i],
    ensures
        pad_at(a, base) == pad_at(b, base),
{
}

} // verus!
