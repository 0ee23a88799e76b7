//! DS4 v2 input reports, output reports and gyro/accelerometer calibration.

use vstd::prelude::*;

verus! {

/// Sony's USB vendor id.
pub const SONY_VID: u16 = 0x054C;

/// Product id of the DualShock 4 v2, the same over USB and Bluetooth.
pub const DS4_V2_PID: u16 = 0x09CC;

/// Report id of the USB input report.
pub const USB_INPUT_REPORT_ID: u8 = 0x01;

/// Shortest USB read that holds every field up to the accelerometer.
pub const USB_INPUT_REPORT_MIN: usize = 25;

/// Size of feature report 0x02, which holds the factory calibration.
pub const CALIBRATION_REPORT_SIZE: usize = 37;

/// Size of the USB output report.
pub const USB_OUTPUT_REPORT_SIZE: usize = 32;

/// One touchpad contact. The surface is 1920 by 942 units; `x` and `y` mean
/// something only while `touching` holds.
#[derive(Debug, Clone, Copy, PartialEq, Eq, Structural)]
pub struct TouchFinger {
    pub touching: bool,
    pub contact_id: u8,
    pub x: u16,
    pub y: u16,
}

impl TouchFinger {
    /// The all-zero contact that a report without touch data leaves behind.
    pub open spec fn absent() -> TouchFinger {
        TouchFinger { touching: false, contact_id: 0, x: 0, y: 0 }
    }
}

impl Default for TouchFinger {
    fn default() -> (r: Self)
        ensures
            r == TouchFinger::absent(),
    {
        TouchFinger { touching: false, contact_id: 0, x: 0, y: 0 }
    }
}

/// Everything one input report says about the pad.
#[derive(Debug, Clone, Copy, PartialEq, Eq, Structural)]
pub struct PadState {
    pub lx: u8,
    pub ly: u8,
    pub rx: u8,
    pub ry: u8,
    pub dpad: u8,
    pub square: bool,
    pub triangle: bool,
    pub circle: bool,
    pub cross: bool,
    pub l1: bool,
    pub r1: bool,
    pub l2_digital: bool,
    pub r2_digital: bool,
    pub share: bool,
    pub options: bool,
    pub l3: bool,
    pub r3: bool,
    pub ps: bool,
    pub touchpad_click: bool,
    pub l2_analog: u8,
    pub r2_analog: u8,
    pub finger1: TouchFinger,
    pub finger2: TouchFinger,
    pub gyro_x: i16,
    pub gyro_y: i16,
    pub gyro_z: i16,
    pub accel_x: i16,
    pub accel_y: i16,
    pub accel_z: i16,
}

/// Whether the bit of the given weight (1, 2, 4, .. 128) is set in `b`.
pub open spec fn bit(b: u8, weight: int) -> bool {
    (b as int / weight) % 2 == 1
}

/// The signed 16-bit value stored low byte first at `at`.
pub open spec fn i16_le_at(buf: Seq<u8>, at: int) -> int {
    let raw = buf[at] as int + 256 * buf[at + 1] as int;
    if raw >= 0x8000 {
        raw - 0x10000
    } else {
        raw
    }
}

/// The contact packed in the four bytes at `at`: a flag that is clear while the
/// finger touches, a 7-bit contact id, then 12 bits of X and 12 bits of Y.
pub open spec fn finger_at(buf: Seq<u8>, at: int) -> TouchFinger {
    TouchFinger {
        touching: buf[at] < 0x80,
        contact_id: (buf[at] % 0x80) as u8,
        x: (buf[at + 1] as int + 256 * (buf[at + 2] as int % 16)) as u16,
        y: (buf[at + 2] as int / 16 + 16 * buf[at + 3] as int) as u16,
    }
}

/// The pad state in a report whose first stick byte stands at `base`. USB and
/// Bluetooth reports share this layout and differ only in `base`.
pub open spec fn pad_at(buf: Seq<u8>, base: int) -> PadState {
    let touch = buf.len() >= base + 42;
    PadState {
        lx: buf[base],
        ly: buf[base + 1],
        rx: buf[base + 2],
        ry: buf[base + 3],
        dpad: (buf[base + 4] % 16) as u8,
        square: bit(buf[base + 4], 16),
        cross: bit(buf[base + 4], 32),
        circle: bit(buf[base + 4], 64),
        triangle: bit(buf[base + 4], 128),
        l1: bit(buf[base + 5], 1),
        r1: bit(buf[base + 5], 2),
        l2_digital: bit(buf[base + 5], 4),
        r2_digital: bit(buf[base + 5], 8),
        share: bit(buf[base + 5], 16),
        options: bit(buf[base + 5], 32),
        l3: bit(buf[base + 5], 64),
        r3: bit(buf[base + 5], 128),
        ps: bit(buf[base + 6], 1),
        touchpad_click: bit(buf[base + 6], 2),
        l2_analog: buf[base + 7],
        r2_analog: buf[base + 8],
        gyro_x: i16_le_at(buf, base + 12) as i16,
        gyro_y: i16_le_at(buf, base + 14) as i16,
        gyro_z: i16_le_at(buf, base + 16) as i16,
        accel_x: i16_le_at(buf, base + 18) as i16,
        accel_y: i16_le_at(buf, base + 20) as i16,
        accel_z: i16_le_at(buf, base + 22) as i16,
        finger1: if touch {
            finger_at(buf, base + 34)
        } else {
            TouchFinger::absent()
        },
        finger2: if touch {
            finger_at(buf, base + 38)
        } else {
            TouchFinger::absent()
        },
    }
}

/// The masks of a byte, as numbers.
pub proof fn lemma_masks(b: u8)
    ensures
        (b & 0x0F) == b % 16,
        (b & 0x7F) == b % 128,
        (b & 0x80 == 0) <==> b < 0x80,
        (b & 0x01 != 0) <==> bit(b, 1),
        (b & 0x02 != 0) <==> bit(b, 2),
        (b & 0x04 != 0) <==> bit(b, 4),
        (b & 0x08 != 0) <==> bit(b, 8),
        (b & 0x10 != 0) <==> bit(b, 16),
        (b & 0x20 != 0) <==> bit(b, 32),
        (b & 0x40 != 0) <==> bit(b, 64),
        (b & 0x80 != 0) <==> bit(b, 128),
{
    assert((b & 0x0F) == b % 16 && (b & 0x7F) == b % 128 && ((b & 0x80 == 0) <==> b < 0x80) && ((b
        & 0x01 != 0) <==> (b / 1) % 2 == 1) && ((b & 0x02 != 0) <==> (b / 2) % 2 == 1) && ((b & 0x04
        != 0) <==> (b / 4) % 2 == 1) && ((b & 0x08 != 0) <==> (b / 8) % 2 == 1) && ((b & 0x10 != 0)
        <==> (b / 16) % 2 == 1) && ((b & 0x20 != 0) <==> (b / 32) % 2 == 1) && ((b & 0x40 != 0)
        <==> (b / 64) % 2 == 1) && ((b & 0x80 != 0) <==> (b / 128) % 2 == 1)) by (bit_vector);
}

/// A contact depends on its own four bytes alone.
proof fn lemma_finger_window(buf: Seq<u8>, at: int)
    requires
        0 <= at,
        at + 4 <= buf.len(),
    ensures
        finger_at(buf.subrange(at, at + 4), 0) == finger_at(buf, at),
{
}

/// Reads the little-endian `i16` at `offset`.
pub fn read_i16_le(buf: &[u8], offset: usize) -> (r: i16)
    requires
        offset + 1 < buf.len(),
    ensures
        r == i16_le_at(buf@, offset as int),
{
    let raw: i32 = buf[offset] as i32 + 256 * buf[offset + 1] as i32;
    if raw >= 0x8000 {
        (raw - 0x10000) as i16
    } else {
        raw as i16
    }
}

/// Parses one 4-byte touch block.
pub fn parse_touch_finger(b: &[u8]) -> (r: TouchFinger)
    requires
        b@.len() == 4,
    ensures
        r == finger_at(b@, 0),
{
    proof {
        lemma_masks(b[0]);
        lemma_masks(b[2]);
    }
    TouchFinger {
        touching: (b[0] & 0x80) == 0,
        contact_id: b[0] & 0x7F,
        x: b[1] as u16 + 256 * (b[2] & 0x0F) as u16,
        y: (b[2] / 16) as u16 + 16 * b[3] as u16,
    }
}

/// Parses both contacts of a report, or two absent ones where it is too short.
fn parse_touch(buf: &[u8], base: usize) -> (r: (TouchFinger, TouchFinger))
    requires
        base <= buf.len(),
    ensures
        r.0 == pad_at(buf@, base as int).finger1,
        r.1 == pad_at(buf@, base as int).finger2,
{
    if buf.len() - base >= 42 {
        proof {
            lemma_finger_window(buf@, base + 34);
            lemma_finger_window(buf@, base + 38);
        }
        let first = parse_touch_finger(vstd::slice::slice_subrange(buf, base + 34, base + 38));
        let second = parse_touch_finger(vstd::slice::slice_subrange(buf, base + 38, base + 42));
        (first, second)
    } else {
        (TouchFinger::default(), TouchFinger::default())
    }
}

/// Parses the fields shared by both transports, starting at the first stick byte.
pub fn parse_payload(buf: &[u8], base: usize) -> (s: PadState)
    requires
        base + 24 <= buf.len(),
    ensures
        s == pad_at(buf@, base as int),
{
    let buttons: u8 = buf[base + 4];
    let shoulder: u8 = buf[base + 5];
    let system: u8 = buf[base + 6];
    proof {
        lemma_masks(buttons);
        lemma_masks(shoulder);
        lemma_masks(system);
    }
    let touch = parse_touch(buf, base);
    PadState {
        lx: buf[base],
        ly: buf[base + 1],
        rx: buf[base + 2],
        ry: buf[base + 3],
        dpad: buttons & 0x0F,
        square: buttons & 0x10 != 0,
        cross: buttons & 0x20 != 0,
        circle: buttons & 0x40 != 0,
        triangle: buttons & 0x80 != 0,
        l1: shoulder & 0x01 != 0,
        r1: shoulder & 0x02 != 0,
        l2_digital: shoulder & 0x04 != 0,
        r2_digital: shoulder & 0x08 != 0,
        share: shoulder & 0x10 != 0,
        options: shoulder & 0x20 != 0,
        l3: shoulder & 0x40 != 0,
        r3: shoulder & 0x80 != 0,
        ps: system & 0x01 != 0,
        touchpad_click: system & 0x02 != 0,
        l2_analog: buf[base + 7],
        r2_analog: buf[base + 8],
        finger1: touch.0,
        finger2: touch.1,
        gyro_x: read_i16_le(buf, base + 12),
        gyro_y: read_i16_le(buf, base + 14),
        gyro_z: read_i16_le(buf, base + 16),
        accel_x: read_i16_le(buf, base + 18),
        accel_y: read_i16_le(buf, base + 20),
        accel_z: read_i16_le(buf, base + 22),
    }
}

/// Parses a USB input report. The caller has checked the report id. The touch
/// fields are filled only when the buffer reaches past both contacts.
pub fn parse_report(buf: &[u8]) -> (s: PadState)
    requires
        buf.len() >= USB_INPUT_REPORT_MIN,
    ensures
        s == pad_at(buf@, 1),
{
    parse_payload(buf, 1)
}

/// Decodes one USB read: `len` bytes arrived at the front of `buf`. A read that
/// is too short or carries another report id says nothing about the pad.
pub fn decode_usb_read(buf: &[u8], len: usize) -> (r: Option<PadState>)
    requires
        len <= buf.len(),
    ensures
        r == (if len >= USB_INPUT_REPORT_MIN && buf@[0] == USB_INPUT_REPORT_ID {
            Some(pad_at(buf@, 1))
        } else {
            None
        }),
{
    if len >= USB_INPUT_REPORT_MIN && buf[0] == USB_INPUT_REPORT_ID {
        Some(parse_report(buf))
    } else {
        None
    }
}

/// The two transports describe the pad alike: reports that hold the same bytes,
/// two places further on over Bluetooth, parse to the same state, provided that
/// both or neither reach past the contacts.
pub proof fn law_transports_agree(usb: Seq<u8>, bt: Seq<u8>)
    requires
        usb.len() >= USB_INPUT_REPORT_MIN,
        bt.len() >= USB_INPUT_REPORT_MIN + 2,
        usb.len() >= 43 <==> bt.len() >= 45,
        forall|i: int|
            1 <= i < 43 && i < usb.len() && i + 2 < bt.len() ==> bt[i + 2] == #[trigger] usb[i],
    ensures
        pad_at(bt, 3) == pad_at(usb, 1),
{
    assert forall|k: int|
        0 <= k < 42 && k + 1 < usb.len() && k + 3 < bt.len() implies #[trigger] bt[3 + k] == usb[1
        + k] by {
        assert(usb[1 + k] == bt[1 + k + 2]);
    }
}

/// Contact coordinates never leave the 12 bits that encode them.
pub proof fn law_contact_range(buf: Seq<u8>, base: int)
    ensures
        pad_at(buf, base).finger1.x < 4096,
        pad_at(buf, base).finger1.y < 4096,
        pad_at(buf, base).finger1.contact_id < 128,
        pad_at(buf, base).finger2.x < 4096,
        pad_at(buf, base).finger2.y < 4096,
        pad_at(buf, base).finger2.contact_id < 128,
        pad_at(buf, base).dpad < 16,
{
}

/// Whether a d-pad value (0 = north, then clockwise, 8 = released) leans up.
pub open spec fn dpad_up(dpad: u8) -> bool {
    dpad == 7 || dpad == 0 || dpad == 1
}

/// Whether a d-pad value leans down.
pub open spec fn dpad_down(dpad: u8) -> bool {
    3 <= dpad <= 5
}

/// Whether a d-pad value leans left.
pub open spec fn dpad_left(dpad: u8) -> bool {
    5 <= dpad <= 7
}

/// Whether a d-pad value leans right.
pub open spec fn dpad_right(dpad: u8) -> bool {
    1 <= dpad <= 3
}

impl PadState {
    /// The state in which nothing is pressed and every number is zero.
    pub open spec fn zero() -> PadState {
        PadState {
            lx: 0,
            ly: 0,
            rx: 0,
            ry: 0,
            dpad: 0,
            square: false,
            triangle: false,
            circle: false,
            cross: false,
            l1: false,
            r1: false,
            l2_digital: false,
            r2_digital: false,
            share: false,
            options: false,
            l3: false,
            r3: false,
            ps: false,
            touchpad_click: false,
            l2_analog: 0,
            r2_analog: 0,
            finger1: TouchFinger::absent(),
            finger2: TouchFinger::absent(),
            gyro_x: 0,
            gyro_y: 0,
            gyro_z: 0,
            accel_x: 0,
            accel_y: 0,
            accel_z: 0,
        }
    }

    /// Splits the 8-way d-pad value into (up, down, left, right). A diagonal
    /// is both of its neighbours; a released or unknown value is none.
    pub fn dpad_directions(&self) -> (r: (bool, bool, bool, bool))
        ensures
            r == (
                dpad_up(self.dpad),
                dpad_down(self.dpad),
                dpad_left(self.dpad),
                dpad_right(self.dpad),
            ),
    {
        match self.dpad {
            0 => (true, false, false, false),
            1 => (true, false, false, true),
            2 => (false, false, false, true),
            3 => (false, true, false, true),
            4 => (false, true, false, false),
            5 => (false, true, true, false),
            6 => (false, false, true, false),
            7 => (true, false, true, false),
            _ => (false, false, false, false),
        }
    }
}

impl Default for PadState {
    fn default() -> (r: Self)
        ensures
            r == PadState::zero(),
    {
        PadState {
            lx: 0,
            ly: 0,
            rx: 0,
            ry: 0,
            dpad: 0,
            square: false,
            triangle: false,
            circle: false,
            cross: false,
            l1: false,
            r1: false,
            l2_digital: false,
            r2_digital: false,
            share: false,
            options: false,
            l3: false,
            r3: false,
            ps: false,
            touchpad_click: false,
            l2_analog: 0,
            r2_analog: 0,
            finger1: TouchFinger::default(),
            finger2: TouchFinger::default(),
            gyro_x: 0,
            gyro_y: 0,
            gyro_z: 0,
            accel_x: 0,
            accel_y: 0,
            accel_z: 0,
        }
    }
}

/// No d-pad value leans both ways along one axis.
pub proof fn law_dpad_never_opposes(dpad: u8)
    ensures
        !(dpad_up(dpad) && dpad_down(dpad)),
        !(dpad_left(dpad) && dpad_right(dpad)),
{
}

/// A scale factor kept as the exact quotient `num / den`.
#[derive(Debug, Clone, Copy, PartialEq, Eq, Structural)]
pub struct Ratio {
    pub num: i32,
    pub den: i32,
}

/// Factory calibration: per axis the reading at rest and the factor from raw
/// ticks to degrees per second (gyro) or g (accelerometer).
#[derive(Debug, Clone, Copy, PartialEq, Eq, Structural)]
pub struct GyroCalibration {
    pub pitch_bias: i32,
    pub yaw_bias: i32,
    pub roll_bias: i32,
    pub pitch_scale: Ratio,
    pub yaw_scale: Ratio,
    pub roll_scale: Ratio,
    pub accel_x_bias: i32,
    pub accel_y_bias: i32,
    pub accel_z_bias: i32,
    pub accel_x_scale: Ratio,
    pub accel_y_scale: Ratio,
    pub accel_z_scale: Ratio,
}

/// Why a calibration report could not be used.
#[derive(Debug, Clone, Copy, PartialEq, Eq, Structural)]
pub enum CalibrationError {
    /// The device returned this many bytes instead of a whole report.
    TooShort(usize),
}

/// Half of `n`, rounded towards zero.
pub open spec fn half_towards_zero(n: int) -> int {
    if n >= 0 {
        n / 2
    } else {
        -((-n) / 2)
    }
}

/// The larger of `n` and one.
pub open spec fn at_least_one(n: int) -> int {
    if n >= 1 {
        n
    } else {
        1
    }
}

/// The distance between two readings.
pub open spec fn distance(a: int, b: int) -> int {
    if a >= b {
        a - b
    } else {
        b - a
    }
}

/// Gyro factor for one axis: the summed reference speeds over the distance
/// between the axis' two reference readings, which stand at `plus` and `minus`.
pub open spec fn gyro_scale(buf: Seq<u8>, plus: int, minus: int) -> Ratio {
    Ratio {
        num: (i16_le_at(buf, 19) + i16_le_at(buf, 21)) as i32,
        den: at_least_one(distance(i16_le_at(buf, plus), i16_le_at(buf, minus))) as i32,
    }
}

/// Accelerometer factor for one axis: 4 g over the signed reference span.
pub open spec fn accel_scale(buf: Seq<u8>, plus: int, minus: int) -> Ratio {
    Ratio {
        num: 4,
        den: at_least_one(i16_le_at(buf, plus) - i16_le_at(buf, minus)) as i32,
    }
}

/// Accelerometer rest reading for one axis: the middle of its references.
pub open spec fn accel_bias(buf: Seq<u8>, plus: int, minus: int) -> int {
    half_towards_zero(i16_le_at(buf, plus) + i16_le_at(buf, minus))
}

/// The calibration that a feature report holds.
pub open spec fn calibration_in(buf: Seq<u8>) -> GyroCalibration {
    GyroCalibration {
        pitch_bias: i16_le_at(buf, 1) as i32,
        yaw_bias: i16_le_at(buf, 3) as i32,
        roll_bias: i16_le_at(buf, 5) as i32,
        pitch_scale: gyro_scale(buf, 7, 13),
        yaw_scale: gyro_scale(buf, 9, 15),
        roll_scale: gyro_scale(buf, 11, 17),
        accel_x_bias: accel_bias(buf, 23, 25) as i32,
        accel_y_bias: accel_bias(buf, 27, 29) as i32,
        accel_z_bias: accel_bias(buf, 31, 33) as i32,
        accel_x_scale: accel_scale(buf, 23, 25),
        accel_y_scale: accel_scale(buf, 27, 29),
        accel_z_scale: accel_scale(buf, 31, 33),
    }
}

fn gyro_ratio(speed_sum: i32, plus: i16, minus: i16) -> (r: Ratio)
    ensures
        r.num == speed_sum,
        r.den == at_least_one(distance(plus as int, minus as int)),
{
    let span: i32 = if plus >= minus {
        plus as i32 - minus as i32
    } else {
        minus as i32 - plus as i32
    };
    Ratio {
        num: speed_sum,
        den: if span >= 1 {
            span
        } else {
            1
        },
    }
}

fn accel_ratio(plus: i16, minus: i16) -> (r: Ratio)
    ensures
        r.num == 4,
        r.den == at_least_one(plus - minus),
{
    let span: i32 = plus as i32 - minus as i32;
    Ratio {
        num: 4,
        den: if span >= 1 {
            span
        } else {
            1
        },
    }
}

fn accel_middle(plus: i16, minus: i16) -> (r: i32)
    ensures
        r == half_towards_zero(plus + minus),
{
    let sum: i32 = plus as i32 + minus as i32;
    if sum >= 0 {
        sum / 2
    } else {
        -((-sum) / 2)
    }
}

/// Parses feature report 0x02, of which the device filled `len` bytes.
pub fn parse_calibration(buf: &[u8; 37], len: usize) -> (r: Result<
    GyroCalibration,
    CalibrationError,
>)
    ensures
        r == (if len < CALIBRATION_REPORT_SIZE {
            Err::<GyroCalibration, CalibrationError>(CalibrationError::TooShort(len))
        } else {
            Ok(calibration_in(buf@))
        }),
{
    if len < CALIBRATION_REPORT_SIZE {
        return Err(CalibrationError::TooShort(len));
    }
    let b: &[u8] = buf.as_slice();
    let speed_sum: i32 = read_i16_le(b, 19) as i32 + read_i16_le(b, 21) as i32;
    Ok(
        GyroCalibration {
            pitch_bias: read_i16_le(b, 1) as i32,
            yaw_bias: read_i16_le(b, 3) as i32,
            roll_bias: read_i16_le(b, 5) as i32,
            pitch_scale: gyro_ratio(speed_sum, read_i16_le(b, 7), read_i16_le(b, 13)),
            yaw_scale: gyro_ratio(speed_sum, read_i16_le(b, 9), read_i16_le(b, 15)),
            roll_scale: gyro_ratio(speed_sum, read_i16_le(b, 11), read_i16_le(b, 17)),
            accel_x_bias: accel_middle(read_i16_le(b, 23), read_i16_le(b, 25)),
            accel_y_bias: accel_middle(read_i16_le(b, 27), read_i16_le(b, 29)),
            accel_z_bias: accel_middle(read_i16_le(b, 31), read_i16_le(b, 33)),
            accel_x_scale: accel_ratio(read_i16_le(b, 23), read_i16_le(b, 25)),
            accel_y_scale: accel_ratio(read_i16_le(b, 27), read_i16_le(b, 29)),
            accel_z_scale: accel_ratio(read_i16_le(b, 31), read_i16_le(b, 33)),
        },
    )
}

/// A parsed calibration can always be applied: no factor divides by zero or
/// flips the sign of its denominator, and every rest reading fits 16 bits.
pub proof fn law_calibration_usable(buf: Seq<u8>)
    ensures
        ({
            let c = calibration_in(buf);
            &&& c.pitch_scale.den >= 1 && c.yaw_scale.den >= 1 && c.roll_scale.den >= 1
            &&& c.accel_x_scale.den >= 1 && c.accel_y_scale.den >= 1 && c.accel_z_scale.den >= 1
            &&& -32768 <= c.pitch_bias <= 32767
            &&& -32768 <= c.yaw_bias <= 32767
            &&& -32768 <= c.roll_bias <= 32767
            &&& -32768 <= c.accel_x_bias <= 32767
            &&& -32768 <= c.accel_y_bias <= 32767
            &&& -32768 <= c.accel_z_bias <= 32767
        }),
{
}

impl GyroCalibration {
    /// No bias and a factor of one on every axis.
    pub open spec fn neutral() -> GyroCalibration {
        GyroCalibration {
            pitch_bias: 0,
            yaw_bias: 0,
            roll_bias: 0,
            pitch_scale: Ratio { num: 1, den: 1 },
            yaw_scale: Ratio { num: 1, den: 1 },
            roll_scale: Ratio { num: 1, den: 1 },
            accel_x_bias: 0,
            accel_y_bias: 0,
            accel_z_bias: 0,
            accel_x_scale: Ratio { num: 1, den: 1 },
            accel_y_scale: Ratio { num: 1, den: 1 },
            accel_z_scale: Ratio { num: 1, den: 1 },
        }
    }

    /// The fallback used when the calibration report cannot be read: gyro output
    /// then drifts, and everything else works.
    pub fn identity() -> (r: Self)
        ensures
            r == GyroCalibration::neutral(),
    {
        let one = Ratio { num: 1, den: 1 };
        GyroCalibration {
            pitch_bias: 0,
            yaw_bias: 0,
            roll_bias: 0,
            pitch_scale: one,
            yaw_scale: one,
            roll_scale: one,
            accel_x_bias: 0,
            accel_y_bias: 0,
            accel_z_bias: 0,
            accel_x_scale: one,
            accel_y_scale: one,
            accel_z_scale: one,
        }
    }
}

/// Picks the calibration to run with: the one that was read, or the neutral one
/// where reading it failed.
pub fn calibration_or_identity(read: Result<GyroCalibration, String>) -> (r: GyroCalibration)
    ensures
        r == (match read {
            Ok(c) => c,
            Err(_) => GyroCalibration::neutral(),
        }),
{
    match read {
        Ok(c) => c,
        Err(_) => GyroCalibration::identity(),
    }
}

impl Default for GyroCalibration {
    /// No bias, and factors that silence every axis.
    fn default() -> (r: Self)
        ensures
            r == (GyroCalibration {
                pitch_scale: Ratio { num: 0, den: 1 },
                yaw_scale: Ratio { num: 0, den: 1 },
                roll_scale: Ratio { num: 0, den: 1 },
                accel_x_scale: Ratio { num: 0, den: 1 },
                accel_y_scale: Ratio { num: 0, den: 1 },
                accel_z_scale: Ratio { num: 0, den: 1 },
                ..GyroCalibration::neutral()
            }),
    {
        let none = Ratio { num: 0, den: 1 };
        GyroCalibration {
            pitch_scale: none,
            yaw_scale: none,
            roll_scale: none,
            accel_x_scale: none,
            accel_y_scale: none,
            accel_z_scale: none,
            ..GyroCalibration::identity()
        }
    }
}

/// Raw gyro readings with the rest reading taken off, still to be multiplied
/// by the calibration's factors.
#[derive(Debug, Clone, Copy, PartialEq, Eq, Structural)]
pub struct GyroTicks {
    pub pitch: i32,
    pub yaw: i32,
    pub roll: i32,
}

/// Takes each axis' rest reading off the raw gyro values.
pub fn bias_corrected_gyro(state: &PadState, cal: &GyroCalibration) -> (r: GyroTicks)
    requires
        i32::MIN <= state.gyro_x - cal.pitch_bias <= i32::MAX,
        i32::MIN <= state.gyro_y - cal.yaw_bias <= i32::MAX,
        i32::MIN <= state.gyro_z - cal.roll_bias <= i32::MAX,
    ensures
        r.pitch == state.gyro_x - cal.pitch_bias,
        r.yaw == state.gyro_y - cal.yaw_bias,
        r.roll == state.gyro_z - cal.roll_bias,
{
    GyroTicks {
        pitch: state.gyro_x as i32 - cal.pitch_bias,
        yaw: state.gyro_y as i32 - cal.yaw_bias,
        roll: state.gyro_z as i32 - cal.roll_bias,
    }
}

/// What to tell the controller: rumble and lightbar. The controller applies a
/// group of fields only when the matching `set_` flag is raised.
#[derive(Debug, Clone, Copy, PartialEq, Eq, Structural)]
pub struct OutputReport {
    pub rumble_weak: u8,
    pub rumble_strong: u8,
    pub led_red: u8,
    pub led_green: u8,
    pub led_blue: u8,
    pub led_blink_on: u8,
    pub led_blink_off: u8,
    pub set_rumble: bool,
    pub set_led: bool,
}

impl OutputReport {
    /// The report that changes nothing.
    pub open spec fn silent() -> OutputReport {
        OutputReport {
            rumble_weak: 0,
            rumble_strong: 0,
            led_red: 0,
            led_green: 0,
            led_blue: 0,
            led_blink_on: 0,
            led_blink_off: 0,
            set_rumble: false,
            set_led: false,
        }
    }
}

impl Default for OutputReport {
    fn default() -> (r: Self)
        ensures
            r == OutputReport::silent(),
    {
        OutputReport {
            rumble_weak: 0,
            rumble_strong: 0,
            led_red: 0,
            led_green: 0,
            led_blue: 0,
            led_blink_on: 0,
            led_blink_off: 0,
            set_rumble: false,
            set_led: false,
        }
    }
}

/// Flag byte of the USB report: 1 enables rumble, 2 the lightbar colour and 4
/// its blinking, which always travels with the colour.
pub open spec fn usb_flags(report: OutputReport) -> int {
    (if report.set_rumble {
        1int
    } else {
        0
    }) + (if report.set_led {
        6int
    } else {
        0
    })
}

/// The bytes of the USB output report.
pub open spec fn usb_output_bytes(report: OutputReport) -> Seq<u8> {
    seq![
        0x05u8,
        usb_flags(report) as u8,
        0u8,
        0u8,
        report.rumble_weak,
        report.rumble_strong,
        report.led_red,
        report.led_green,
        report.led_blue,
        report.led_blink_on,
        report.led_blink_off,
    ] + Seq::new(21, |i: int| 0u8)
}

/// Encodes an output report for USB.
pub fn encode_output_report(report: &OutputReport) -> (buf: [u8; 32])
    ensures
        buf@ =~= usb_output_bytes(*report),
{
    let mut buf: [u8; 32] = [0u8;32];
    buf[0] = 0x05;
    let mut flags: u8 = 0;
    if report.set_rumble {
        flags = flags + 1;
    }
    if report.set_led {
        flags = flags + 6;
    }
    buf[1] = flags;
    buf[4] = report.rumble_weak;
    buf[5] = report.rumble_strong;
    buf[6] = report.led_red;
    buf[7] = report.led_green;
    buf[8] = report.led_blue;
    buf[9] = report.led_blink_on;
    buf[10] = report.led_blink_off;
    buf
}

/// A USB output report keeps every field: two reports with the same bytes are
/// the same report.
pub proof fn law_usb_output_injective(a: OutputReport, b: OutputReport)
    requires
        usb_output_bytes(a) == usb_output_bytes(b),
    ensures
        a == b,
{
    lemma_usb_output_fields(a);
    lemma_usb_output_fields(b);
}

proof fn lemma_usb_output_fields(a: OutputReport)
    ensures
        usb_output_bytes(a)[1] == usb_flags(a),
        usb_output_bytes(a)[4] == a.rumble_weak,
        usb_output_bytes(a)[5] == a.rumble_strong,
        usb_output_bytes(a)[6] == a.led_red,
        usb_output_bytes(a)[7] == a.led_green,
        usb_output_bytes(a)[8] == a.led_blue,
        usb_output_bytes(a)[9] == a.led_blink_on,
        usb_output_bytes(a)[10] == a.led_blink_off,
{
}

} // verus!
