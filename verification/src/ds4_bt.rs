//! DS4 v2 reports over Bluetooth.
//!
//! A Bluetooth report holds the same fields as a USB report, two bytes further
//! on, and ends in a CRC32 over a transport header byte and everything before
//! it. The header byte itself is not part of the report.

use crate::ds4_input::{parse_payload, OutputReport, PadState};
use vstd::prelude::*;

verus! {

/// Report id of the full Bluetooth input report.
pub const DS4_INPUT_REPORT_BT_ID: u8 = 0x11;

/// Size of the full Bluetooth input report, CRC included.
pub const DS4_INPUT_REPORT_BT_SIZE: usize = 78;

/// Feature report whose reading switches the controller from short reports to
/// full ones.
pub const DS4_CALIBRATION_FEATURE_BT_ID: u8 = 0x02;

/// Size of that feature report.
pub const DS4_CALIBRATION_FEATURE_BT_SIZE: usize = 37;

/// Shortest buffer that holds every field up to the accelerometer.
pub const BT_INPUT_REPORT_MIN: usize = 27;

/// Transport header byte that the CRC of an input report starts with.
pub const BT_INPUT_CRC_HEADER: u8 = 0xA1;

/// Transport header byte that the CRC of an output report starts with.
pub const BT_OUTPUT_CRC_HEADER: u8 = 0xA2;

/// The CRC32 that `crc32fast` computes over a header byte and then a payload.
pub uninterp spec fn crc32_of(header: u8, payload: Seq<u8>) -> u32;

/// Calls `crc32fast::Hasher`: a new hasher is updated with the header byte and
/// with the payload, and its final state is returned. Nothing is claimed of
/// the value but that the header and the payload determine it.
#[verifier::external_body]
fn crc32(header: u8, payload: &[u8]) -> (r: u32)
    ensures
        r == crc32_of(header, payload@),
{
    let mut hasher = crc32fast::Hasher::new();
    hasher.update(&[header]);
    hasher.update(payload);
    hasher.finalize()
}

/// The number stored low byte first in the four bytes at `at`.
pub open spec fn u32_le_at(buf: Seq<u8>, at: int) -> int {
    buf[at] + 0x100 * buf[at + 1] + 0x1_0000 * buf[at + 2] + 0x100_0000 * buf[at + 3]
}

/// Reads the little-endian number in the last four bytes.
fn read_trailer(report: &[u8]) -> (r: u32)
    requires
        report.len() >= 4,
    ensures
        r == u32_le_at(report@, report@.len() - 4),
{
    let at: usize = report.len() - 4;
    report[at] as u32 + 0x100 * report[at + 1] as u32 + 0x1_0000 * report[at + 2] as u32
        + 0x100_0000 * report[at + 3] as u32
}

/// Whether the last four bytes of a report hold the given CRC.
pub fn trailer_matches(report: &[u8], computed: u32) -> (r: bool)
    ensures
        r == (report@.len() >= 4 && u32_le_at(report@, report@.len() - 4) == computed),
{
    report.len() >= 4 && read_trailer(report) == computed
}

/// Whether a report is sound: its last four bytes hold the CRC of the rest.
pub open spec fn sound(report: Seq<u8>) -> bool {
    &&& report.len() >= 4
    &&& u32_le_at(report, report.len() - 4) == crc32_of(
        BT_INPUT_CRC_HEADER,
        report.take(report.len() - 4),
    )
}

/// Checks the CRC of an input report.
pub fn validate_crc(report: &[u8]) -> (r: bool)
    ensures
        r == sound(report@),
{
    if report.len() < 4 {
        return false;
    }
    let payload = vstd::slice::slice_subrange(report, 0, report.len() - 4);
    assert(payload@ =~= report@.take(report@.len() - 4));
    trailer_matches(report, crc32(BT_INPUT_CRC_HEADER, payload))
}

/// Parses a full Bluetooth report into the state that USB parsing gives. The
/// caller has checked the CRC.
pub fn parse_report_bt(buf: &[u8]) -> (s: PadState)
    requires
        buf.len() >= BT_INPUT_REPORT_MIN,
    ensures
        s == crate::ds4_input::pad_at(buf@, 3),
{
    parse_payload(buf, 3)
}

/// Whether a read of `len` bytes can be a full input report at all.
pub open spec fn full_report_read(buf: Seq<u8>, len: int) -> bool {
    len >= DS4_INPUT_REPORT_BT_SIZE && buf[0] == DS4_INPUT_REPORT_BT_ID
}

/// Takes a report whose CRC has been checked, with the outcome of the check.
/// A corrupted report says nothing about the pad.
pub fn accept_report(report: &[u8], crc_valid: bool) -> (r: Option<PadState>)
    requires
        report.len() >= BT_INPUT_REPORT_MIN,
    ensures
        r == (if crc_valid {
            Some(crate::ds4_input::pad_at(report@, 3))
        } else {
            None
        }),
{
    if crc_valid {
        Some(parse_report_bt(report))
    } else {
        None
    }
}

/// Decodes one Bluetooth read: `len` bytes arrived at the front of `buf`. A
/// short read, another report id or a wrong CRC says nothing about the pad.
pub fn decode_bt_read(buf: &[u8], len: usize) -> (r: Option<PadState>)
    requires
        len <= buf.len(),
    ensures
        r == (if full_report_read(buf@, len as int) && sound(
            buf@.take(DS4_INPUT_REPORT_BT_SIZE as int),
        ) {
            Some(crate::ds4_input::pad_at(buf@.take(DS4_INPUT_REPORT_BT_SIZE as int), 3))
        } else {
            None
        }),
{
    if len == 0 || buf[0] != DS4_INPUT_REPORT_BT_ID || len < DS4_INPUT_REPORT_BT_SIZE {
        return None;
    }
    let report = vstd::slice::slice_subrange(buf, 0, DS4_INPUT_REPORT_BT_SIZE);
    assert(report@ =~= buf@.take(DS4_INPUT_REPORT_BT_SIZE as int));
    accept_report(report, validate_crc(report))
}

/// The four bytes of a number, low byte first.
pub open spec fn u32_le_bytes(n: u32) -> Seq<u8> {
    seq![
        (n % 0x100) as u8,
        (n / 0x100 % 0x100) as u8,
        (n / 0x1_0000 % 0x100) as u8,
        (n / 0x100_0000) as u8,
    ]
}

/// Flag byte of the Bluetooth output report: 1 enables rumble, 2 the lightbar.
pub open spec fn bt_flags(report: OutputReport) -> int {
    crate::uinput::unit(report.set_rumble) + 2 * crate::uinput::unit(report.set_led)
}

/// Everything in an output report before its CRC. Blink times do not travel
/// over Bluetooth.
pub open spec fn bt_output_payload(report: OutputReport) -> Seq<u8> {
    seq![
        0x11u8,
        0xC4u8,
        0u8,
        bt_flags(report) as u8,
        0u8,
        0u8,
        report.rumble_weak,
        report.rumble_strong,
        report.led_red,
        report.led_green,
        report.led_blue,
    ] + Seq::new(63, |i: int| 0u8)
}

/// The bytes of an output report: the payload, then the inverted CRC.
pub open spec fn bt_output_bytes(report: OutputReport) -> Seq<u8> {
    let payload = bt_output_payload(report);
    payload + u32_le_bytes((0xFFFF_FFFF - crc32_of(BT_OUTPUT_CRC_HEADER, payload)) as u32)
}

/// Lays out everything before the CRC and leaves the CRC bytes zero.
fn unsigned_output(report: &OutputReport) -> (buf: [u8; 78])
    ensures
        buf@ =~= bt_output_payload(*report) + seq![0u8, 0u8, 0u8, 0u8],
{
    let mut buf: [u8; 78] = [0u8; 78];
    buf[0] = 0x11;
    buf[1] = 0xC4;
    let mut flags: u8 = 0;
    if report.set_rumble {
        flags = flags + 1;
    }
    if report.set_led {
        flags = flags + 2;
    }
    buf[3] = flags;
    buf[6] = report.rumble_weak;
    buf[7] = report.rumble_strong;
    buf[8] = report.led_red;
    buf[9] = report.led_green;
    buf[10] = report.led_blue;
    buf
}

/// Lays out an output report that carries the given CRC, inverted.
pub fn output_with_crc(report: &OutputReport, crc: u32) -> (buf: [u8; 78])
    ensures
        buf@ =~= bt_output_payload(*report) + u32_le_bytes((0xFFFF_FFFF - crc) as u32),
{
    let mut buf: [u8; 78] = unsigned_output(report);
    let stored: u32 = 0xFFFF_FFFF - crc;
    buf[74] = (stored % 0x100) as u8;
    buf[75] = (stored / 0x100 % 0x100) as u8;
    buf[76] = (stored / 0x1_0000 % 0x100) as u8;
    buf[77] = (stored / 0x100_0000) as u8;
    buf
}

/// Encodes an output report for Bluetooth.
pub fn encode_output_report_bt(report: &OutputReport) -> (buf: [u8; 78])
    ensures
        buf@ =~= bt_output_bytes(*report),
{
    let unsigned = unsigned_output(report);
    let payload = vstd::slice::slice_subrange(unsigned.as_slice(), 0, 74);
    assert(payload@ =~= bt_output_payload(*report));
    output_with_crc(report, crc32(BT_OUTPUT_CRC_HEADER, payload))
}

/// The four bytes of a number read back as that number.
pub proof fn law_trailer_roundtrip(payload: Seq<u8>, crc: u32)
    ensures
        u32_le_at(payload + u32_le_bytes(crc), payload.len() as int) == crc,
{
    let b = payload + u32_le_bytes(crc);
    let n = payload.len() as int;
    assert(b[n] == crc % 0x100);
    assert(b[n + 1] == crc / 0x100 % 0x100);
    assert(b[n + 2] == crc / 0x1_0000 % 0x100);
    assert(b[n + 3] == crc / 0x100_0000);
}

/// A report that carries the CRC of its payload passes the check.
pub proof fn law_signed_report_is_sound(payload: Seq<u8>)
    ensures
        sound(payload + u32_le_bytes(crc32_of(BT_INPUT_CRC_HEADER, payload))),
{
    let crc = crc32_of(BT_INPUT_CRC_HEADER, payload);
    let report = payload + u32_le_bytes(crc);
    law_trailer_roundtrip(payload, crc);
    assert(report.take(report.len() - 4) =~= payload);
}

proof fn lemma_digits(a0: u8, a1: u8, a2: u8, a3: u8, b0: u8, b1: u8, b2: u8, b3: u8)
    requires
        a0 + 0x100 * a1 + 0x1_0000 * a2 + 0x100_0000 * a3 == b0 + 0x100 * b1 + 0x1_0000 * b2
            + 0x100_0000 * b3,
    ensures
        a0 == b0,
        a1 == b1,
        a2 == b2,
        a3 == b3,
{
}

/// A sound report stops being sound when only its last four bytes change.
pub proof fn law_damaged_trailer_is_found(a: Seq<u8>, b: Seq<u8>)
    requires
        a.len() == b.len(),
        a.len() >= 4,
        a.take(a.len() - 4) == b.take(b.len() - 4),
        a != b,
        sound(a),
    ensures
        !sound(b),
{
    if sound(b) {
        let n = a.len() - 4;
        assert(u32_le_at(a, n) == u32_le_at(b, n));
        lemma_digits(a[n], a[n + 1], a[n + 2], a[n + 3], b[n], b[n + 1], b[n + 2], b[n + 3]);
        assert forall|i: int| 0 <= i < a.len() implies a[i] == b[i] by {
            if i < n {
                assert(a.take(n)[i] == b.take(n)[i]);
            }
        }
        assert(a =~= b);
    }
}

/// A Bluetooth output report keeps every field but the blink times: two reports
/// with the same payload agree on all of them.
pub proof fn law_bt_output_keeps_fields(a: OutputReport, b: OutputReport)
    requires
        bt_output_payload(a) == bt_output_payload(b),
    ensures
        (a.rumble_weak, a.rumble_strong) == (b.rumble_weak, b.rumble_strong),
        (a.led_red, a.led_green, a.led_blue) == (b.led_red, b.led_green, b.led_blue),
        (a.set_rumble, a.set_led) == (b.set_rumble, b.set_led),
{
    lemma_payload_fields(a);
    lemma_payload_fields(b);
}

proof fn lemma_payload_fields(a: OutputReport)
    ensures
        bt_output_payload(a)[3] == bt_flags(a),
        bt_output_payload(a)[6] == a.rumble_weak,
        bt_output_payload(a)[7] == a.rumble_strong,
        bt_output_payload(a)[8] == a.led_red,
        bt_output_payload(a)[9] == a.led_green,
        bt_output_payload(a)[10] == a.led_blue,
{
}

} // verus!
