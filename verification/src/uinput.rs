//! What every virtual device shares: input events, ioctl request numbers and
//! the steps that register a device with `/dev/uinput`.

use vstd::prelude::*;
use vstd::string::*;

verus! {

pub const EV_SYN: u16 = 0x00;

pub const EV_KEY: u16 = 0x01;

pub const EV_REL: u16 = 0x02;

pub const EV_ABS: u16 = 0x03;

pub const SYN_REPORT: u16 = 0;

pub const BUS_USB: u16 = 0x03;

/// Size of the device name field, terminator included where it fits.
pub const UINPUT_MAX_NAME_SIZE: usize = 80;

/// One event as a device emits it.
#[derive(Debug, Clone, Copy, PartialEq, Eq, Structural)]
pub struct InputEvent {
    pub kind: u16,
    pub code: u16,
    pub value: i32,
}

/// A key or button going down or up.
pub open spec fn key(code: u16, pressed: bool) -> InputEvent {
    InputEvent {
        kind: EV_KEY,
        code,
        value: if pressed {
            1
        } else {
            0
        },
    }
}

/// An absolute axis taking a value.
pub open spec fn abs(code: u16, value: i32) -> InputEvent {
    InputEvent { kind: EV_ABS, code, value }
}

/// A relative axis moving.
pub open spec fn rel(code: u16, value: i32) -> InputEvent {
    InputEvent { kind: EV_REL, code, value }
}

/// The end of a report.
pub open spec fn syn() -> InputEvent {
    InputEvent { kind: EV_SYN, code: SYN_REPORT, value: 0 }
}

/// Builds a key or button event.
pub fn key_event(code: u16, pressed: bool) -> (r: InputEvent)
    ensures
        r == key(code, pressed),
{
    InputEvent {
        kind: EV_KEY,
        code,
        value: if pressed {
            1
        } else {
            0
        },
    }
}

/// Builds an absolute axis event.
pub fn abs_event(code: u16, value: i32) -> (r: InputEvent)
    ensures
        r == abs(code, value),
{
    InputEvent { kind: EV_ABS, code, value }
}

/// Builds a relative axis event.
pub fn rel_event(code: u16, value: i32) -> (r: InputEvent)
    ensures
        r == rel(code, value),
{
    InputEvent { kind: EV_REL, code, value }
}

/// Builds the event that ends a report.
pub fn sync_event() -> (r: InputEvent)
    ensures
        r == syn(),
{
    InputEvent { kind: EV_SYN, code: SYN_REPORT, value: 0 }
}

/// The request number of an ioctl without an argument.
pub fn ioctl_none(kind: u8, nr: u8) -> (r: u64)
    ensures
        r == 256 * kind + nr,
{
    256 * kind as u64 + nr as u64
}

/// The request number of an ioctl that hands the kernel `size` bytes. The
/// number has fourteen bits for the size.
pub fn ioctl_w(kind: u8, nr: u8, size: usize) -> (r: u64)
    requires
        size < 0x4000,
    ensures
        r == 0x4000_0000 + 0x1_0000 * size + 256 * kind + nr,
{
    0x4000_0000 + 0x1_0000 * size as u64 + 256 * kind as u64 + nr as u64
}

/// The request number of an ioctl that hands the kernel a C `int`.
pub fn ioctl_w_int(kind: u8, nr: u8) -> (r: u64)
    ensures
        r == 0x4000_0000 + 0x1_0000 * 4 + 256 * kind + nr,
{
    ioctl_w(kind, nr, 4)
}

/// Two requests with an argument have the same number only if they are the
/// same request.
pub proof fn law_ioctl_numbers_differ(k1: u8, n1: u8, s1: int, k2: u8, n2: u8, s2: int)
    requires
        0 <= s1 < 0x4000,
        0 <= s2 < 0x4000,
        0x4000_0000 + 0x1_0000 * s1 + 256 * k1 + n1 == 0x4000_0000 + 0x1_0000 * s2 + 256 * k2 + n2,
    ensures
        k1 == k2,
        n1 == n2,
        s1 == s2,
{
}

/// The range and resting value of an absolute axis.
#[derive(Debug, Clone, Copy, PartialEq, Eq, Structural)]
pub struct AxisSetup {
    pub code: u16,
    pub minimum: i32,
    pub maximum: i32,
    pub value: i32,
    pub fuzz: i32,
    pub flat: i32,
}

/// An axis with its range, resting value, fuzz and flat zone.
pub open spec fn axis_range(
    code: u16,
    minimum: int,
    maximum: int,
    value: int,
    fuzz: int,
    flat: int,
) -> AxisSetup {
    AxisSetup {
        code,
        minimum: minimum as i32,
        maximum: maximum as i32,
        value: value as i32,
        fuzz: fuzz as i32,
        flat: flat as i32,
    }
}

/// Describes an axis.
pub fn axis(code: u16, minimum: i32, maximum: i32, value: i32, fuzz: i32, flat: i32) -> (r:
    AxisSetup)
    ensures
        r == axis_range(
            code,
            minimum as int,
            maximum as int,
            value as int,
            fuzz as int,
            flat as int,
        ),
{
    AxisSetup { code, minimum, maximum, value, fuzz, flat }
}

/// Everything that a virtual device declares before it exists.
#[derive(Debug)]
pub struct DeviceSpec {
    pub name: String,
    pub vendor: u16,
    pub product: u16,
    pub version: u16,
    pub keys: Vec<u16>,
    pub rels: Vec<u16>,
    pub axes: Vec<AxisSetup>,
    pub properties: Vec<u32>,
    /// How long to wait after creation so that the desktop notices the device.
    pub settle_ms: u64,
}

/// One request on the way to a registered device.
#[derive(Debug, Clone, Copy, PartialEq, Eq, Structural)]
pub enum SetupStep {
    EventType(u16),
    Key(u16),
    Rel(u16),
    Axis(u16),
    Property(u32),
    AxisRange(AxisSetup),
    Identity,
    Create,
}

/// The declaration of an event type, where the device has any code of it.
pub open spec fn event_type_step(kind: u16, codes: nat) -> Seq<SetupStep> {
    if codes == 0 {
        Seq::empty()
    } else {
        seq![SetupStep::EventType(kind)]
    }
}

/// The key event type and the keys of a device.
pub open spec fn key_steps_of(keys: Seq<u16>) -> Seq<SetupStep> {
    event_type_step(EV_KEY, keys.len()) + keys.map_values(|c: u16| SetupStep::Key(c))
}

fn key_steps(keys: &Vec<u16>) -> (r: Vec<SetupStep>)
    ensures
        r@ == key_steps_of(keys@),
{
    let mut r: Vec<SetupStep> = Vec::new();
    if keys.len() > 0 {
        r.push(SetupStep::EventType(EV_KEY));
    }
    let ghost head = r@;
    let ghost all = keys@.map_values(|c: u16| SetupStep::Key(c));
    let mut i: usize = 0;
    while i < keys.len()
        invariant
            i <= keys.len(),
            all == keys@.map_values(|c: u16| SetupStep::Key(c)),
            r@ == head + all.take(i as int),
        decreases keys.len() - i,
    {
        r.push(SetupStep::Key(keys[i]));
        i = i + 1;
        assert(all.take(i as int) =~= all.take(i - 1).push(all[i - 1]));
    }
    assert(all.take(i as int) =~= all);
    r
}

/// The relative event type and the relative axes of a device.
pub open spec fn rel_steps_of(rels: Seq<u16>) -> Seq<SetupStep> {
    event_type_step(EV_REL, rels.len()) + rels.map_values(|c: u16| SetupStep::Rel(c))
}

fn rel_steps(rels: &Vec<u16>) -> (r: Vec<SetupStep>)
    ensures
        r@ == rel_steps_of(rels@),
{
    let mut r: Vec<SetupStep> = Vec::new();
    if rels.len() > 0 {
        r.push(SetupStep::EventType(EV_REL));
    }
    let ghost head = r@;
    let ghost all = rels@.map_values(|c: u16| SetupStep::Rel(c));
    let mut i: usize = 0;
    while i < rels.len()
        invariant
            i <= rels.len(),
            all == rels@.map_values(|c: u16| SetupStep::Rel(c)),
            r@ == head + all.take(i as int),
        decreases rels.len() - i,
    {
        r.push(SetupStep::Rel(rels[i]));
        i = i + 1;
        assert(all.take(i as int) =~= all.take(i - 1).push(all[i - 1]));
    }
    assert(all.take(i as int) =~= all);
    r
}

/// The absolute event type and the absolute axes of a device.
pub open spec fn axis_steps_of(axes: Seq<AxisSetup>) -> Seq<SetupStep> {
    event_type_step(EV_ABS, axes.len()) + axes.map_values(|a: AxisSetup| SetupStep::Axis(a.code))
}

fn axis_steps(axes: &Vec<AxisSetup>) -> (r: Vec<SetupStep>)
    ensures
        r@ == axis_steps_of(axes@),
{
    let mut r: Vec<SetupStep> = Vec::new();
    if axes.len() > 0 {
        r.push(SetupStep::EventType(EV_ABS));
    }
    let ghost head = r@;
    let ghost all = axes@.map_values(|a: AxisSetup| SetupStep::Axis(a.code));
    let mut i: usize = 0;
    while i < axes.len()
        invariant
            i <= axes.len(),
            all == axes@.map_values(|a: AxisSetup| SetupStep::Axis(a.code)),
            r@ == head + all.take(i as int),
        decreases axes.len() - i,
    {
        r.push(SetupStep::Axis(axes[i].code));
        i = i + 1;
        assert(all.take(i as int) =~= all.take(i - 1).push(all[i - 1]));
    }
    assert(all.take(i as int) =~= all);
    r
}

/// The properties of a device.
pub open spec fn property_steps_of(properties: Seq<u32>) -> Seq<SetupStep> {
    properties.map_values(|p: u32| SetupStep::Property(p))
}

fn property_steps(properties: &Vec<u32>) -> (r: Vec<SetupStep>)
    ensures
        r@ == property_steps_of(properties@),
{
    let mut r: Vec<SetupStep> = Vec::new();
    let ghost head = r@;
    let ghost all = properties@.map_values(|p: u32| SetupStep::Property(p));
    let mut i: usize = 0;
    while i < properties.len()
        invariant
            i <= properties.len(),
            all == properties@.map_values(|p: u32| SetupStep::Property(p)),
            r@ == head + all.take(i as int),
        decreases properties.len() - i,
    {
        r.push(SetupStep::Property(properties[i]));
        i = i + 1;
        assert(all.take(i as int) =~= all.take(i - 1).push(all[i - 1]));
    }
    assert(all.take(i as int) =~= all);
    r
}

/// The ranges of the absolute axes of a device.
pub open spec fn range_steps_of(axes: Seq<AxisSetup>) -> Seq<SetupStep> {
    axes.map_values(|a: AxisSetup| SetupStep::AxisRange(a))
}

fn range_steps(axes: &Vec<AxisSetup>) -> (r: Vec<SetupStep>)
    ensures
        r@ == range_steps_of(axes@),
{
    let mut r: Vec<SetupStep> = Vec::new();
    let ghost head = r@;
    let ghost all = axes@.map_values(|a: AxisSetup| SetupStep::AxisRange(a));
    let mut i: usize = 0;
    while i < axes.len()
        invariant
            i <= axes.len(),
            all == axes@.map_values(|a: AxisSetup| SetupStep::AxisRange(a)),
            r@ == head + all.take(i as int),
        decreases axes.len() - i,
    {
        r.push(SetupStep::AxisRange(axes[i]));
        i = i + 1;
        assert(all.take(i as int) =~= all.take(i - 1).push(all[i - 1]));
    }
    assert(all.take(i as int) =~= all);
    r
}

/// The requests that register a device: each event type before its codes, the
/// axis ranges after all codes, then the identity, and the creation last.
pub open spec fn steps_for(d: DeviceSpec) -> Seq<SetupStep> {
    key_steps_of(d.keys@) + rel_steps_of(d.rels@) + axis_steps_of(d.axes@) + property_steps_of(
        d.properties@,
    ) + range_steps_of(d.axes@) + seq![SetupStep::Identity] + seq![SetupStep::Create]
}

/// Lists the requests that register a device, in order.
pub fn creation_steps(d: &DeviceSpec) -> (r: Vec<SetupStep>)
    ensures
        r@ == steps_for(*d),
{
    let mut r: Vec<SetupStep> = key_steps(&d.keys);
    let mut rels = rel_steps(&d.rels);
    r.append(&mut rels);
    let mut axes = axis_steps(&d.axes);
    r.append(&mut axes);
    let mut properties = property_steps(&d.properties);
    r.append(&mut properties);
    let mut ranges = range_steps(&d.axes);
    r.append(&mut ranges);
    r.push(SetupStep::Identity);
    r.push(SetupStep::Create);
    r
}

/// A device is created by the last request and by no other, after its identity.
pub proof fn law_created_last(d: DeviceSpec)
    ensures
        steps_for(d).last() == SetupStep::Create,
        steps_for(d)[steps_for(d).len() - 2] == SetupStep::Identity,
        forall|i: int|
            0 <= i < steps_for(d).len() - 1 ==> #[trigger] steps_for(d)[i] != SetupStep::Create,
{
}

/// The byte that the name field holds at `i`: the name, then zeros.
pub open spec fn name_byte(name: Seq<char>, i: int) -> int {
    if i < name.len() {
        name[i] as int
    } else {
        0
    }
}

/// Lays a device name out in its fixed field. A name that fills the field is
/// cut off there.
pub fn name_field(name: &str) -> (r: [i8; 80])
    requires
        forall|i: int| 0 <= i < name@.len() ==> 0 < (#[trigger] name@[i] as int) && (name@[i] as int) < 128,
    ensures
        forall|i: int| 0 <= i < UINPUT_MAX_NAME_SIZE ==> #[trigger] r@[i] == name_byte(name@, i),
{
    let mut r: [i8; 80] = [0i8; 80];
    let n: usize = name.unicode_len();
    let mut i: usize = 0;
    while i < n && i < UINPUT_MAX_NAME_SIZE
        invariant
            n == name@.len(),
            i <= n,
            i <= UINPUT_MAX_NAME_SIZE,
            forall|k: int| 0 <= k < name@.len() ==> 0 < (#[trigger] name@[k] as int) && (name@[k] as int) < 128,
            forall|k: int| 0 <= k < i ==> #[trigger] r@[k] == name_byte(name@, k),
            forall|k: int| i <= k < UINPUT_MAX_NAME_SIZE ==> #[trigger] r@[k] == 0,
        decreases n - i,
    {
        let c = name.get_char(i);
        assert(0 < (name@[i as int] as int));
        r[i] = c as u8 as i8;
        i = i + 1;
    }
    r
}

/// One if `b` holds, else zero.
pub open spec fn unit(b: bool) -> int {
    if b {
        1
    } else {
        0
    }
}

/// Turns four d-pad directions into the pair of hat axis values. Opposite
/// directions cancel.
pub fn dpad_bools_to_hat(up: bool, down: bool, left: bool, right: bool) -> (r: (i32, i32))
    ensures
        r.0 == unit(right) - unit(left),
        r.1 == unit(down) - unit(up),
{
    let hat_x: i32 = match (left, right) {
        (true, false) => -1,
        (false, true) => 1,
        _ => 0,
    };
    let hat_y: i32 = match (up, down) {
        (true, false) => -1,
        (false, true) => 1,
        _ => 0,
    };
    (hat_x, hat_y)
}

/// Whether a device with these keys and axes can emit the event: the code is
/// declared, and a value stays inside the declared range.
pub open spec fn declared(e: InputEvent, keys: Seq<u16>, axes: Seq<AxisSetup>) -> bool {
    ||| e == syn()
    ||| e.kind == EV_KEY && keys.contains(e.code) && 0 <= e.value <= 1
    ||| e.kind == EV_ABS && exists|i: int|
        0 <= i < axes.len() && (#[trigger] axes[i]).code == e.code && axes[i].minimum <= e.value
            <= axes[i].maximum
}

/// Bytes of the kernel's setup record: four 16-bit ids, the name field and the
/// number of force feedback effects.
pub const SETUP_RECORD_SIZE: usize = 92;

/// Bytes of the kernel's axis record: the code, padded, and six 32-bit numbers.
pub const AXIS_RECORD_SIZE: usize = 28;

/// The ioctl family of the input device interface, the letter U.
pub const UINPUT_FAMILY: u8 = 0x55;

/// The request number within its family and the size of the argument; a size
/// of zero stands for a request without one.
pub open spec fn request_parts(step: SetupStep) -> (u8, int) {
    match step {
        SetupStep::EventType(_) => (100, 4),
        SetupStep::Key(_) => (101, 4),
        SetupStep::Rel(_) => (102, 4),
        SetupStep::Axis(_) => (103, 4),
        SetupStep::Property(_) => (110, 4),
        SetupStep::AxisRange(_) => (4, AXIS_RECORD_SIZE as int),
        SetupStep::Identity => (3, SETUP_RECORD_SIZE as int),
        SetupStep::Create => (1, 0),
    }
}

/// The request number of a step.
pub open spec fn request_number(step: SetupStep) -> int {
    let parts = request_parts(step);
    if parts.1 == 0 {
        256 * UINPUT_FAMILY + parts.0
    } else {
        0x4000_0000 + 0x1_0000 * parts.1 + 256 * UINPUT_FAMILY + parts.0
    }
}

/// The ioctl request that carries out a step.
pub fn request_of(step: SetupStep) -> (r: u64)
    ensures
        r == request_number(step),
{
    match step {
        SetupStep::EventType(_) => ioctl_w_int(UINPUT_FAMILY, 100),
        SetupStep::Key(_) => ioctl_w_int(UINPUT_FAMILY, 101),
        SetupStep::Rel(_) => ioctl_w_int(UINPUT_FAMILY, 102),
        SetupStep::Axis(_) => ioctl_w_int(UINPUT_FAMILY, 103),
        SetupStep::Property(_) => ioctl_w_int(UINPUT_FAMILY, 110),
        SetupStep::AxisRange(_) => ioctl_w(UINPUT_FAMILY, 4, AXIS_RECORD_SIZE),
        SetupStep::Identity => ioctl_w(UINPUT_FAMILY, 3, SETUP_RECORD_SIZE),
        SetupStep::Create => ioctl_none(UINPUT_FAMILY, 1),
    }
}

/// The ioctl request that removes a device.
pub fn destroy_request() -> (r: u64)
    ensures
        r == 256 * UINPUT_FAMILY + 2,
{
    ioctl_none(UINPUT_FAMILY, 2)
}

} // verus!
