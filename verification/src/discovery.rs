//! Finding controllers: which HID devices are DualShock 4 pads, in which order
//! they are taken, and what each is called.

use crate::ds4_input::{DS4_V2_PID, SONY_VID};
use crate::text::{decimal_text, same};
use vstd::prelude::*;
use vstd::string::*;

verus! {

/// How a controller is connected.
#[derive(Debug, Clone, Copy, PartialEq, Eq, Structural)]
pub enum Connection {
    Usb,
    Bluetooth,
}

impl Connection {
    /// The connection's name.
    pub open spec fn text(self) -> Seq<char> {
        match self {
            Connection::Usb => "USB"@,
            Connection::Bluetooth => "Bluetooth"@,
        }
    }

    /// The connection's name.
    pub fn label(self) -> (r: &'static str)
        ensures
            r@ == self.text(),
    {
        match self {
            Connection::Usb => "USB",
            Connection::Bluetooth => "Bluetooth",
        }
    }
}

/// The bus that a HID device sits on.
#[derive(Debug, Clone, Copy, PartialEq, Eq, Structural)]
pub enum Bus {
    Usb,
    Bluetooth,
    Other,
}

/// HID usage page of a gamepad interface.
pub const USAGE_PAGE_GENERIC_DESKTOP: u16 = 0x01;

/// HID usage of a gamepad interface.
pub const USAGE_GAME_PAD: u16 = 0x05;

/// Product id over Bluetooth.
pub const DS4_V2_BT_PID: u16 = 0x09CC;

/// A HID device as the system lists it.
#[derive(Debug)]
pub struct HidEntry {
    pub vendor_id: u16,
    pub product_id: u16,
    pub usage_page: u16,
    pub usage: u16,
    pub bus: Bus,
    pub serial: Option<String>,
    pub path: String,
}

/// How a device is connected, if it is a controller's gamepad interface. The
/// two transports share their ids, so the bus decides; a pad may expose other
/// interfaces, so the usage decides too.
pub open spec fn pad_connection(d: HidEntry, force_bluetooth: bool) -> Option<Connection> {
    if d.vendor_id != SONY_VID || (d.product_id != DS4_V2_PID && d.product_id != DS4_V2_BT_PID)
        || d.usage_page != USAGE_PAGE_GENERIC_DESKTOP || d.usage != USAGE_GAME_PAD {
        None
    } else {
        match d.bus {
            Bus::Usb => if force_bluetooth {
                None
            } else {
                Some(Connection::Usb)
            },
            Bus::Bluetooth => Some(Connection::Bluetooth),
            Bus::Other => None,
        }
    }
}

/// Classifies a HID device.
pub fn classify(d: &HidEntry, force_bluetooth: bool) -> (r: Option<Connection>)
    ensures
        r == pad_connection(*d, force_bluetooth),
{
    if d.vendor_id != SONY_VID {
        return None;
    }
    if d.product_id != DS4_V2_PID && d.product_id != DS4_V2_BT_PID {
        return None;
    }
    if d.usage_page != USAGE_PAGE_GENERIC_DESKTOP || d.usage != USAGE_GAME_PAD {
        return None;
    }
    match d.bus {
        Bus::Usb => if force_bluetooth {
            None
        } else {
            Some(Connection::Usb)
        },
        Bus::Bluetooth => Some(Connection::Bluetooth),
        Bus::Other => None,
    }
}

/// The positions among the first `n` devices that hold a controller with the
/// given connection.
pub open spec fn connected_by(
    devices: Seq<HidEntry>,
    force_bluetooth: bool,
    connection: Connection,
    n: int,
) -> Seq<usize>
    decreases n,
{
    if n <= 0 {
        Seq::empty()
    } else {
        let before = connected_by(devices, force_bluetooth, connection, n - 1);
        if pad_connection(devices[n - 1], force_bluetooth) == Some(connection) {
            before.push((n - 1) as usize)
        } else {
            before
        }
    }
}

/// All controllers, those on USB first.
pub open spec fn usb_first(devices: Seq<HidEntry>, force_bluetooth: bool) -> Seq<usize> {
    connected_by(devices, force_bluetooth, Connection::Usb, devices.len() as int) + connected_by(
        devices,
        force_bluetooth,
        Connection::Bluetooth,
        devices.len() as int,
    )
}

/// Whether two entries are the same physical controller, as far as one can
/// tell: both report the same serial number. A blank one tells nothing.
pub open spec fn same_pad(a: HidEntry, b: HidEntry) -> bool {
    a.serial is Some && b.serial is Some && a.serial->0@.len() > 0 && a.serial->0@ == b.serial->0@
}

/// Whether no earlier entry is the same physical controller.
pub open spec fn first_of_pad(devices: Seq<HidEntry>, order: Seq<usize>, k: int) -> bool {
    forall|j: int|
        0 <= j < k ==> !same_pad(devices[#[trigger] order[j] as int], devices[order[k] as int])
}

/// Whether an entry's controller already runs.
pub open spec fn is_running(d: HidEntry, running: Seq<Seq<char>>) -> bool {
    running.contains(d.path@)
}

/// Of the first `n` entries in the order, those to start: each physical
/// controller once, and none that already runs.
pub open spec fn startable(
    devices: Seq<HidEntry>,
    order: Seq<usize>,
    running: Seq<Seq<char>>,
    n: int,
) -> Seq<usize>
    decreases n,
{
    if n <= 0 {
        Seq::empty()
    } else {
        let before = startable(devices, order, running, n - 1);
        if first_of_pad(devices, order, n - 1) && !is_running(
            devices[order[n - 1] as int],
            running,
        ) {
            before.push(order[n - 1])
        } else {
            before
        }
    }
}

/// The positions of the controllers to start, in order.
pub open spec fn selected(
    devices: Seq<HidEntry>,
    force_bluetooth: bool,
    running: Seq<Seq<char>>,
) -> Seq<usize> {
    let order = usb_first(devices, force_bluetooth);
    startable(devices, order, running, order.len() as int)
}

fn list_connected(devices: &Vec<HidEntry>, force_bluetooth: bool, connection: Connection) -> (r: Vec<
    usize,
>)
    ensures
        r@ == connected_by(devices@, force_bluetooth, connection, devices@.len() as int),
{
    let mut r: Vec<usize> = Vec::new();
    let mut i: usize = 0;
    while i < devices.len()
        invariant
            i <= devices.len(),
            r@ == connected_by(devices@, force_bluetooth, connection, i as int),
        decreases devices.len() - i,
    {
        if let Some(c) = classify(&devices[i], force_bluetooth) {
            if c == connection {
                r.push(i);
            }
        }
        i = i + 1;
    }
    r
}

proof fn lemma_connected_range(
    devices: Seq<HidEntry>,
    force_bluetooth: bool,
    connection: Connection,
    n: int,
)
    requires
        0 <= n <= devices.len(),
        devices.len() <= usize::MAX,
    ensures
        forall|k: int|
            #![trigger connected_by(devices, force_bluetooth, connection, n)[k]]
            0 <= k < connected_by(devices, force_bluetooth, connection, n).len() ==> connected_by(
                devices,
                force_bluetooth,
                connection,
                n,
            )[k] < n && pad_connection(
                devices[connected_by(devices, force_bluetooth, connection, n)[k] as int],
                force_bluetooth,
            ) == Some(connection),
    decreases n,
{
    if n > 0 {
        lemma_connected_range(devices, force_bluetooth, connection, n - 1);
    }
}

fn is_same_pad(a: &HidEntry, b: &HidEntry) -> (r: bool)
    ensures
        r == same_pad(*a, *b),
{
    match (&a.serial, &b.serial) {
        (Some(x), Some(y)) => x.as_str().unicode_len() > 0 && same(x.as_str(), y.as_str()),
        _ => false,
    }
}

fn seen_before(devices: &Vec<HidEntry>, order: &Vec<usize>, k: usize) -> (r: bool)
    requires
        k < order.len(),
        forall|j: int| 0 <= j < order@.len() ==> (#[trigger] order@[j]) < devices@.len(),
    ensures
        r == !first_of_pad(devices@, order@, k as int),
{
    let mut j: usize = 0;
    while j < k
        invariant
            j <= k < order.len(),
            forall|n: int| 0 <= n < order@.len() ==> (#[trigger] order@[n]) < devices@.len(),
            forall|n: int|
                0 <= n < j ==> !same_pad(
                    devices@[#[trigger] order@[n] as int],
                    devices@[order@[k as int] as int],
                ),
        decreases k - j,
    {
        assert(order@[j as int] < devices@.len());
        assert(order@[k as int] < devices@.len());
        if is_same_pad(&devices[order[j]], &devices[order[k]]) {
            return true;
        }
        j = j + 1;
    }
    false
}

fn runs_already(path: &str, running: &Vec<String>) -> (r: bool)
    ensures
        r == crate::text::texts(running@).contains(path@),
{
    let mut i: usize = 0;
    while i < running.len()
        invariant
            i <= running.len(),
            forall|n: int| 0 <= n < i ==> #[trigger] running@[n]@ != path@,
        decreases running.len() - i,
    {
        if same(running[i].as_str(), path) {
            assert(crate::text::texts(running@)[i as int] == path@);
            return true;
        }
        i = i + 1;
    }
    proof {
        if crate::text::texts(running@).contains(path@) {
            let n = choose|n: int|
                0 <= n < running@.len() && crate::text::texts(running@)[n] == path@;
            assert(running@[n]@ == path@);
        }
    }
    false
}

/// Picks the controllers to start from the listed devices. `running` holds the
/// paths of those that already run.
pub fn enumerate_controllers(
    devices: &Vec<HidEntry>,
    force_bluetooth: bool,
    running: &Vec<String>,
) -> (r: Vec<usize>)
    ensures
        r@ == selected(devices@, force_bluetooth, crate::text::texts(running@)),
{
    let mut order: Vec<usize> = list_connected(devices, force_bluetooth, Connection::Usb);
    let mut others: Vec<usize> = list_connected(devices, force_bluetooth, Connection::Bluetooth);
    order.append(&mut others);
    let total: usize = devices.len();
    proof {
        lemma_connected_range(
            devices@,
            force_bluetooth,
            Connection::Usb,
            total as int,
        );
        lemma_connected_range(
            devices@,
            force_bluetooth,
            Connection::Bluetooth,
            total as int,
        );
    }
    let ghost paths = crate::text::texts(running@);
    let mut r: Vec<usize> = Vec::new();
    let mut k: usize = 0;
    while k < order.len()
        invariant
            k <= order.len(),
            paths == crate::text::texts(running@),
            forall|n: int| 0 <= n < order@.len() ==> (#[trigger] order@[n]) < devices@.len(),
            r@ == startable(devices@, order@, paths, k as int),
        decreases order.len() - k,
    {
        let at: usize = order[k];
        assert(order@[k as int] < devices@.len());
        if !seen_before(devices, &order, k) && !runs_already(devices[at].path.as_str(), running) {
            r.push(at);
        }
        k = k + 1;
    }
    r
}

/// What a selected controller is: a gamepad interface with a connection.
pub fn connection_of(d: &HidEntry) -> (r: Connection)
    ensures
        r == (if d.bus == Bus::Usb {
            Connection::Usb
        } else {
            Connection::Bluetooth
        }),
        forall|force: bool| #[trigger]
            pad_connection(*d, force) is Some ==> pad_connection(*d, force) == Some(r),
{
    match d.bus {
        Bus::Usb => Connection::Usb,
        _ => Connection::Bluetooth,
    }
}

/// Writes a controller's id: its serial number if it has one, else a number
/// that no other controller of this run gets.
pub fn controller_id(serial: Option<&str>, fallback_index: usize) -> (r: String)
    ensures
        serial is Some && serial->0@.len() > 0 ==> r@ == serial->0@,
        serial is None || serial->0@.len() == 0 ==> r@ == "ctrl"@ + crate::text::decimal(
            fallback_index as nat,
        ),
{
    match serial {
        Some(s) => if s.unicode_len() > 0 {
            s.to_owned()
        } else {
            fallback_id(fallback_index)
        },
        None => fallback_id(fallback_index),
    }
}

fn fallback_id(index: usize) -> (r: String)
    ensures
        r@ == "ctrl"@ + crate::text::decimal(index as nat),
{
    "ctrl".to_owned().concat(decimal_text(index as u64).as_str())
}

/// Whether an entry in the order is one to start.
spec fn starts(devices: Seq<HidEntry>, order: Seq<usize>, running: Seq<Seq<char>>, m: int) -> bool {
    first_of_pad(devices, order, m) && !is_running(devices[order[m] as int], running)
}

proof fn lemma_startable(
    devices: Seq<HidEntry>,
    order: Seq<usize>,
    running: Seq<Seq<char>>,
    n: int,
)
    requires
        0 <= n <= order.len(),
    ensures
        forall|k: int|
            0 <= k < startable(devices, order, running, n).len() ==> exists|m: int|
                0 <= m < n && starts(devices, order, running, m) && #[trigger] order[m]
                    == #[trigger] startable(devices, order, running, n)[k],
        forall|a: int, b: int|
            0 <= a < b < startable(devices, order, running, n).len() ==> !same_pad(
                devices[#[trigger] startable(devices, order, running, n)[a] as int],
                devices[#[trigger] startable(devices, order, running, n)[b] as int],
            ),
    decreases n,
{
    if n > 0 {
        lemma_startable(devices, order, running, n - 1);
        let before = startable(devices, order, running, n - 1);
        let now = startable(devices, order, running, n);
        assert forall|k: int| 0 <= k < now.len() implies exists|m: int|
            0 <= m < n && starts(devices, order, running, m) && #[trigger] order[m]
                == #[trigger] now[k] by {
            if k < before.len() {
                let m = choose|m: int|
                    0 <= m < n - 1 && starts(devices, order, running, m) && #[trigger] order[m]
                        == before[k];
                assert(order[m] == now[k]);
            } else {
                assert(starts(devices, order, running, n - 1));
                assert(order[n - 1] == now[k]);
            }
        }
        assert forall|a: int, b: int| 0 <= a < b < now.len() implies !same_pad(
            devices[#[trigger] now[a] as int],
            devices[#[trigger] now[b] as int],
        ) by {
            if b < before.len() {
                assert(before[a] == now[a] && before[b] == now[b]);
            } else {
                let m = choose|m: int|
                    0 <= m < n - 1 && starts(devices, order, running, m) && #[trigger] order[m]
                        == before[a];
                assert(first_of_pad(devices, order, n - 1));
                assert(order[m] == now[a]);
            }
        }
    }
}

/// Only controllers are started, and none that already runs.
pub proof fn law_started_is_a_new_pad(
    devices: Seq<HidEntry>,
    force_bluetooth: bool,
    running: Seq<Seq<char>>,
    a: int,
)
    requires
        devices.len() <= usize::MAX,
        0 <= a < selected(devices, force_bluetooth, running).len(),
    ensures
        ({
            let s = selected(devices, force_bluetooth, running);
            &&& s[a] < devices.len()
            &&& pad_connection(devices[s[a] as int], force_bluetooth) is Some
            &&& !is_running(devices[s[a] as int], running)
        }),
{
    let order = usb_first(devices, force_bluetooth);
    let n = order.len() as int;
    let s = startable(devices, order, running, n);
    lemma_startable(devices, order, running, n);
    let i = choose|m: int|
        0 <= m < n && starts(devices, order, running, m) && #[trigger] order[m] == s[a];
    assert(order[i] == s[a]);
    lemma_order_entry(devices, force_bluetooth, i);
}

/// No controller is started twice because it is visible over both transports.
pub proof fn law_each_pad_started_once(
    devices: Seq<HidEntry>,
    force_bluetooth: bool,
    running: Seq<Seq<char>>,
    a: int,
    b: int,
)
    requires
        0 <= a < b < selected(devices, force_bluetooth, running).len(),
    ensures
        !same_pad(
            devices[selected(devices, force_bluetooth, running)[a] as int],
            devices[selected(devices, force_bluetooth, running)[b] as int],
        ),
{
    let order = usb_first(devices, force_bluetooth);
    lemma_startable(devices, order, running, order.len() as int);
}

proof fn lemma_start_included(
    devices: Seq<HidEntry>,
    order: Seq<usize>,
    running: Seq<Seq<char>>,
    n: int,
    m: int,
)
    requires
        0 <= m < n <= order.len(),
        starts(devices, order, running, m),
    ensures
        startable(devices, order, running, n).contains(order[m]),
    decreases n,
{
    let before = startable(devices, order, running, n - 1);
    let now = startable(devices, order, running, n);
    if m == n - 1 {
        assert(now[before.len() as int] == order[m]);
    } else {
        lemma_start_included(devices, order, running, n - 1, m);
        let k = choose|k: int| 0 <= k < before.len() && before[k] == order[m];
        assert(now[k] == order[m]);
    }
}

/// Finds the first entry in the order for the pad of entry `m`.
proof fn lemma_first_entry(devices: Seq<HidEntry>, order: Seq<usize>, m: int) -> (f: int)
    requires
        0 <= m < order.len(),
    ensures
        0 <= f <= m,
        first_of_pad(devices, order, f),
        f == m || same_pad(devices[order[f] as int], devices[order[m] as int]),
    decreases m,
{
    if first_of_pad(devices, order, m) {
        m
    } else {
        let j = choose|j: int|
            0 <= j < m && same_pad(devices[#[trigger] order[j] as int], devices[order[m] as int]);
        lemma_first_entry(devices, order, j)
    }
}

/// Nothing is missed: a connected controller of which no entry already runs is
/// started, through this entry or another one of the same pad.
pub proof fn law_every_pad_is_started(
    devices: Seq<HidEntry>,
    force_bluetooth: bool,
    running: Seq<Seq<char>>,
    i: int,
)
    requires
        devices.len() <= usize::MAX,
        0 <= i < devices.len(),
        pad_connection(devices[i], force_bluetooth) is Some,
        !is_running(devices[i], running),
        forall|j: int|
            0 <= j < devices.len() && same_pad(#[trigger] devices[j], devices[i]) ==> !is_running(
                devices[j],
                running,
            ),
    ensures
        exists|k: int|
            0 <= k < selected(devices, force_bluetooth, running).len() && ({
                let at = #[trigger] selected(devices, force_bluetooth, running)[k] as int;
                at == i || same_pad(devices[at], devices[i])
            }),
{
    let order = usb_first(devices, force_bluetooth);
    let n = order.len() as int;
    let wired = connected_by(devices, force_bluetooth, Connection::Usb, devices.len() as int);
    let radio = connected_by(devices, force_bluetooth, Connection::Bluetooth, devices.len() as int);
    let m = if pad_connection(devices[i], force_bluetooth) == Some(Connection::Usb) {
        lemma_connected_complete(
            devices,
            force_bluetooth,
            Connection::Usb,
            devices.len() as int,
            i,
        );
        choose|m: int| 0 <= m < wired.len() && wired[m] == i as usize
    } else {
        lemma_connected_complete(
            devices,
            force_bluetooth,
            Connection::Bluetooth,
            devices.len() as int,
            i,
        );
        let b = choose|b: int| 0 <= b < radio.len() && radio[b] == i as usize;
        assert(order[wired.len() + b] == radio[b]);
        wired.len() + b
    };
    assert(order[m] == i as usize);
    let f = lemma_first_entry(devices, order, m);
    lemma_order_entry(devices, force_bluetooth, f);
    assert(starts(devices, order, running, f));
    lemma_start_included(devices, order, running, n, f);
    let s = startable(devices, order, running, n);
    let k = choose|k: int| 0 <= k < s.len() && s[k] == order[f];
    assert(selected(devices, force_bluetooth, running)[k] == order[f]);
}

proof fn lemma_order_entry(devices: Seq<HidEntry>, force_bluetooth: bool, m: int)
    requires
        devices.len() <= usize::MAX,
        0 <= m < usb_first(devices, force_bluetooth).len(),
    ensures
        usb_first(devices, force_bluetooth)[m] < devices.len(),
        pad_connection(
            devices[usb_first(devices, force_bluetooth)[m] as int],
            force_bluetooth,
        ) is Some,
{
    let usb = connected_by(devices, force_bluetooth, Connection::Usb, devices.len() as int);
    let bt = connected_by(devices, force_bluetooth, Connection::Bluetooth, devices.len() as int);
    lemma_connected_range(devices, force_bluetooth, Connection::Usb, devices.len() as int);
    lemma_connected_range(devices, force_bluetooth, Connection::Bluetooth, devices.len() as int);
    if m < usb.len() {
        assert(usb_first(devices, force_bluetooth)[m] == usb[m]);
    } else {
        assert(usb_first(devices, force_bluetooth)[m] == bt[m - usb.len()]);
    }
}

proof fn lemma_connected_complete(
    devices: Seq<HidEntry>,
    force_bluetooth: bool,
    connection: Connection,
    n: int,
    i: int,
)
    requires
        0 <= i < n <= devices.len(),
        devices.len() <= usize::MAX,
        pad_connection(devices[i], force_bluetooth) == Some(connection),
    ensures
        connected_by(devices, force_bluetooth, connection, n).contains(i as usize),
    decreases n,
{
    let before = connected_by(devices, force_bluetooth, connection, n - 1);
    if i == n - 1 {
        assert(before.push(i as usize)[before.len() as int] == i as usize);
    } else {
        lemma_connected_complete(devices, force_bluetooth, connection, n - 1, i);
        let k = choose|k: int| 0 <= k < before.len() && before[k] == i as usize;
        assert(connected_by(devices, force_bluetooth, connection, n)[k] == i as usize);
    }
}

/// USB is preferred: a controller that is visible over both transports is never
/// started over Bluetooth.
pub proof fn law_usb_is_preferred(
    devices: Seq<HidEntry>,
    force_bluetooth: bool,
    running: Seq<Seq<char>>,
    usb: int,
    bluetooth: int,
)
    requires
        devices.len() <= usize::MAX,
        0 <= usb < devices.len(),
        0 <= bluetooth < devices.len(),
        pad_connection(devices[usb], force_bluetooth) == Some(Connection::Usb),
        pad_connection(devices[bluetooth], force_bluetooth) == Some(Connection::Bluetooth),
        same_pad(devices[usb], devices[bluetooth]),
    ensures
        !selected(devices, force_bluetooth, running).contains(bluetooth as usize),
{
    let order = usb_first(devices, force_bluetooth);
    let n = order.len() as int;
    let s = startable(devices, order, running, n);
    let wired = connected_by(devices, force_bluetooth, Connection::Usb, devices.len() as int);
    let radio = connected_by(devices, force_bluetooth, Connection::Bluetooth, devices.len() as int);
    lemma_connected_range(devices, force_bluetooth, Connection::Usb, devices.len() as int);
    lemma_startable(devices, order, running, n);
    lemma_connected_complete(
        devices,
        force_bluetooth,
        Connection::Usb,
        devices.len() as int,
        usb,
    );
    let j = choose|j: int| 0 <= j < wired.len() && wired[j] == usb as usize;
    assert(order[j] == usb as usize);
    if s.contains(bluetooth as usize) {
        let k = choose|k: int| 0 <= k < s.len() && s[k] == bluetooth as usize;
        let m = choose|m: int|
            0 <= m < n && starts(devices, order, running, m) && #[trigger] order[m] == s[k];
        if m < wired.len() {
            assert(order[m] == wired[m]);
        }
        assert(j < m);
        assert(first_of_pad(devices, order, m));
        assert(!same_pad(devices[order[j] as int], devices[order[m] as int]));
    }
}

proof fn lemma_decimal_length(n: nat)
    ensures
        crate::text::decimal(n).len() >= 1,
    decreases n,
{
    if n >= 10 {
        lemma_decimal_length(n / 10);
    }
}

proof fn lemma_decimal_injective(a: nat, b: nat)
    requires
        crate::text::decimal(a) == crate::text::decimal(b),
    ensures
        a == b,
    decreases a,
{
    let x = crate::text::decimal(a);
    let y = crate::text::decimal(b);
    if a >= 10 {
        lemma_decimal_length(a / 10);
    }
    if b >= 10 {
        lemma_decimal_length(b / 10);
    }
    assert(x.last() == crate::text::digit(a % 10));
    assert(y.last() == crate::text::digit(b % 10));
    assert((x.last() as int) == 0x30 + a % 10);
    assert((y.last() as int) == 0x30 + b % 10);
    if a >= 10 && b >= 10 {
        assert(x.drop_last() =~= crate::text::decimal(a / 10));
        assert(y.drop_last() =~= crate::text::decimal(b / 10));
        lemma_decimal_injective(a / 10, b / 10);
    }
}

/// Two controllers without a serial number never get the same id, because each
/// gets an index of its own.
pub proof fn law_fallback_ids_differ(a: nat, b: nat)
    requires
        a != b,
    ensures
        "ctrl"@ + crate::text::decimal(a) != "ctrl"@ + crate::text::decimal(b),
{
    if "ctrl"@ + crate::text::decimal(a) == "ctrl"@ + crate::text::decimal(b) {
        let n = "ctrl"@.len() as int;
        assert(("ctrl"@ + crate::text::decimal(a)).skip(n) =~= crate::text::decimal(a));
        assert(("ctrl"@ + crate::text::decimal(b)).skip(n) =~= crate::text::decimal(b));
        lemma_decimal_injective(a, b);
    }
}

/// Whether a device is the gamepad interface of a DualShock 4: Sony's vendor id,
/// the product id of the pad, and the usage of a gamepad.
pub open spec fn is_gamepad_interface(d: HidEntry) -> bool {
    d.vendor_id == 0x054C && d.product_id == 0x09CC && d.usage_page == 1 && d.usage == 5
}

/// A device counts as a controller on the bus it sits on; controllers on USB do
/// not count while only Bluetooth is wanted.
pub proof fn law_bus_decides_the_connection(d: HidEntry, force_bluetooth: bool)
    ensures
        pad_connection(d, force_bluetooth) == Some(Connection::Usb) <==> is_gamepad_interface(d)
            && d.bus == Bus::Usb && !force_bluetooth,
        pad_connection(d, force_bluetooth) == Some(Connection::Bluetooth)
            <==> is_gamepad_interface(d) && d.bus == Bus::Bluetooth,
{
}

/// Two entries are taken for one pad exactly when both have a serial number, it is
/// not blank, and it is the same.
pub proof fn law_serial_tells_pads_apart(a: HidEntry, b: HidEntry)
    ensures
        same_pad(a, b) <==> (a.serial matches Some(x) && b.serial matches Some(y) && x@ == y@
            && x@.len() != 0),
        same_pad(a, b) == same_pad(b, a),
{
}

/// What is started is new: its path is not among those that run, and no two of
/// the entries that are started share a serial number.
pub proof fn law_started_pads_are_distinct(
    devices: Seq<HidEntry>,
    force_bluetooth: bool,
    running: Seq<Seq<char>>,
    a: int,
    b: int,
)
    requires
        devices.len() <= usize::MAX,
        0 <= a < b < selected(devices, force_bluetooth, running).len(),
    ensures
        ({
            let s = selected(devices, force_bluetooth, running);
            let x = devices[s[a] as int];
            let y = devices[s[b] as int];
            &&& !running.contains(x.path@) && !running.contains(y.path@)
            &&& is_gamepad_interface(x) && is_gamepad_interface(y)
            &&& (x.serial matches Some(p) ==> y.serial matches Some(q) ==> p@ != q@ || p@.len() == 0)
        }),
{
    law_started_is_a_new_pad(devices, force_bluetooth, running, a);
    law_started_is_a_new_pad(devices, force_bluetooth, running, b);
    law_each_pad_started_once(devices, force_bluetooth, running, a, b);
}

/// Controllers are started in order: those on USB before those on Bluetooth, and
/// on each bus as the system lists them.
pub proof fn law_usb_is_started_first(
    devices: Seq<HidEntry>,
    force_bluetooth: bool,
    running: Seq<Seq<char>>,
    a: int,
    b: int,
)
    requires
        devices.len() <= usize::MAX,
        0 <= a < b < selected(devices, force_bluetooth, running).len(),
    ensures
        ({
            let s = selected(devices, force_bluetooth, running);
            &&& devices[s[b] as int].bus == Bus::Usb ==> devices[s[a] as int].bus == Bus::Usb
            &&& devices[s[a] as int].bus == devices[s[b] as int].bus ==> s[a] < s[b]
        }),
{
    let order = usb_first(devices, force_bluetooth);
    let n = order.len() as int;
    let (i, j) = lemma_startable_order(devices, order, running, n, a, b);
    lemma_usb_first_order(devices, force_bluetooth, i, j);
}

proof fn lemma_startable_order(
    devices: Seq<HidEntry>,
    order: Seq<usize>,
    running: Seq<Seq<char>>,
    n: int,
    a: int,
    b: int,
) -> (r: (int, int))
    requires
        0 <= n <= order.len(),
        0 <= a < b < startable(devices, order, running, n).len(),
    ensures
        0 <= r.0 < r.1 < n,
        order[r.0] == startable(devices, order, running, n)[a],
        order[r.1] == startable(devices, order, running, n)[b],
    decreases n,
{
    let before = startable(devices, order, running, n - 1);
    let now = startable(devices, order, running, n);
    if n <= 0 {
        (0, 0)
    } else if b < before.len() {
        assert(now[a] == before[a] && now[b] == before[b]);
        lemma_startable_order(devices, order, running, n - 1, a, b)
    } else {
        assert(now[a] == before[a]);
        assert(now[b] == order[n - 1]);
        lemma_startable(devices, order, running, n - 1);
        let i = choose|m: int|
            0 <= m < n - 1 && starts(devices, order, running, m) && #[trigger] order[m] == before[a];
        (i, n - 1)
    }
}

proof fn lemma_usb_first_order(devices: Seq<HidEntry>, force_bluetooth: bool, i: int, j: int)
    requires
        devices.len() <= usize::MAX,
        0 <= i < j < usb_first(devices, force_bluetooth).len(),
    ensures
        ({
            let order = usb_first(devices, force_bluetooth);
            let x = devices[order[i] as int];
            let y = devices[order[j] as int];
            &&& y.bus == Bus::Usb ==> x.bus == Bus::Usb
            &&& x.bus == y.bus ==> order[i] < order[j]
        }),
{
    let total = devices.len() as int;
    let order = usb_first(devices, force_bluetooth);
    let wired = connected_by(devices, force_bluetooth, Connection::Usb, total);
    let radio = connected_by(devices, force_bluetooth, Connection::Bluetooth, total);
    lemma_connected_range(devices, force_bluetooth, Connection::Usb, total);
    lemma_connected_range(devices, force_bluetooth, Connection::Bluetooth, total);
    lemma_connected_ascends(devices, force_bluetooth, Connection::Usb, total);
    lemma_connected_ascends(devices, force_bluetooth, Connection::Bluetooth, total);
    if j < wired.len() {
        assert(order[i] == wired[i] && order[j] == wired[j]);
    } else if i >= wired.len() {
        assert(order[i] == radio[i - wired.len()] && order[j] == radio[j - wired.len()]);
    } else {
        assert(order[i] == wired[i] && order[j] == radio[j - wired.len()]);
    }
}

proof fn lemma_connected_ascends(
    devices: Seq<HidEntry>,
    force_bluetooth: bool,
    connection: Connection,
    n: int,
)
    requires
        0 <= n <= devices.len(),
        devices.len() <= usize::MAX,
    ensures
        forall|i: int, j: int|
            0 <= i < j < connected_by(devices, force_bluetooth, connection, n).len()
                ==> #[trigger] connected_by(devices, force_bluetooth, connection, n)[i]
                < #[trigger] connected_by(devices, force_bluetooth, connection, n)[j],
    decreases n,
{
    if n > 0 {
        lemma_connected_ascends(devices, force_bluetooth, connection, n - 1);
        lemma_connected_range(devices, force_bluetooth, connection, n - 1);
        let before = connected_by(devices, force_bluetooth, connection, n - 1);
        let now = connected_by(devices, force_bluetooth, connection, n);
        assert forall|i: int, j: int| 0 <= i < j < now.len() implies #[trigger] now[i]
            < #[trigger] now[j] by {
            if j < before.len() {
                assert(before[i] == now[i] && before[j] == now[j]);
            } else {
                assert(before[i] == now[i]);
                assert(before[i] < n - 1);
            }
        }
    }
}

/// Of several entries of one pad on the same bus, the first one that is listed
/// stands for it.
pub proof fn law_first_entry_stands_for_the_pad(
    devices: Seq<HidEntry>,
    force_bluetooth: bool,
    running: Seq<Seq<char>>,
    i: int,
    j: int,
)
    requires
        devices.len() <= usize::MAX,
        0 <= i < j < devices.len(),
        pad_connection(devices[i], force_bluetooth) is Some,
        pad_connection(devices[j], force_bluetooth) == pad_connection(devices[i], force_bluetooth),
        same_pad(devices[i], devices[j]),
    ensures
        !selected(devices, force_bluetooth, running).contains(j as usize),
{
    let order = usb_first(devices, force_bluetooth);
    let n = order.len() as int;
    let s = startable(devices, order, running, n);
    lemma_startable(devices, order, running, n);
    if s.contains(j as usize) {
        let k = choose|k: int| 0 <= k < s.len() && s[k] == j as usize;
        let m = choose|m: int|
            0 <= m < n && starts(devices, order, running, m) && #[trigger] order[m] == s[k];
        let p = lemma_place_in_order(devices, force_bluetooth, i);
        if m <= p {
            if m < p {
                lemma_usb_first_order(devices, force_bluetooth, m, p);
            }
        } else {
            assert(first_of_pad(devices, order, m));
            assert(!same_pad(devices[order[p] as int], devices[order[m] as int]));
        }
    }
}

proof fn lemma_place_in_order(devices: Seq<HidEntry>, force_bluetooth: bool, i: int) -> (m: int)
    requires
        devices.len() <= usize::MAX,
        0 <= i < devices.len(),
        pad_connection(devices[i], force_bluetooth) is Some,
    ensures
        0 <= m < usb_first(devices, force_bluetooth).len(),
        usb_first(devices, force_bluetooth)[m] == i as usize,
{
    let total = devices.len() as int;
    let order = usb_first(devices, force_bluetooth);
    let wired = connected_by(devices, force_bluetooth, Connection::Usb, total);
    let radio = connected_by(devices, force_bluetooth, Connection::Bluetooth, total);
    if pad_connection(devices[i], force_bluetooth) == Some(Connection::Usb) {
        lemma_connected_complete(devices, force_bluetooth, Connection::Usb, total, i);
        let m = choose|m: int| 0 <= m < wired.len() && wired[m] == i as usize;
        assert(order[m] == wired[m]);
        m
    } else {
        lemma_connected_complete(devices, force_bluetooth, Connection::Bluetooth, total, i);
        let b = choose|b: int| 0 <= b < radio.len() && radio[b] == i as usize;
        assert(order[wired.len() + b] == radio[b]);
        wired.len() + b
    }
}

} // verus!
