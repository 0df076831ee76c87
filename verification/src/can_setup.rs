//! Finding CAN interfaces: what a line of the system's interface listing
//! says, and the speed codes of serial-line adapters.

use vstd::prelude::*;
use vstd::slice::slice_subrange;

verus! {

/// Kind of a CAN interface.
#[derive(Clone, Copy, Debug, PartialEq, Eq, Structural)]
pub enum InterfaceType {
    /// Hardware interface, `can0`.
    Hardware,
    /// Virtual interface, `vcan0`.
    Virtual,
    /// Serial-line interface, `slcan0`.
    Slcan,
}

/// A serial device that may be a USB CAN adapter.
#[derive(Clone, Debug)]
pub struct UsbCanDevice {
    pub device_path: String,
    pub description: String,
}

/// A CAN interface of the system.
#[derive(Clone, Debug)]
pub struct CanInterface {
    pub name: String,
    pub is_up: bool,
    pub interface_type: InterfaceType,
}

/// What a line of the interface listing says of a CAN interface: where in
/// the line its name stands, whether it is up, and its kind.
#[derive(Clone, Copy, Debug, PartialEq, Eq, Structural)]
pub struct LinkLine {
    /// Index of the first byte of the name.
    pub name_start: usize,
    /// Index behind the last byte of the name.
    pub name_end: usize,
    pub is_up: bool,
    pub interface_type: InterfaceType,
}

/// The byte that separates the fields of a listing line.
pub const COLON: u8 = 0x3a;

/// Index of the first `b` in `s` at or after `from`; the length of `s` if
/// there is none.
pub open spec fn first_at(s: Seq<u8>, from: int, b: u8) -> int
    decreases s.len() - from,
{
    if from >= s.len() {
        s.len() as int
    } else if s[from] == b {
        from
    } else {
        first_at(s, from + 1, b)
    }
}

/// Space, tab, line feed, vertical tab, form feed, carriage return.
pub open spec fn is_space(b: u8) -> bool {
    b == 0x20 || (0x09 <= b <= 0x0d)
}

/// Index of the first byte in `from..to` that is no space; `to` if all are.
pub open spec fn skip_spaces(s: Seq<u8>, from: int, to: int) -> int
    decreases to - from,
{
    if from >= to {
        to
    } else if is_space(s[from]) {
        skip_spaces(s, from + 1, to)
    } else {
        from
    }
}

/// Index behind the last byte in `from..to` that is no space; `from` if all
/// are.
pub open spec fn drop_spaces(s: Seq<u8>, from: int, to: int) -> int
    decreases to - from,
{
    if to <= from {
        from
    } else if is_space(s[to - 1]) {
        drop_spaces(s, from, to - 1)
    } else {
        to
    }
}

/// Whether `s` holds the letters `UP` anywhere.
pub open spec fn has_up(s: Seq<u8>) -> bool {
    exists|k: int| 0 <= k && k + 1 < s.len() && s[k] == 0x55 && #[trigger] s[k + 1] == 0x50
}

/// `can`
pub open spec fn can_prefix() -> Seq<u8> {
    seq![0x63, 0x61, 0x6e]
}

/// `vcan`
pub open spec fn vcan_prefix() -> Seq<u8> {
    seq![0x76, 0x63, 0x61, 0x6e]
}

/// `slcan`
pub open spec fn slcan_prefix() -> Seq<u8> {
    seq![0x73, 0x6c, 0x63, 0x61, 0x6e]
}

/// Whether `name` begins with `prefix`.
pub open spec fn starts_with(name: Seq<u8>, prefix: Seq<u8>) -> bool {
    name.len() >= prefix.len() && name.subrange(0, prefix.len() as int) == prefix
}

/// Kind of the interface named `name`, `None` for a name of no CAN
/// interface.
pub open spec fn kind_of(name: Seq<u8>) -> Option<InterfaceType> {
    if starts_with(name, vcan_prefix()) {
        Some(InterfaceType::Virtual)
    } else if starts_with(name, slcan_prefix()) {
        Some(InterfaceType::Slcan)
    } else if starts_with(name, can_prefix()) {
        Some(InterfaceType::Hardware)
    } else {
        None
    }
}

/// What a line of the listing says. The name stands between the first and
/// the second colon, without the spaces around it; a line with fewer than
/// two colons, or with the name of no CAN interface, says nothing.
pub open spec fn link_line_of(line: Seq<u8>) -> Option<LinkLine> {
    let c1 = first_at(line, 0, COLON);
    let c2 = first_at(line, c1 + 1, COLON);
    if c1 >= line.len() || c2 >= line.len() {
        None
    } else {
        let start = skip_spaces(line, c1 + 1, c2);
        let end = drop_spaces(line, start, c2);
        match kind_of(line.subrange(start, end)) {
            Some(interface_type) => Some(
                LinkLine {
                    name_start: start as usize,
                    name_end: end as usize,
                    is_up: has_up(line),
                    interface_type,
                },
            ),
            None => None,
        }
    }
}

/// Speed code of a serial-line adapter for a bit rate, for the nine rates
/// that such adapters know.
pub open spec fn speed_code(bitrate: u32) -> Option<u8> {
    if bitrate == 10000 {
        Some(0)
    } else if bitrate == 20000 {
        Some(1)
    } else if bitrate == 50000 {
        Some(2)
    } else if bitrate == 100000 {
        Some(3)
    } else if bitrate == 125000 {
        Some(4)
    } else if bitrate == 250000 {
        Some(5)
    } else if bitrate == 500000 {
        Some(6)
    } else if bitrate == 800000 {
        Some(7)
    } else if bitrate == 1000000 {
        Some(8)
    } else {
        None
    }
}

/// Speed code of a serial-line adapter for `bitrate`.
pub fn slcan_speed_param(bitrate: u32) -> (code: Option<u8>)
    ensures
        code == speed_code(bitrate),
{
    if bitrate == 10000 {
        Some(0)
    } else if bitrate == 20000 {
        Some(1)
    } else if bitrate == 50000 {
        Some(2)
    } else if bitrate == 100000 {
        Some(3)
    } else if bitrate == 125000 {
        Some(4)
    } else if bitrate == 250000 {
        Some(5)
    } else if bitrate == 500000 {
        Some(6)
    } else if bitrate == 800000 {
        Some(7)
    } else if bitrate == 1000000 {
        Some(8)
    } else {
        None
    }
}

fn find_byte(data: &[u8], from: usize, b: u8) -> (i: usize)
    requires
        from <= data@.len(),
    ensures
        i == first_at(data@, from as int, b),
        from <= i <= data@.len(),
{
    let mut i = from;
    while i < data.len()
        invariant
            from <= i <= data@.len(),
            first_at(data@, from as int, b) == first_at(data@, i as int, b),
        decreases data@.len() - i,
    {
        if data[i] == b {
            return i;
        }
        i = i + 1;
    }
    i
}

fn space(b: u8) -> (r: bool)
    ensures
        r == is_space(b),
{
    b == 0x20 || (0x09 <= b && b <= 0x0d)
}

fn trim_start(data: &[u8], from: usize, to: usize) -> (i: usize)
    requires
        from <= to <= data@.len(),
    ensures
        i == skip_spaces(data@, from as int, to as int),
        from <= i <= to,
{
    let mut i = from;
    while i < to
        invariant
            from <= i <= to <= data@.len(),
            skip_spaces(data@, from as int, to as int) == skip_spaces(data@, i as int, to as int),
        decreases to - i,
    {
        if !space(data[i]) {
            return i;
        }
        i = i + 1;
    }
    i
}

fn trim_end(data: &[u8], from: usize, to: usize) -> (e: usize)
    requires
        from <= to <= data@.len(),
    ensures
        e == drop_spaces(data@, from as int, to as int),
        from <= e <= to,
{
    let mut e = to;
    while e > from
        invariant
            from <= e <= to <= data@.len(),
            drop_spaces(data@, from as int, to as int) == drop_spaces(data@, from as int, e as int),
        decreases e - from,
    {
        if !space(data[e - 1]) {
            return e;
        }
        e = e - 1;
    }
    e
}

fn contains_up(data: &[u8]) -> (r: bool)
    ensures
        r == has_up(data@),
{
    let n = data.len();
    if n < 2 {
        return false;
    }
    let mut k: usize = 0;
    while k + 1 < n
        invariant
            n == data@.len(),
            k + 1 <= n,
            forall|j: int|
                0 <= j < k ==> !(data@[j] == 0x55 && #[trigger] data@[j + 1] == 0x50),
        decreases n - k,
    {
        if data[k] == 0x55 && data[k + 1] == 0x50 {
            return true;
        }
        k = k + 1;
    }
    false
}


fn has_prefix(data: &[u8], start: usize, end: usize, prefix: &[u8]) -> (r: bool)
    requires
        start <= end <= data@.len(),
    ensures
        r == starts_with(data@.subrange(start as int, end as int), prefix@),
{
    let ghost name = data@.subrange(start as int, end as int);
    let n = prefix.len();
    if end - start < n {
        return false;
    }
    let mut i: usize = 0;
    while i < n
        invariant
            start <= end <= data@.len(),
            n == prefix@.len(),
            n <= end - start,
            i <= n,
            name == data@.subrange(start as int, end as int),
            forall|j: int| 0 <= j < i ==> name[j] == prefix@[j],
        decreases n - i,
    {
        if data[start + i] != prefix[i] {
            assert(name.subrange(0, n as int)[i as int] != prefix@[i as int]);
            return false;
        }
        i = i + 1;
    }
    assert(name.subrange(0, n as int) =~= prefix@);
    true
}

/// Kind of the interface whose name stands in `data` from `start` up to
/// `end`.
fn name_kind(data: &[u8], start: usize, end: usize) -> (kind: Option<InterfaceType>)
    requires
        start <= end <= data@.len(),
    ensures
        kind == kind_of(data@.subrange(start as int, end as int)),
{
    let vcan: [u8; 4] = [0x76, 0x63, 0x61, 0x6e];
    let slcan: [u8; 5] = [0x73, 0x6c, 0x63, 0x61, 0x6e];
    let can: [u8; 3] = [0x63, 0x61, 0x6e];
    assert(vcan@ =~= vcan_prefix());
    assert(slcan@ =~= slcan_prefix());
    assert(can@ =~= can_prefix());
    if has_prefix(data, start, end, vcan.as_slice()) {
        Some(InterfaceType::Virtual)
    } else if has_prefix(data, start, end, slcan.as_slice()) {
        Some(InterfaceType::Slcan)
    } else if has_prefix(data, start, end, can.as_slice()) {
        Some(InterfaceType::Hardware)
    } else {
        None
    }
}

/// Kind of the interface named `name`, `None` for a name of no CAN
/// interface.
pub fn interface_type_of(name: &[u8]) -> (kind: Option<InterfaceType>)
    ensures
        kind == kind_of(name@),
{
    let n = name.len();
    assert(name@.subrange(0, n as int) =~= name@);
    name_kind(name, 0, n)
}

/// Reads one line of the interface listing.
pub fn parse_link_line(line: &[u8]) -> (r: Option<LinkLine>)
    ensures
        r == link_line_of(line@),
        r matches Some(l) ==> l.name_start <= l.name_end <= line@.len(),
{
    let n = line.len();
    let c1 = find_byte(line, 0, COLON);
    if c1 >= n {
        return None;
    }
    let c2 = find_byte(line, c1 + 1, COLON);
    if c2 >= n {
        return None;
    }
    let start = trim_start(line, c1 + 1, c2);
    let end = trim_end(line, start, c2);
    match name_kind(line, start, end) {
        Some(interface_type) => Some(
            LinkLine { name_start: start, name_end: end, is_up: contains_up(line), interface_type },
        ),
        None => None,
    }
}

/// Whether the first interface named `name` in `interfaces` is up; `false`
/// when none has that name.
pub open spec fn up_in(interfaces: Seq<CanInterface>, name: Seq<char>) -> bool
    decreases interfaces.len(),
{
    if interfaces.len() == 0 {
        false
    } else if interfaces[0].name@ == name {
        interfaces[0].is_up
    } else {
        up_in(interfaces.subrange(1, interfaces.len() as int), name)
    }
}

/// Whether the interface named `interface_name` is up, among the
/// interfaces found.
pub fn is_interface_up(interfaces: &Vec<CanInterface>, interface_name: &String) -> (up: bool)
    ensures
        up == up_in(interfaces@, interface_name@),
{
    let mut i: usize = 0;
    assert(interfaces@.subrange(0, interfaces@.len() as int) =~= interfaces@);
    while i < interfaces.len()
        invariant
            i <= interfaces@.len(),
            up_in(interfaces@, interface_name@) == up_in(
                interfaces@.subrange(i as int, interfaces@.len() as int),
                interface_name@,
            ),
        decreases interfaces@.len() - i,
    {
        let ghost rest = interfaces@.subrange(i as int, interfaces@.len() as int);
        assert(rest[0] == interfaces@[i as int]);
        assert(rest.subrange(1, rest.len() as int) =~= interfaces@.subrange(
            i as int + 1,
            interfaces@.len() as int,
        ));
        if interfaces[i].name == *interface_name {
            return interfaces[i].is_up;
        }
        i = i + 1;
    }
    false
}


/// The byte that ends a line of the listing.
pub const LINE_FEED: u8 = 0x0a;

/// A link line whose name indices count from `from` on.
pub open spec fn shifted(l: LinkLine, from: int) -> LinkLine {
    LinkLine {
        name_start: (l.name_start + from) as usize,
        name_end: (l.name_end + from) as usize,
        ..l
    }
}

/// What the lines of `listing` from index `from` on say of CAN interfaces,
/// in their order, the names by their indices in the listing. A line ends
/// at a line feed or at the end of the listing.
pub open spec fn links_from(listing: Seq<u8>, from: int) -> Seq<LinkLine>
    decreases listing.len() - from,
{
    if from < 0 || from >= listing.len() {
        Seq::<LinkLine>::empty()
    } else {
        let end = first_at(listing, from, LINE_FEED);
        let rest = if from <= end < listing.len() {
            links_from(listing, end + 1)
        } else {
            Seq::<LinkLine>::empty()
        };
        match link_line_of(listing.subrange(from, end)) {
            Some(l) => seq![shifted(l, from)] + rest,
            None => rest,
        }
    }
}

/// Reads the interface listing of the system: what each of its lines says
/// of a CAN interface.
pub fn detect_can_interfaces(listing: &[u8]) -> (links: Vec<LinkLine>)
    ensures
        links@ == links_from(listing@, 0),
{
    let n = listing.len();
    let mut links: Vec<LinkLine> = Vec::new();
    let mut from: usize = 0;
    while from < n
        invariant
            n == listing@.len(),
            from <= n,
            links@ + links_from(listing@, from as int) == links_from(listing@, 0),
        decreases n - from,
    {
        let end = find_byte(listing, from, LINE_FEED);
        let line = slice_subrange(listing, from, end);
        let ghost before = links@;
        match parse_link_line(line) {
            Some(l) => {
                links.push(
                    LinkLine {
                        name_start: l.name_start + from,
                        name_end: l.name_end + from,
                        is_up: l.is_up,
                        interface_type: l.interface_type,
                    },
                );
                assert(links@ =~= before + seq![shifted(l, from as int)]);
                assert(links@ + links_from(listing@, end as int + 1) =~= before + (seq![
                    shifted(l, from as int),
                ] + links_from(listing@, end as int + 1)));
            },
            None => {},
        }
        if end < n {
            from = end + 1;
        } else {
            from = n;
        }
    }
    assert(links_from(listing@, from as int) =~= Seq::<LinkLine>::empty());
    assert(links@ + Seq::<LinkLine>::empty() =~= links@);
    links
}

} // verus!
