//! Discovery replies of network sonars, and the sources they lead to.
use crate::source::{Ipv4Address, SourceSelection, SourceUdpStruct};
use vstd::prelude::*;
use vstd::std_specs::iter::IteratorSpec;
use vstd::string::*;

verus! {

/// The UDP port on which a discovered sonar serves its protocol.
pub const DISCOVERED_DEVICE_PORT: u16 = 12345;

/// A parsed reply to a network discovery probe.
#[derive(Debug, PartialEq)]
pub struct DiscoveryResponse {
    pub device_name: String,
    pub manufacturer: String,
    pub mac_address: String,
    pub ip_address: Ipv4Address,
}

/// Characters with the Unicode `White_Space` property.
pub open spec fn spec_is_white_space(c: char) -> bool {
    let u = c as u32;
    (0x09 <= u <= 0x0d) || u == 0x20 || u == 0x85 || u == 0xa0 || u == 0x1680 || (0x2000 <= u
        <= 0x200a) || u == 0x2028 || u == 0x2029 || u == 0x202f || u == 0x205f || u == 0x3000
}

pub open spec fn spec_is_digit(c: char) -> bool {
    '0' <= c <= '9'
}

/// Characters of a MAC address as the reply writes it: hex digits and dashes.
pub open spec fn spec_is_mac_char(c: char) -> bool {
    ('0' <= c <= '9') || ('a' <= c <= 'f') || ('A' <= c <= 'F') || c == '-'
}

/// The classes of characters that the reply's fields are made of.
#[derive(Clone, Copy, Debug, PartialEq, Eq, Structural)]
pub enum CharClass {
    Space,
    Digit,
    Mac,
}

pub open spec fn spec_in_class(c: char, k: CharClass) -> bool {
    match k {
        CharClass::Space => spec_is_white_space(c),
        CharClass::Digit => spec_is_digit(c),
        CharClass::Mac => spec_is_mac_char(c),
    }
}

/// The end of the longest run of characters of class `k` that starts at `from`.
pub open spec fn spec_run_end(t: Seq<char>, from: int, k: CharClass) -> int
    decreases t.len() - from,
{
    if 0 <= from < t.len() && spec_in_class(t[from], k) {
        spec_run_end(t, from + 1, k)
    } else {
        from
    }
}

/// The index of the first line feed at or after `from`, or the length of `t`.
pub open spec fn spec_find_newline(t: Seq<char>, from: int) -> int
    decreases t.len() - from,
{
    if 0 <= from < t.len() && t[from] != '\n' {
        spec_find_newline(t, from + 1)
    } else {
        from
    }
}

/// `t` holds `lit` at `pos`.
pub open spec fn spec_has_at(t: Seq<char>, pos: int, lit: Seq<char>) -> bool {
    0 <= pos && pos + lit.len() <= t.len() && t.subrange(pos, pos + lit.len()) == lit
}

/// `s` without the white space at either end.
pub open spec fn spec_trim(s: Seq<char>) -> Seq<char> {
    let a = spec_run_end(s, 0, CharClass::Space);
    let b = spec_trim_end(s, s.len() as int);
    if a >= b {
        Seq::empty()
    } else {
        s.subrange(a, b)
    }
}

/// The end of `s.subrange(0, to)` once trailing white space is dropped.
pub open spec fn spec_trim_end(s: Seq<char>, to: int) -> int
    decreases to,
{
    if 0 < to <= s.len() && spec_is_white_space(s[to - 1]) {
        spec_trim_end(s, to - 1)
    } else {
        to
    }
}

/// The decimal value of a string of digits.
pub open spec fn spec_decimal(d: Seq<char>) -> nat
    decreases d.len(),
{
    if d.len() == 0 {
        0
    } else {
        spec_decimal(d.drop_last()) * 10 + (d.last() as nat - '0' as nat) as nat
    }
}

/// One octet of the address line: a run of digits of which up to two leading
/// zeros are padding (as long as a digit remains), leaving one to three
/// digits that read as a number up to 255, with no leading zero of their own.
pub open spec fn spec_octet(d: Seq<char>) -> Option<u8> {
    let pad: int = if d.len() >= 3 && d[0] == '0' && d[1] == '0' {
        2
    } else if d.len() >= 2 && d[0] == '0' {
        1
    } else {
        0
    };
    let o = d.subrange(pad, d.len() as int);
    if 1 <= o.len() <= 3 && (o.len() == 1 || o[0] != '0') && spec_decimal(o) <= 255 {
        Some(spec_decimal(o) as u8)
    } else {
        None
    }
}

/// The fields of a well-formed discovery reply: name, manufacturer, MAC
/// address and the four octets of the IP address.
pub struct DiscoveryFields {
    pub name: Seq<char>,
    pub manufacturer: Seq<char>,
    pub mac: Seq<char>,
    pub ip: Ipv4Address,
}

/// The first two lines of a reply: the line feeds ending the device name and
/// the manufacturer, each line holding at least one character before its
/// CR LF.
pub open spec fn spec_header(t: Seq<char>) -> Option<(int, int)> {
    let n1 = spec_find_newline(t, 0);
    let n2 = spec_find_newline(t, n1 + 1);
    if n2 < t.len() && n1 >= 2 && t[n1 - 1] == '\r' && n2 >= n1 + 3 && t[n2 - 1] == '\r' {
        Some((n1, n2))
    } else {
        None
    }
}

pub open spec fn spec_address_word() -> Seq<char> {
    seq!['A', 'd', 'd', 'r', 'e', 's', 's', ':', '-']
}

/// The MAC line starting at `p`: `MAC`, a white space, `Address:-`, a white
/// space, one or more MAC characters, CR LF. Gives the end of the address.
pub open spec fn spec_mac_line(t: Seq<char>, p: int) -> Option<int> {
    let m_end = spec_run_end(t, p + 14, CharClass::Mac);
    if spec_has_at(t, p, seq!['M', 'A', 'C']) && p + 14 <= t.len() && spec_is_white_space(t[p + 3])
        && spec_has_at(t, p + 4, spec_address_word()) && spec_is_white_space(t[p + 13]) && m_end
        > p + 14 && spec_has_at(t, m_end, seq!['\r', '\n']) {
        Some(m_end)
    } else {
        None
    }
}

/// The IP line starting at `q`, which must end the text: `IP`, a white space,
/// `Address:-`, any white space, four runs of digits separated by dots, CR LF.
/// Gives where the first run starts and where each run ends.
pub open spec fn spec_ip_line(t: Seq<char>, q: int) -> Option<(int, int, int, int, int)> {
    let s1 = spec_run_end(t, q + 12, CharClass::Space);
    let e1 = spec_run_end(t, s1, CharClass::Digit);
    let e2 = spec_run_end(t, e1 + 1, CharClass::Digit);
    let e3 = spec_run_end(t, e2 + 1, CharClass::Digit);
    let e4 = spec_run_end(t, e3 + 1, CharClass::Digit);
    if spec_has_at(t, q, seq!['I', 'P']) && q + 12 <= t.len() && spec_is_white_space(t[q + 2])
        && spec_has_at(t, q + 3, spec_address_word()) && e1 > s1 && spec_has_at(t, e1, seq!['.'])
        && e2 > e1 + 1 && spec_has_at(t, e2, seq!['.']) && e3 > e2 + 1 && spec_has_at(
        t,
        e3,
        seq!['.'],
    ) && e4 > e3 + 1 && spec_has_at(t, e4, seq!['\r', '\n']) && e4 + 2 == t.len() {
        Some((s1, e1, e2, e3, e4))
    } else {
        None
    }
}

/// The reading of a discovery reply. A reply is exactly four lines, each
/// ended by CR LF:
///
/// - the device name (one or more characters, no line feed);
/// - the manufacturer (likewise);
/// - `MAC`, a white space, `Address:-`, a white space, then one or more hex
///   digits or dashes;
/// - `IP`, a white space, `Address:-`, any white space, then four runs of
///   digits separated by dots, each an octet as `spec_octet` reads it.
///
/// Name and manufacturer are given trimmed of white space. `None` when the
/// text is not of this form or an octet is out of range.
pub open spec fn spec_parse_discovery(t: Seq<char>) -> Option<DiscoveryFields> {
    match spec_header(t) {
        None => None,
        Some((n1, n2)) => match spec_mac_line(t, n2 + 1) {
            None => None,
            Some(m_end) => match spec_ip_line(t, m_end + 2) {
                None => None,
                Some((s1, e1, e2, e3, e4)) => {
                    let o1 = spec_octet(t.subrange(s1, e1));
                    let o2 = spec_octet(t.subrange(e1 + 1, e2));
                    let o3 = spec_octet(t.subrange(e2 + 1, e3));
                    let o4 = spec_octet(t.subrange(e3 + 1, e4));
                    if o1 is Some && o2 is Some && o3 is Some && o4 is Some {
                        Some(
                            DiscoveryFields {
                                name: spec_trim(t.subrange(0, n1 - 1)),
                                manufacturer: spec_trim(t.subrange(n1 + 1, n2 - 1)),
                                mac: t.subrange(n2 + 15, m_end),
                                ip: Ipv4Address(o1->0, o2->0, o3->0, o4->0),
                            },
                        )
                    } else {
                        None
                    }
                },
            },
        },
    }
}

fn in_class(c: char, k: CharClass) -> (r: bool)
    ensures
        r == spec_in_class(c, k),
{
    let u = c as u32;
    match k {
        CharClass::Space => (0x09 <= u && u <= 0x0d) || u == 0x20 || u == 0x85 || u == 0xa0 || u
            == 0x1680 || (0x2000 <= u && u <= 0x200a) || u == 0x2028 || u == 0x2029 || u == 0x202f
            || u == 0x205f || u == 0x3000,
        CharClass::Digit => '0' <= c && c <= '9',
        CharClass::Mac => ('0' <= c && c <= '9') || ('a' <= c && c <= 'f') || ('A' <= c && c
            <= 'F') || c == '-',
    }
}

fn run_end(t: &Vec<char>, from: usize, k: CharClass) -> (r: usize)
    ensures
        r as int == spec_run_end(t@, from as int, k),
        from <= r,
        from <= t@.len() ==> r <= t@.len(),
        forall|j: int| from <= j < r ==> spec_in_class(#[trigger] t@[j], k),
{
    let mut i = from;
    while i < t.len() && in_class(t[i], k)
        invariant
            from <= i,
            from <= t@.len() ==> i <= t@.len(),
            spec_run_end(t@, i as int, k) == spec_run_end(t@, from as int, k),
            forall|j: int| from <= j < i ==> spec_in_class(#[trigger] t@[j], k),
        decreases t@.len() - i,
    {
        i = i + 1;
    }
    i
}

fn find_newline(t: &Vec<char>, from: usize) -> (r: usize)
    requires
        from <= t@.len(),
    ensures
        r as int == spec_find_newline(t@, from as int),
        from <= r <= t@.len(),
{
    let mut i = from;
    while i < t.len() && t[i] != '\n'
        invariant
            from <= i <= t@.len(),
            spec_find_newline(t@, i as int) == spec_find_newline(t@, from as int),
        decreases t@.len() - i,
    {
        i = i + 1;
    }
    i
}

fn has_at(t: &Vec<char>, pos: usize, lit: &Vec<char>) -> (r: bool)
    ensures
        r == spec_has_at(t@, pos as int, lit@),
{
    if pos > t.len() || t.len() - pos < lit.len() {
        return false;
    }
    let mut j: usize = 0;
    while j < lit.len()
        invariant
            j <= lit@.len(),
            pos + lit@.len() <= t@.len(),
            t@.len() == t.len(),
            t@.subrange(pos as int, pos + j) == lit@.subrange(0, j as int),
        decreases lit@.len() - j,
    {
        if t[pos + j] != lit[j] {
            assert(t@.subrange(pos as int, pos + lit@.len())[j as int] != lit@[j as int]);
            return false;
        }
        j = j + 1;
        assert(t@.subrange(pos as int, pos + j) =~= lit@.subrange(0, j as int));
    }
    assert(lit@.subrange(0, lit@.len() as int) =~= lit@);
    true
}

fn copy_range(t: &Vec<char>, from: usize, to: usize) -> (r: Vec<char>)
    requires
        from <= to <= t@.len(),
    ensures
        r@ == t@.subrange(from as int, to as int),
{
    let mut r: Vec<char> = Vec::new();
    let mut i = from;
    while i < to
        invariant
            from <= i <= to <= t@.len(),
            r@ == t@.subrange(from as int, i as int),
        decreases to - i,
    {
        r.push(t[i]);
        i = i + 1;
        assert(r@ =~= t@.subrange(from as int, i as int));
    }
    r
}

fn trim_end(s: &Vec<char>) -> (r: usize)
    ensures
        r as int == spec_trim_end(s@, s@.len() as int),
        r <= s@.len(),
{
    let mut i = s.len();
    while i > 0 && in_class(s[i - 1], CharClass::Space)
        invariant
            i <= s@.len(),
            spec_trim_end(s@, i as int) == spec_trim_end(s@, s@.len() as int),
        decreases i,
    {
        i = i - 1;
    }
    i
}

/// The part of `t` between `from` and `to` without white space at either end,
/// as a range of `t`.
fn trimmed_range(t: &Vec<char>, from: usize, to: usize) -> (r: (usize, usize))
    requires
        from <= to <= t@.len(),
    ensures
        from <= r.0 <= r.1 <= to,
        t@.subrange(r.0 as int, r.1 as int) == spec_trim(t@.subrange(from as int, to as int)),
{
    let seg = copy_range(t, from, to);
    let a = run_end(&seg, 0, CharClass::Space);
    let b = trim_end(&seg);
    if a >= b {
        assert(t@.subrange(from as int, from as int) =~= Seq::<char>::empty());
        (from, from)
    } else {
        assert(t@.subrange(from + a, from + b) =~= seg@.subrange(a as int, b as int));
        (from + a, from + b)
    }
}

fn octet(t: &Vec<char>, s: usize, e: usize) -> (r: Option<u8>)
    requires
        s <= e <= t@.len(),
        forall|j: int| s <= j < e ==> spec_is_digit(#[trigger] t@[j]),
    ensures
        r == spec_octet(t@.subrange(s as int, e as int)),
{
    let ghost d = t@.subrange(s as int, e as int);
    let len = e - s;
    let pad: usize = if len >= 3 && t[s] == '0' && t[s + 1] == '0' {
        2
    } else if len >= 2 && t[s] == '0' {
        1
    } else {
        0
    };
    let ghost o = d.subrange(pad as int, d.len() as int);
    let start = s + pad;
    assert(o =~= t@.subrange(start as int, e as int));
    let olen = e - start;
    if olen < 1 || olen > 3 || (olen > 1 && t[start] == '0') {
        return None;
    }
    let mut v: u32 = 0;
    let mut i = start;
    while i < e
        invariant
            start <= i <= e <= t@.len(),
            e - start <= 3,
            v as int == spec_decimal(t@.subrange(start as int, i as int)),
            (i - start == 0 && v == 0) || (i - start == 1 && v < 10) || (i - start == 2 && v < 100)
                || (i - start == 3 && v < 1000),
            forall|j: int| s <= j < e ==> spec_is_digit(#[trigger] t@[j]),
            s <= start,
        decreases e - i,
    {
        let c = t[i];
        assert(spec_is_digit(t@[i as int]));
        let digit = c as u32 - '0' as u32;
        assert(t@.subrange(start as int, i + 1).drop_last() =~= t@.subrange(start as int, i as int));
        v = v * 10 + digit;
        i = i + 1;
    }
    if v <= 255 {
        Some(v as u8)
    } else {
        None
    }
}

fn chars_of(s: &str) -> (r: Vec<char>)
    ensures
        r@ == s@,
{
    let mut r: Vec<char> = Vec::new();
    for c in it: s.chars()
        invariant
            it.seq() == s@,
            r@ == it.seq().subrange(0, it.index() as int),
    {
        r.push(c);
        assert(r@ =~= it.seq().subrange(0, it.index() + 1));
    }
    assert(r@ =~= s@);
    r
}

fn header(t: &Vec<char>) -> (r: Option<(usize, usize)>)
    ensures
        r matches Some((n1, n2)) ==> spec_header(t@) == Some((n1 as int, n2 as int)),
        r is None ==> spec_header(t@) is None,
{
    let n1 = find_newline(t, 0);
    if n1 >= t.len() {
        return None;
    }
    let n2 = find_newline(t, n1 + 1);
    if n2 >= t.len() || n1 < 2 || t[n1 - 1] != '\r' || n2 - n1 < 3 || t[n2 - 1] != '\r' {
        return None;
    }
    Some((n1, n2))
}

fn address_word() -> (r: Vec<char>)
    ensures
        r@ == spec_address_word(),
{
    let r: Vec<char> = vec!['A', 'd', 'd', 'r', 'e', 's', 's', ':', '-'];
    assert(r@ =~= spec_address_word());
    r
}

fn crlf() -> (r: Vec<char>)
    ensures
        r@ == seq!['\r', '\n'],
{
    let r: Vec<char> = vec!['\r', '\n'];
    assert(r@ =~= seq!['\r', '\n']);
    r
}

fn mac_line(t: &Vec<char>, p: usize) -> (r: Option<usize>)
    requires
        p <= t@.len(),
    ensures
        r matches Some(m) ==> spec_mac_line(t@, p as int) == Some(m as int) && m + 2 <= t@.len(),
        r is None ==> spec_mac_line(t@, p as int) is None,
{
    let mac_word: Vec<char> = vec!['M', 'A', 'C'];
    assert(mac_word@ =~= seq!['M', 'A', 'C']);
    if t.len() - p < 14 || !has_at(t, p, &mac_word) || !in_class(t[p + 3], CharClass::Space)
        || !has_at(t, p + 4, &address_word()) || !in_class(t[p + 13], CharClass::Space) {
        return None;
    }
    let m_end = run_end(t, p + 14, CharClass::Mac);
    if m_end <= p + 14 || !has_at(t, m_end, &crlf()) {
        return None;
    }
    Some(m_end)
}

fn ip_line(t: &Vec<char>, q: usize) -> (r: Option<(usize, usize, usize, usize, usize)>)
    requires
        q <= t@.len(),
    ensures
        r matches Some((s1, e1, e2, e3, e4)) ==> spec_ip_line(t@, q as int) == Some(
            (s1 as int, e1 as int, e2 as int, e3 as int, e4 as int),
        ) && s1 <= e1 <= e2 <= e3 <= e4 <= t@.len() && (forall|j: int|
            s1 <= j < e1 ==> spec_is_digit(#[trigger] t@[j])) && (forall|j: int|
            e1 + 1 <= j < e2 ==> spec_is_digit(#[trigger] t@[j])) && (forall|j: int|
            e2 + 1 <= j < e3 ==> spec_is_digit(#[trigger] t@[j])) && (forall|j: int|
            e3 + 1 <= j < e4 ==> spec_is_digit(#[trigger] t@[j])),
        r is None ==> spec_ip_line(t@, q as int) is None,
{
    let ip_word: Vec<char> = vec!['I', 'P'];
    let dot: Vec<char> = vec!['.'];
    assert(ip_word@ =~= seq!['I', 'P']);
    assert(dot@ =~= seq!['.']);
    if t.len() - q < 12 || !has_at(t, q, &ip_word) || !in_class(t[q + 2], CharClass::Space)
        || !has_at(t, q + 3, &address_word()) {
        return None;
    }
    let s1 = run_end(t, q + 12, CharClass::Space);
    let e1 = run_end(t, s1, CharClass::Digit);
    if e1 <= s1 || !has_at(t, e1, &dot) {
        return None;
    }
    let e2 = run_end(t, e1 + 1, CharClass::Digit);
    if e2 <= e1 + 1 || !has_at(t, e2, &dot) {
        return None;
    }
    let e3 = run_end(t, e2 + 1, CharClass::Digit);
    if e3 <= e2 + 1 || !has_at(t, e3, &dot) {
        return None;
    }
    let e4 = run_end(t, e3 + 1, CharClass::Digit);
    if e4 <= e3 + 1 || !has_at(t, e4, &crlf()) || t.len() - e4 != 2 {
        return None;
    }
    Some((s1, e1, e2, e3, e4))
}

impl DiscoveryResponse {
    /// Reads a reply to a network discovery probe (see `spec_parse_discovery`
    /// for its form). `None` when the reply is not of that form.
    pub fn from_response(response: &str) -> (r: Option<DiscoveryResponse>)
        ensures
            r is None <==> spec_parse_discovery(response@) is None,
            r matches Some(resp) ==> {
                let f = spec_parse_discovery(response@)->0;
                &&& resp.device_name@ == f.name
                &&& resp.manufacturer@ == f.manufacturer
                &&& resp.mac_address@ == f.mac
                &&& resp.ip_address == f.ip
            },
    {
        let t = chars_of(response);
        let (n1, n2) = match header(&t) {
            Some(h) => h,
            None => return None,
        };
        let m_end = match mac_line(&t, n2 + 1) {
            Some(m) => m,
            None => return None,
        };
        let (s1, e1, e2, e3, e4) = match ip_line(&t, m_end + 2) {
            Some(l) => l,
            None => return None,
        };
        let o1 = octet(&t, s1, e1);
        let o2 = octet(&t, e1 + 1, e2);
        let o3 = octet(&t, e2 + 1, e3);
        let o4 = octet(&t, e3 + 1, e4);
        match (o1, o2, o3, o4) {
            (Some(a), Some(b), Some(c), Some(d)) => {
                let (na, nb) = trimmed_range(&t, 0, n1 - 1);
                let (ma, mb) = trimmed_range(&t, n1 + 1, n2 - 1);
                let device_name = response.substring_char(na, nb).to_owned();
                let manufacturer = response.substring_char(ma, mb).to_owned();
                let mac_address = response.substring_char(n2 + 15, m_end).to_owned();
                Some(
                    DiscoveryResponse {
                        device_name,
                        manufacturer,
                        mac_address,
                        ip_address: Ipv4Address(a, b, c, d),
                    },
                )
            },
            _ => None,
        }
    }
}

/// The source at which a discovered device is reached.
pub open spec fn spec_discovered_source(resp: DiscoveryResponse) -> SourceSelection {
    SourceSelection::UdpStream(
        SourceUdpStruct { ip: resp.ip_address, port: DISCOVERED_DEVICE_PORT },
    )
}

/// The sources that discovery replies lead to, in the order of the replies:
/// each device at its address, on the port of the protocol. `None` when no
/// reply was read.
pub fn sources_from_responses(responses: &Vec<DiscoveryResponse>) -> (r: Option<
    Vec<SourceSelection>,
>)
    ensures
        r is None <==> responses@.len() == 0,
        r matches Some(v) ==> v@.len() == responses@.len() && forall|i: int|
            0 <= i < v@.len() ==> #[trigger] v@[i] == spec_discovered_source(responses@[i]),
{
    if responses.len() == 0 {
        return None;
    }
    let mut sources: Vec<SourceSelection> = Vec::new();
    let mut i: usize = 0;
    while i < responses.len()
        invariant
            i <= responses@.len(),
            sources@.len() == i,
            forall|j: int|
                0 <= j < i ==> #[trigger] sources@[j] == spec_discovered_source(responses@[j]),
        decreases responses@.len() - i,
    {
        sources.push(
            SourceSelection::UdpStream(
                SourceUdpStruct { ip: responses[i].ip_address, port: DISCOVERED_DEVICE_PORT },
            ),
        );
        i = i + 1;
    }
    Some(sources)
}

/// A device that the sibling bridge service reports: the serial port it owns
/// (empty when none) and the UDP port at which it serves the device, if any.
pub struct BridgeDevice {
    pub port: String,
    pub udp_port: Option<u16>,
}

/// What the bridge service offers: sources to create, and serial ports that
/// serial discovery must leave alone.
pub struct BluePingDiscoveryResult {
    pub sources: Vec<SourceSelection>,
    pub used_ports: Vec<String>,
}

/// The local address at which the bridge serves its devices.
pub open spec fn spec_localhost() -> Ipv4Address {
    Ipv4Address(127, 0, 0, 1)
}

/// The sources of the bridged devices, in order: each one with a UDP port,
/// on this host at that port.
pub open spec fn spec_bridge_sources(d: Seq<BridgeDevice>) -> Seq<SourceSelection>
    decreases d.len(),
{
    if d.len() == 0 {
        Seq::empty()
    } else {
        spec_bridge_sources(d.drop_last()) + match d.last().udp_port {
            Some(p) => seq![
                SourceSelection::UdpStream(SourceUdpStruct { ip: spec_localhost(), port: p }),
            ],
            None => Seq::empty(),
        }
    }
}

/// The serial ports the bridged devices hold, in order, leaving out empty
/// names.
pub open spec fn spec_used_ports(d: Seq<BridgeDevice>) -> Seq<Seq<char>>
    decreases d.len(),
{
    if d.len() == 0 {
        Seq::empty()
    } else {
        spec_used_ports(d.drop_last()) + if d.last().port@.len() > 0 {
            seq![d.last().port@]
        } else {
            Seq::empty()
        }
    }
}

/// The views of a list of strings.
pub open spec fn spec_views(v: Seq<String>) -> Seq<Seq<char>> {
    v.map_values(|s: String| s@)
}

/// What the bridge's device list offers: a source on this host for each
/// device with a UDP port, and the serial ports it holds.
pub fn bridge_discovery(devices: &Vec<BridgeDevice>) -> (r: BluePingDiscoveryResult)
    ensures
        r.sources@ == spec_bridge_sources(devices@),
        spec_views(r.used_ports@) == spec_used_ports(devices@),
{
    let mut sources: Vec<SourceSelection> = Vec::new();
    let mut used_ports: Vec<String> = Vec::new();
    let mut i: usize = 0;
    while i < devices.len()
        invariant
            i <= devices@.len(),
            sources@ == spec_bridge_sources(devices@.subrange(0, i as int)),
            spec_views(used_ports@) == spec_used_ports(devices@.subrange(0, i as int)),
        decreases devices@.len() - i,
    {
        let ghost before = devices@.subrange(0, i as int);
        let ghost after = devices@.subrange(0, i + 1);
        assert(after.drop_last() =~= before);
        assert(after.last() == devices@[i as int]);
        let d = &devices[i];
        if !d.port.as_str().is_empty() {
            let ghost old_ports = used_ports@;
            used_ports.push(d.port.clone());
            assert(spec_views(used_ports@) =~= spec_views(old_ports) + seq![d.port@]);
        } else {
            assert(spec_used_ports(after) =~= spec_used_ports(before));
        }
        match d.udp_port {
            Some(p) => {
                sources.push(
                    SourceSelection::UdpStream(
                        SourceUdpStruct { ip: Ipv4Address(127, 0, 0, 1), port: p },
                    ),
                );
            },
            None => {
                assert(spec_bridge_sources(after) =~= spec_bridge_sources(before));
            },
        }
        i = i + 1;
    }
    assert(devices@.subrange(0, devices@.len() as int) =~= devices@);
    BluePingDiscoveryResult { sources, used_ports }
}

/// The ports of `ports` that are not in `skip`, in order.
pub open spec fn spec_ports_to_probe(ports: Seq<Seq<char>>, skip: Seq<Seq<char>>) -> Seq<Seq<char>>
    decreases ports.len(),
{
    if ports.len() == 0 {
        Seq::empty()
    } else {
        spec_ports_to_probe(ports.drop_last(), skip) + if skip.contains(ports.last()) {
            Seq::empty()
        } else {
            seq![ports.last()]
        }
    }
}

fn contains_port(skip: &[String], port: &String) -> (r: bool)
    ensures
        r == spec_views(skip@).contains(port@),
{
    let mut k: usize = 0;
    while k < skip.len()
        invariant
            k <= skip@.len(),
            forall|j: int| 0 <= j < k ==> skip@[j]@ != port@,
        decreases skip@.len() - k,
    {
        if skip[k] == *port {
            assert(spec_views(skip@)[k as int] == port@);
            return true;
        }
        k = k + 1;
    }
    assert forall|j: int| 0 <= j < spec_views(skip@).len() implies spec_views(skip@)[j] != port@ by {
        assert(skip@[j]@ != port@);
    }
    false
}

/// The serial ports to probe: all found ports but those in `skip_ports`
/// (held by the bridge service), in order.
pub fn ports_to_probe(ports: &Vec<String>, skip_ports: Option<&[String]>) -> (r: Vec<String>)
    ensures
        skip_ports is None ==> spec_views(r@) == spec_views(ports@),
        skip_ports matches Some(skip) ==> spec_views(r@) == spec_ports_to_probe(
            spec_views(ports@),
            spec_views(skip@),
        ),
{
    let mut r: Vec<String> = Vec::new();
    let mut i: usize = 0;
    while i < ports.len()
        invariant
            i <= ports@.len(),
            skip_ports is None ==> spec_views(r@) == spec_views(ports@.subrange(0, i as int)),
            skip_ports matches Some(skip) ==> spec_views(r@) == spec_ports_to_probe(
                spec_views(ports@.subrange(0, i as int)),
                spec_views(skip@),
            ),
        decreases ports@.len() - i,
    {
        let ghost before = ports@.subrange(0, i as int);
        let ghost after = ports@.subrange(0, i + 1);
        assert(spec_views(after).drop_last() =~= spec_views(before));
        assert(spec_views(after).last() == ports@[i as int]@);
        assert(spec_views(after) =~= spec_views(before).push(ports@[i as int]@));
        let keep = match skip_ports {
            Some(skip) => !contains_port(skip, &ports[i]),
            None => true,
        };
        let ghost old_r = r@;
        if keep {
            r.push(ports[i].clone());
            assert(spec_views(r@) =~= spec_views(old_r) + seq![ports@[i as int]@]);
        }
        i = i + 1;
    }
    assert(ports@.subrange(0, ports@.len() as int) =~= ports@);
    r
}

} // verus!
