//! How a device is reached (its source), and the device id derived from it.
use std::collections::hash_map::DefaultHasher;
use std::hash::Hasher;
use vstd::prelude::*;
use vstd::std_specs::hash::DefaultHasherAdditionalSpecFns;
use vstd::utf8::{encode_utf8, encode_utf8_decode_utf8};

verus! {

/// An IPv4 address, as its four octets in network order.
#[derive(Clone, Copy, Debug, PartialEq, Eq, Hash, Structural)]
pub struct Ipv4Address(pub u8, pub u8, pub u8, pub u8);

impl Ipv4Address {
    pub fn new(a: u8, b: u8, c: u8, d: u8) -> (r: Ipv4Address)
        ensures
            r == Ipv4Address(a, b, c, d),
    {
        Ipv4Address(a, b, c, d)
    }
}

/// A device reached over UDP.
#[derive(Clone, Copy, Debug, PartialEq, Eq, Hash, Structural)]
pub struct SourceUdpStruct {
    pub ip: Ipv4Address,
    pub port: u16,
}

/// A device reached over a serial port.
#[derive(Debug, Hash)]
pub struct SourceSerialStruct {
    pub path: String,
    pub baudrate: u32,
}

/// How a device is reached.
#[derive(Debug, Hash)]
pub enum SourceSelection {
    UdpStream(SourceUdpStruct),
    SerialStream(SourceSerialStruct),
}

/// A source as a mathematical value: serial paths as character sequences.
pub enum SourceView {
    Udp(Ipv4Address, u16),
    Serial(Seq<char>, u32),
}

impl View for SourceSelection {
    type V = SourceView;

    open spec fn view(&self) -> SourceView {
        match self {
            SourceSelection::UdpStream(u) => SourceView::Udp(u.ip, u.port),
            SourceSelection::SerialStream(s) => SourceView::Serial(s.path@, s.baudrate),
        }
    }
}

impl Clone for SourceSerialStruct {
    fn clone(&self) -> (r: Self)
        ensures
            r == *self,
    {
        SourceSerialStruct { path: self.path.clone(), baudrate: self.baudrate }
    }
}

impl Clone for SourceSelection {
    fn clone(&self) -> (r: Self)
        ensures
            r == *self,
    {
        match self {
            SourceSelection::UdpStream(u) => SourceSelection::UdpStream(*u),
            SourceSelection::SerialStream(s) => SourceSelection::SerialStream(s.clone()),
        }
    }
}

impl PartialEq for SourceSerialStruct {
    fn eq(&self, other: &SourceSerialStruct) -> (r: bool) {
        self.baudrate == other.baudrate && self.path == other.path
    }
}

impl vstd::std_specs::cmp::PartialEqSpecImpl for SourceSerialStruct {
    open spec fn obeys_eq_spec() -> bool {
        true
    }

    open spec fn eq_spec(&self, other: &SourceSerialStruct) -> bool {
        self.path@ == other.path@ && self.baudrate == other.baudrate
    }
}

impl PartialEq for SourceSelection {
    fn eq(&self, other: &SourceSelection) -> (r: bool) {
        match (self, other) {
            (SourceSelection::UdpStream(a), SourceSelection::UdpStream(b)) => a.ip == b.ip
                && a.port == b.port,
            (SourceSelection::SerialStream(a), SourceSelection::SerialStream(b)) => a.eq(b),
            _ => false,
        }
    }
}

impl vstd::std_specs::cmp::PartialEqSpecImpl for SourceSelection {
    open spec fn obeys_eq_spec() -> bool {
        true
    }

    open spec fn eq_spec(&self, other: &SourceSelection) -> bool {
        self@ == other@
    }
}

/// The big-endian bytes of a 32-bit value.
pub open spec fn spec_u32_bytes(v: u32) -> Seq<u8> {
    seq![(v >> 24u32) as u8, (v >> 16u32) as u8, (v >> 8u32) as u8, v as u8]
}

/// The canonical serialization of a source: a tag byte, then the fields.
pub open spec fn spec_source_bytes(s: SourceView) -> Seq<u8> {
    match s {
        SourceView::Udp(ip, port) => seq![
            0u8,
            ip.0,
            ip.1,
            ip.2,
            ip.3,
            (port / 0x100) as u8,
            (port % 0x100) as u8,
        ],
        SourceView::Serial(path, baud) => seq![1u8] + spec_u32_bytes(baud) + encode_utf8(path),
    }
}

/// The id of the device reached through `s`: std's default hash of its
/// canonical serialization, written in one piece.
pub open spec fn spec_source_id(s: SourceView) -> u128 {
    DefaultHasher::spec_finish(seq![spec_source_bytes(s)]) as u128
}

fn push_u32_bytes(out: &mut Vec<u8>, v: u32)
    ensures
        final(out)@ == old(out)@ + spec_u32_bytes(v),
{
    out.push((v >> 24u32) as u8);
    out.push((v >> 16u32) as u8);
    out.push((v >> 8u32) as u8);
    out.push(v as u8);
    assert(out@ =~= old(out)@ + spec_u32_bytes(v));
}

impl SourceSelection {
    /// The canonical serialization of this source.
    pub fn canonical_bytes(&self) -> (r: Vec<u8>)
        ensures
            r@ == spec_source_bytes(self@),
    {
        let mut out: Vec<u8> = Vec::new();
        match self {
            SourceSelection::UdpStream(u) => {
                out.push(0u8);
                out.push(u.ip.0);
                out.push(u.ip.1);
                out.push(u.ip.2);
                out.push(u.ip.3);
                out.push((u.port / 0x100) as u8);
                out.push((u.port % 0x100) as u8);
                assert(out@ =~= spec_source_bytes(self@));
            },
            SourceSelection::SerialStream(s) => {
                out.push(1u8);
                push_u32_bytes(&mut out, s.baudrate);
                let path: &str = s.path.as_str();
                let bytes: &[u8] = path.as_bytes();
                let prefix = Ghost(out@);
                let mut i: usize = 0;
                while i < bytes.len()
                    invariant
                        i <= bytes@.len(),
                        out@ == prefix@ + bytes@.subrange(0, i as int),
                    decreases bytes@.len() - i,
                {
                    out.push(bytes[i]);
                    i = i + 1;
                    assert(out@ =~= prefix@ + bytes@.subrange(0, i as int));
                }
                assert(bytes@.subrange(0, bytes@.len() as int) =~= bytes@);
                assert(out@ =~= spec_source_bytes(self@));
            },
        }
        out
    }

    /// The id of the device reached through this source: the default hash of
    /// its canonical serialization, widened to 128 bits.
    pub fn id(&self) -> (r: u128)
        ensures
            r == spec_source_id(self@),
    {
        let bytes = self.canonical_bytes();
        let mut hasher = DefaultHasher::new();
        hasher.write(bytes.as_slice());
        assert(hasher@ =~= seq![spec_source_bytes(self@)]);
        hasher.finish() as u128
    }
}

/// Two sources that are equal have the same id.
pub proof fn lemma_equal_sources_equal_ids(s1: SourceView, s2: SourceView)
    requires
        s1 == s2,
    ensures
        spec_source_id(s1) == spec_source_id(s2),
{
}

/// The canonical serialization tells sources apart: two sources with the same
/// bytes are equal, so ids can only coincide through the hash itself.
pub proof fn lemma_source_bytes_injective(s1: SourceView, s2: SourceView)
    requires
        spec_source_bytes(s1) == spec_source_bytes(s2),
    ensures
        s1 == s2,
{
    let b1 = spec_source_bytes(s1);
    let b2 = spec_source_bytes(s2);
    assert(b1[0] == b2[0]);
    match s1 {
        SourceView::Udp(ip1, p1) => {
            match s2 {
                SourceView::Udp(ip2, p2) => {
                    assert(b1[1] == b2[1] && b1[2] == b2[2] && b1[3] == b2[3] && b1[4] == b2[4]);
                    assert(b1[5] == b2[5] && b1[6] == b2[6]);
                    assert(p1 == p2);
                },
                SourceView::Serial(_, _) => {},
            }
        },
        SourceView::Serial(path1, baud1) => {
            match s2 {
                SourceView::Udp(_, _) => {},
                SourceView::Serial(path2, baud2) => {
                    assert(b1[1] == b2[1] && b1[2] == b2[2] && b1[3] == b2[3] && b1[4] == b2[4]);
                    assert(b1.subrange(1, 5) =~= spec_u32_bytes(baud1));
                    assert(b2.subrange(1, 5) =~= spec_u32_bytes(baud2));
                    let (x, y) = (baud1, baud2);
                    assert(spec_u32_bytes(x)[0] == spec_u32_bytes(y)[0]);
                    assert(spec_u32_bytes(x)[1] == spec_u32_bytes(y)[1]);
                    assert(spec_u32_bytes(x)[2] == spec_u32_bytes(y)[2]);
                    assert(spec_u32_bytes(x)[3] == spec_u32_bytes(y)[3]);
                    assert(x == y) by (bit_vector)
                        requires
                            (x >> 24u32) as u8 == (y >> 24u32) as u8,
                            (x >> 16u32) as u8 == (y >> 16u32) as u8,
                            (x >> 8u32) as u8 == (y >> 8u32) as u8,
                            x as u8 == y as u8,
                    ;
                    assert(b1.subrange(5, b1.len() as int) =~= encode_utf8(path1));
                    assert(b2.subrange(5, b2.len() as int) =~= encode_utf8(path2));
                    encode_utf8_decode_utf8(path1);
                    encode_utf8_decode_utf8(path2);
                },
            }
        },
    }
}

} // verus!
