//! Packet model and wire codec: the fixed 48-byte packet layout, its
//! big-endian serialization, and the inverse deserialization, which hands
//! back every multi-byte field already in host order.

use vstd::prelude::*;
use vstd::assert_seqs_equal;
use crate::timestamp::TIMESTAMP_SECONDS_UNIT;
use crate::timestamp::get_ntp_timestamp;

verus! {

/// Exact wire size of a packet, in bytes.
pub const NTP_PACKET_SIZE: usize = 48;

/// Mode value a client request carries.
pub const SNTP_CLIENT_MODE: u8 = 3;

/// Protocol version a client request carries.
pub const SNTP_VERSION: u8 = 4;

/// The wire message, used for both requests and responses.
#[derive(Debug, Clone, Copy, PartialEq, Eq, Structural)]
pub struct NtpPacket {
    /// Leap indicator (2 bits), version number (3 bits) and mode (3 bits),
    /// packed into one byte.
    pub li_vn_mode: u8,
    /// Server's distance from a reference clock; 0 is invalid in a response.
    pub stratum: u8,
    /// Maximum poll interval, log2 seconds.
    pub poll: i8,
    /// Clock precision, log2 seconds.
    pub precision: i8,
    /// Total round-trip delay to the reference clock.
    pub root_delay: u32,
    /// Total dispersion to the reference clock.
    pub root_dispersion: u32,
    /// Reference identifier, opaque 4 bytes.
    pub ref_id: u32,
    /// Time the system clock was last set or corrected.
    pub ref_timestamp: u64,
    /// Time at the client when the request departed.
    pub origin_timestamp: u64,
    /// Time at the server when the request arrived.
    pub recv_timestamp: u64,
    /// Time at the server when the response departed.
    pub tx_timestamp: u64,
}

/// Mode sub-field: the low 3 bits of the packed header byte.
pub open spec fn mode_of(b: u8) -> u8 {
    b & 0x07
}

/// Version sub-field: bits 3 to 5 of the packed header byte.
pub open spec fn version_of(b: u8) -> u8 {
    (b & 0x38) >> 3
}

/// Leap-indicator sub-field: the top 2 bits of the packed header byte.
pub open spec fn li_of(b: u8) -> u8 {
    (b & 0xC0) >> 6
}

/// The big-endian bytes of a 32-bit value, most significant first.
pub open spec fn be32_bytes(v: u32) -> Seq<u8> {
    seq![
        (v / 0x100_0000) as u8,
        ((v / 0x1_0000) % 0x100) as u8,
        ((v / 0x100) % 0x100) as u8,
        (v % 0x100) as u8,
    ]
}

/// The big-endian bytes of a 64-bit value, most significant first.
pub open spec fn be64_bytes(v: u64) -> Seq<u8> {
    be32_bytes((v / 0x1_0000_0000) as u32) + be32_bytes((v % 0x1_0000_0000) as u32)
}

/// The 32-bit value whose big-endian bytes sit at offset `i`.
pub open spec fn be32_at(b: Seq<u8>, i: int) -> int {
    b[i] * 0x100_0000 + b[i + 1] * 0x1_0000 + b[i + 2] * 0x100 + b[i + 3]
}

/// The 64-bit value whose big-endian bytes sit at offset `i`.
pub open spec fn be64_at(b: Seq<u8>, i: int) -> int {
    be32_at(b, i) * 0x1_0000_0000 + be32_at(b, i + 4)
}

/// The 48 wire bytes of a packet: every field serialized big-endian, in the
/// fixed field order of the protocol header.
pub open spec fn wire_bytes(p: NtpPacket) -> Seq<u8> {
    seq![p.li_vn_mode, p.stratum, p.poll as u8, p.precision as u8] + be32_bytes(p.root_delay)
        + be32_bytes(p.root_dispersion) + be32_bytes(p.ref_id) + be64_bytes(p.ref_timestamp)
        + be64_bytes(p.origin_timestamp) + be64_bytes(p.recv_timestamp) + be64_bytes(
        p.tx_timestamp,
    )
}

/// The packet described by 48 wire bytes, every multi-byte field read
/// big-endian (so already corrected to host order).
pub open spec fn packet_of(b: Seq<u8>) -> NtpPacket {
    NtpPacket {
        li_vn_mode: b[0],
        stratum: b[1],
        poll: b[2] as i8,
        precision: b[3] as i8,
        root_delay: be32_at(b, 4) as u32,
        root_dispersion: be32_at(b, 8) as u32,
        ref_id: be32_at(b, 12) as u32,
        ref_timestamp: be64_at(b, 16) as u64,
        origin_timestamp: be64_at(b, 24) as u64,
        recv_timestamp: be64_at(b, 32) as u64,
        tx_timestamp: be64_at(b, 40) as u64,
    }
}

impl NtpPacket {
    /// Build a fresh client request: leap indicator 0, version 4, mode 3
    /// (client), every other numeric field 0, and the transmit timestamp
    /// stamped with the current time in wire format.
    pub fn new() -> (p: NtpPacket)
        ensures
            li_of(p.li_vn_mode) == 0,
            version_of(p.li_vn_mode) == SNTP_VERSION,
            mode_of(p.li_vn_mode) == SNTP_CLIENT_MODE,
            p.stratum == 0 && p.poll == 0 && p.precision == 0,
            p.root_delay == 0 && p.root_dispersion == 0 && p.ref_id == 0,
            p.ref_timestamp == 0 && p.origin_timestamp == 0 && p.recv_timestamp == 0,
            p.tx_timestamp % TIMESTAMP_SECONDS_UNIT < 1_000_000,
    {
        let tx_timestamp = get_ntp_timestamp();
        let li_vn_mode: u8 = SNTP_CLIENT_MODE | (SNTP_VERSION << 3);
        assert(li_of(3u8 | (4u8 << 3)) == 0 && version_of(3u8 | (4u8 << 3)) == 4 && mode_of(
            3u8 | (4u8 << 3),
        ) == 3) by (bit_vector);

        NtpPacket {
            li_vn_mode,
            stratum: 0,
            poll: 0,
            precision: 0,
            root_delay: 0,
            root_dispersion: 0,
            ref_id: 0,
            ref_timestamp: 0,
            origin_timestamp: 0,
            recv_timestamp: 0,
            tx_timestamp,
        }
    }

    /// Mode sub-field of the packed header byte.
    pub fn mode(&self) -> (r: u8)
        ensures
            r == mode_of(self.li_vn_mode),
    {
        self.li_vn_mode & 0x07
    }

    /// Version sub-field of the packed header byte.
    pub fn version(&self) -> (r: u8)
        ensures
            r == version_of(self.li_vn_mode),
    {
        (self.li_vn_mode & 0x38) >> 3
    }

    /// Leap-indicator sub-field of the packed header byte.
    pub fn leap_indicator(&self) -> (r: u8)
        ensures
            r == li_of(self.li_vn_mode),
    {
        (self.li_vn_mode & 0xC0) >> 6
    }
}

fn push_be32(buf: &mut Vec<u8>, v: u32)
    ensures
        final(buf)@ == old(buf)@ + be32_bytes(v),
{
    assert(v / 0x100_0000u32 < 0x100) by (bit_vector);
    buf.push((v / 0x100_0000) as u8);
    buf.push(((v / 0x1_0000) % 0x100) as u8);
    buf.push(((v / 0x100) % 0x100) as u8);
    buf.push((v % 0x100) as u8);
    proof {
        assert_seqs_equal!(buf@ == old(buf)@ + be32_bytes(v));
    }
}

fn push_be64(buf: &mut Vec<u8>, v: u64)
    ensures
        final(buf)@ == old(buf)@ + be64_bytes(v),
{
    assert(v / 0x1_0000_0000u64 < 0x1_0000_0000 && v % 0x1_0000_0000u64 < 0x1_0000_0000)
        by (bit_vector);
    push_be32(buf, (v / 0x1_0000_0000) as u32);
    push_be32(buf, (v % 0x1_0000_0000) as u32);
    proof {
        assert_seqs_equal!(buf@ == old(buf)@ + be64_bytes(v));
    }
}

/// Serialize a packet into its exact 48 wire bytes, every multi-byte field
/// big-endian, in the fixed protocol field order.
pub fn encode(p: &NtpPacket) -> (r: Vec<u8>)
    ensures
        r@ == wire_bytes(*p),
        r@.len() == NTP_PACKET_SIZE,
{
    let mut buf: Vec<u8> = Vec::new();
    buf.push(p.li_vn_mode);
    buf.push(p.stratum);
    buf.push(p.poll as u8);
    buf.push(p.precision as u8);
    proof {
        assert_seqs_equal!(buf@ == seq![p.li_vn_mode, p.stratum, p.poll as u8, p.precision as u8]);
    }
    push_be32(&mut buf, p.root_delay);
    push_be32(&mut buf, p.root_dispersion);
    push_be32(&mut buf, p.ref_id);
    push_be64(&mut buf, p.ref_timestamp);
    push_be64(&mut buf, p.origin_timestamp);
    push_be64(&mut buf, p.recv_timestamp);
    push_be64(&mut buf, p.tx_timestamp);
    proof {
        assert_seqs_equal!(buf@ == wire_bytes(*p));
    }
    buf
}

fn read_be32(b: &Vec<u8>, i: usize) -> (r: u32)
    requires
        i + 4 <= b@.len(),
        b@.len() <= usize::MAX,
    ensures
        r == be32_at(b@, i as int),
{
    (b[i] as u32) * 0x100_0000 + (b[i + 1] as u32) * 0x1_0000 + (b[i + 2] as u32) * 0x100 + (b[i
        + 3] as u32)
}

fn read_be64(b: &Vec<u8>, i: usize) -> (r: u64)
    requires
        i + 8 <= b@.len(),
        b@.len() <= usize::MAX,
    ensures
        r == be64_at(b@, i as int),
{
    (read_be32(b, i) as u64) * 0x1_0000_0000 + (read_be32(b, i + 4) as u64)
}

/// Deserialize 48 wire bytes into a packet. The inverse of [`encode`]:
/// every multi-byte field is read big-endian, so the result is already in
/// host order and no further byte-order correction may be applied.
pub fn decode(bytes: &Vec<u8>) -> (p: NtpPacket)
    requires
        bytes@.len() == NTP_PACKET_SIZE,
    ensures
        p == packet_of(bytes@),
{
    NtpPacket {
        li_vn_mode: bytes[0],
        stratum: bytes[1],
        poll: bytes[2] as i8,
        precision: bytes[3] as i8,
        root_delay: read_be32(bytes, 4),
        root_dispersion: read_be32(bytes, 8),
        ref_id: read_be32(bytes, 12),
        ref_timestamp: read_be64(bytes, 16),
        origin_timestamp: read_be64(bytes, 24),
        recv_timestamp: read_be64(bytes, 32),
        tx_timestamp: read_be64(bytes, 40),
    }
}

proof fn lemma_be32_round(v: u32)
    ensures
        be32_at(be32_bytes(v), 0) == v,
{
    assert(v / 0x100_0000u32 < 0x100 && (v / 0x100_0000u32) * 0x100_0000 + ((v / 0x1_0000u32)
        % 0x100) * 0x1_0000 + ((v / 0x100u32) % 0x100) * 0x100 + (v % 0x100u32) == v)
        by (bit_vector);
}

proof fn lemma_be64_round(v: u64)
    ensures
        be64_at(be64_bytes(v), 0) == v,
{
    let hi = (v / 0x1_0000_0000) as u32;
    let lo = (v % 0x1_0000_0000) as u32;
    assert(v / 0x1_0000_0000u64 < 0x1_0000_0000 && v % 0x1_0000_0000u64 < 0x1_0000_0000 && (v
        / 0x1_0000_0000u64) * 0x1_0000_0000 + (v % 0x1_0000_0000u64) == v) by (bit_vector);
    lemma_be32_round(hi);
    lemma_be32_round(lo);
    assert(be32_at(be64_bytes(v), 0) == be32_at(be32_bytes(hi), 0));
    assert(be32_at(be64_bytes(v), 4) == be32_at(be32_bytes(lo), 0));
}

/// Round-trip law of the wire codec: decoding the bytes that a packet
/// encodes to gives back that packet, every field intact. Together with the
/// contracts of [`encode`] and [`decode`] this says
/// `decode(encode(p)) == p` for every packet `p`.
#[verifier::rlimit(100)]
#[verifier::spinoff_prover]
pub proof fn lemma_wire_round_trip(p: NtpPacket)
    ensures
        wire_bytes(p).len() == NTP_PACKET_SIZE,
        packet_of(wire_bytes(p)) == p,
{
    let pl = p.poll;
    let pr = p.precision;
    assert(pl as u8 as i8 == pl && pr as u8 as i8 == pr) by (bit_vector);
    lemma_be32_round(p.root_delay);
    lemma_be32_round(p.root_dispersion);
    lemma_be32_round(p.ref_id);
    lemma_be64_round(p.ref_timestamp);
    lemma_be64_round(p.origin_timestamp);
    lemma_be64_round(p.recv_timestamp);
    lemma_be64_round(p.tx_timestamp);
    let s4 = seq![p.li_vn_mode, p.stratum, p.poll as u8, p.precision as u8];
    let s8 = s4 + be32_bytes(p.root_delay);
    let s12 = s8 + be32_bytes(p.root_dispersion);
    let s16 = s12 + be32_bytes(p.ref_id);
    let s24 = s16 + be64_bytes(p.ref_timestamp);
    let s32 = s24 + be64_bytes(p.origin_timestamp);
    let s40 = s32 + be64_bytes(p.recv_timestamp);
    let b = s40 + be64_bytes(p.tx_timestamp);
    assert(wire_bytes(p) == b);
    assert(s4.len() == 4 && s8.len() == 8 && s12.len() == 12 && s16.len() == 16 && s24.len() == 24
        && s32.len() == 32 && s40.len() == 40 && b.len() == 48);
    assert(be32_at(s8, 4) == be32_at(be32_bytes(p.root_delay), 0));
    assert(be32_at(s12, 8) == be32_at(be32_bytes(p.root_dispersion), 0));
    assert(be32_at(s16, 12) == be32_at(be32_bytes(p.ref_id), 0));
    assert(be64_at(s24, 16) == be64_at(be64_bytes(p.ref_timestamp), 0));
    assert(be64_at(s32, 24) == be64_at(be64_bytes(p.origin_timestamp), 0));
    assert(be64_at(s40, 32) == be64_at(be64_bytes(p.recv_timestamp), 0));
    assert(be64_at(b, 40) == be64_at(be64_bytes(p.tx_timestamp), 0));
    assert(b[0] == p.li_vn_mode && b[1] == p.stratum && b[2] == p.poll as u8 && b[3]
        == p.precision as u8);
    assert(be32_at(b, 4) == be32_at(s8, 4));
    assert(be32_at(b, 8) == be32_at(s12, 8));
    assert(be32_at(b, 12) == be32_at(s16, 12));
    assert(be64_at(b, 16) == be64_at(s24, 16));
    assert(be64_at(b, 24) == be64_at(s32, 24));
    assert(be64_at(b, 32) == be64_at(s40, 32));
    assert(packet_of(b) == p);
}

} // verus!
