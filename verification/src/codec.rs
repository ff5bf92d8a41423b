//! The packet codec: builds wire-correct IPv4 + ICMP echo-request datagrams
//! and decodes captured IPv4 datagrams into structured responses, including
//! the echo-request fragment nested inside a Time-Exceeded message.
//!
//! Layout follows RFC 791 and RFC 792: a 20-byte option-less IPv4 header,
//! then the ICMP portion. All multi-byte fields are big-endian.

use crate::checksum::{
    checksum_of_sum, checksum_valid, compute_checksum, lemma_checksum_bounds,
    lemma_checksum_self_verifies, lemma_word_sum_nonneg, word_sum, words_of,
};
use vstd::arithmetic::div_mod::{lemma_div_denominator, lemma_fundamental_div_mod};
use vstd::prelude::*;

verus! {

/// ICMP message type of an echo reply.
pub const ECHO_REPLY: u8 = 0;

/// ICMP message type of an echo request.
pub const ECHO_REQUEST: u8 = 8;

/// ICMP message type of a time-exceeded notice.
pub const TIME_EXCEEDED: u8 = 11;

/// An IPv4 address held as its 32-bit big-endian value.
#[derive(Clone, Copy, Debug, PartialEq, Eq, Hash, PartialOrd, Ord, Structural)]
pub struct Ipv4Address {
    pub bits: u32,
}

/// The leading octet of a 32-bit address value.
pub open spec fn oct0(bits: u32) -> u8 {
    (bits / 0x1000000) as u8
}

/// The second octet of a 32-bit address value.
pub open spec fn oct1(bits: u32) -> u8 {
    ((bits / 0x10000) % 0x100) as u8
}

/// The third octet of a 32-bit address value.
pub open spec fn oct2(bits: u32) -> u8 {
    ((bits / 0x100) % 0x100) as u8
}

/// The trailing octet of a 32-bit address value.
pub open spec fn oct3(bits: u32) -> u8 {
    (bits % 0x100) as u8
}

impl Ipv4Address {
    /// Builds the address from its four dotted-quad octets, leading first.
    pub fn from_octets(a: u8, b: u8, c: u8, d: u8) -> (r: Self)
        ensures
            r.bits == a * 0x1000000 + b * 0x10000 + c * 0x100 + d,
    {
        Ipv4Address {
            bits: (a as u32) * 0x1000000 + (b as u32) * 0x10000 + (c as u32) * 0x100 + (d as u32),
        }
    }

    /// The four dotted-quad octets, leading first.
    pub fn octets(&self) -> (r: (u8, u8, u8, u8))
        ensures
            r.0 == oct0(self.bits),
            r.1 == oct1(self.bits),
            r.2 == oct2(self.bits),
            r.3 == oct3(self.bits),
    {
        (
            (self.bits / 0x1000000) as u8,
            ((self.bits / 0x10000) % 0x100) as u8,
            ((self.bits / 0x100) % 0x100) as u8,
            (self.bits % 0x100) as u8,
        )
    }
}

/// The big-endian 16-bit value at byte offset `i`.
pub open spec fn be16_at(b: Seq<u8>, i: int) -> u16 {
    (b[i] * 256 + b[i + 1]) as u16
}

/// The big-endian 32-bit address value at byte offset `i`.
pub open spec fn addr_at(b: Seq<u8>, i: int) -> u32 {
    (b[i] * 0x1000000 + b[i + 1] * 0x10000 + b[i + 2] * 0x100 + b[i + 3]) as u32
}

/// The header length, in 32-bit words, of the IPv4 header a Time-Exceeded
/// message embeds at byte offset 28: the low nibble of its first byte.
pub open spec fn inner_ihl(b: Seq<u8>) -> int {
    b[28] as int % 16
}

/// The byte offset of the echo-request header nested inside a Time-Exceeded
/// message: past the outer header (20), the Time-Exceeded header (8) and the
/// embedded IPv4 header (4 bytes per header-length word).
pub open spec fn echo_offset(b: Seq<u8>) -> int {
    28 + 4 * inner_ihl(b)
}

/// Whether a Time-Exceeded message carries a well-formed embedded fragment:
/// the embedded IPv4 header is complete and plausibly sized, and a full
/// 8-byte echo-request header follows it.
pub open spec fn te_fragment_ok(b: Seq<u8>) -> bool {
    &&& b.len() >= 48
    &&& inner_ihl(b) >= 5
    &&& b.len() >= echo_offset(b) + 8
}

/// Whether a captured datagram can be correlated with the probe that caused
/// it: it is an echo reply carrying its own identifier and sequence, or a
/// Time-Exceeded message with a well-formed embedded echo request.
pub open spec fn correlated(b: Seq<u8>) -> bool {
    ||| (b[20] == ECHO_REPLY && b.len() >= 28)
    ||| (b[20] == TIME_EXCEEDED && te_fragment_ok(b))
}

/// The identifier of the probe a captured datagram answers, or zero when the
/// datagram cannot be correlated.
pub open spec fn identifier_of(b: Seq<u8>) -> u16 {
    if b[20] == ECHO_REPLY && b.len() >= 28 {
        be16_at(b, 24)
    } else if b[20] == TIME_EXCEEDED && te_fragment_ok(b) {
        be16_at(b, echo_offset(b) + 4)
    } else {
        0
    }
}

/// The sequence number of the probe a captured datagram answers, or zero
/// when the datagram cannot be correlated.
pub open spec fn sequence_of(b: Seq<u8>) -> u16 {
    if b[20] == ECHO_REPLY && b.len() >= 28 {
        be16_at(b, 26)
    } else if b[20] == TIME_EXCEEDED && te_fragment_ok(b) {
        be16_at(b, echo_offset(b) + 6)
    } else {
        0
    }
}

/// The decoded form of one captured ICMP datagram: the outer addresses and
/// ICMP type and code, and, only when the datagram could be correlated, the
/// identifier and sequence number of the original probe.
#[derive(Clone, Debug)]
pub struct IcmpData {
    pub src: Ipv4Address,
    pub dst: Ipv4Address,
    pub icmp_type: u8,
    pub icmp_code: u8,
    pub identifier: u16,
    pub sequence_number: u16,
}

impl IcmpData {
    /// Decodes one captured IPv4 datagram. Total over every buffer long
    /// enough for the outer IPv4 header and the ICMP type and code: a
    /// malformed or truncated message never fails, it only leaves the
    /// identifier and sequence number absent (zero).
    pub fn new(bytes: &Vec<u8>) -> (r: Self)
        requires
            bytes@.len() >= 22,
        ensures
            r.src.bits == addr_at(bytes@, 12),
            r.dst.bits == addr_at(bytes@, 16),
            r.icmp_type == bytes@[20],
            r.icmp_code == bytes@[21],
            r.identifier == identifier_of(bytes@),
            r.sequence_number == sequence_of(bytes@),
            !correlated(bytes@) ==> r.identifier == 0 && r.sequence_number == 0,
    {
        let len = bytes.len();
        let src = Ipv4Address::from_octets(bytes[12], bytes[13], bytes[14], bytes[15]);
        let dst = Ipv4Address::from_octets(bytes[16], bytes[17], bytes[18], bytes[19]);
        let icmp_type = bytes[20];
        let icmp_code = bytes[21];
        let mut identifier: u16 = 0;
        let mut sequence_number: u16 = 0;
        if icmp_type == ECHO_REPLY && len >= 28 {
            identifier = read_be16(bytes, 24);
            sequence_number = read_be16(bytes, 26);
        } else if icmp_type == TIME_EXCEEDED && len >= 48 {
            let ihl: usize = (bytes[28] % 16) as usize;
            if ihl >= 5 {
                let off: usize = 28 + 4 * ihl;
                if len >= off + 8 {
                    identifier = read_be16(bytes, off + 4);
                    sequence_number = read_be16(bytes, off + 6);
                }
            }
        }
        IcmpData { src, dst, icmp_type, icmp_code, identifier, sequence_number }
    }

    /// The source address of the outer IPv4 header.
    pub fn get_src(&self) -> (r: Ipv4Address)
        ensures
            r == self.src,
    {
        self.src
    }

    /// The destination address of the outer IPv4 header.
    pub fn get_dst(&self) -> (r: Ipv4Address)
        ensures
            r == self.dst,
    {
        self.dst
    }

    /// The raw ICMP type of the outer message.
    pub fn get_type(&self) -> (r: u8)
        ensures
            r == self.icmp_type,
    {
        self.icmp_type
    }

    /// The raw ICMP code of the outer message.
    pub fn get_code(&self) -> (r: u8)
        ensures
            r == self.icmp_code,
    {
        self.icmp_code
    }

    /// The identifier of the answered probe, zero when absent.
    pub fn get_identifier(&self) -> (r: u16)
        ensures
            r == self.identifier,
    {
        self.identifier
    }

    /// The sequence number of the answered probe, zero when absent.
    pub fn get_sequence_number(&self) -> (r: u16)
        ensures
            r == self.sequence_number,
    {
        self.sequence_number
    }
}

/// The high byte of a 16-bit value.
pub open spec fn hi8(x: int) -> u8 {
    (x / 256) as u8
}

/// The low byte of a 16-bit value.
pub open spec fn lo8(x: int) -> u8 {
    (x % 256) as u8
}

/// An outgoing probe datagram before its checksums are filled in: a 20-byte
/// option-less IPv4 header (version 4, total length 32, the given TTL,
/// protocol ICMP, the given destination, source left zero), then an 8-byte
/// ICMP echo-request header (the given identifier, the TTL doubling as the
/// sequence number) and four zero payload bytes.
pub open spec fn encode_base(dest: Ipv4Address, ttl: u8, identifier: u16) -> Seq<u8> {
    Seq::new(32, |i: int| 0u8)
        .update(0, 0x45u8)
        .update(3, 32u8)
        .update(8, ttl)
        .update(9, 1u8)
        .update(16, oct0(dest.bits))
        .update(17, oct1(dest.bits))
        .update(18, oct2(dest.bits))
        .update(19, oct3(dest.bits))
        .update(20, ECHO_REQUEST)
        .update(24, hi8(identifier as int))
        .update(25, lo8(identifier as int))
        .update(27, ttl)
}

/// The IPv4 header checksum of an outgoing probe: computed over the ten
/// header words alone, with the checksum slot still zero.
pub open spec fn ipv4_checksum_value(dest: Ipv4Address, ttl: u8, identifier: u16) -> int {
    checksum_of_sum(word_sum(words_of(encode_base(dest, ttl, identifier), 0, 10)))
}

/// The ICMP checksum of an outgoing probe: computed over the six words of
/// the ICMP portion alone, with the checksum slot still zero.
pub open spec fn icmp_checksum_value(dest: Ipv4Address, ttl: u8, identifier: u16) -> int {
    checksum_of_sum(word_sum(words_of(encode_base(dest, ttl, identifier), 20, 6)))
}

/// The complete wire form of an outgoing probe: the base datagram with both
/// checksums stored big-endian in their slots.
pub open spec fn encode_spec(dest: Ipv4Address, ttl: u8, identifier: u16) -> Seq<u8> {
    encode_base(dest, ttl, identifier)
        .update(10, hi8(ipv4_checksum_value(dest, ttl, identifier)))
        .update(11, lo8(ipv4_checksum_value(dest, ttl, identifier)))
        .update(22, hi8(icmp_checksum_value(dest, ttl, identifier)))
        .update(23, lo8(icmp_checksum_value(dest, ttl, identifier)))
}

/// Serializes one echo-request probe: a 32-byte IPv4 + ICMP datagram for the
/// given destination, TTL and identifier, with the TTL doubling as the
/// sequence number. Both stored checksums self-verify: recomputing either
/// one's-complement sum over its region, stored checksum included, folds to
/// all ones.
pub fn encode_echo_request(dest: Ipv4Address, ttl: u8, identifier: u16) -> (r: Vec<u8>)
    requires
        1 <= ttl,
    ensures
        r@ == encode_spec(dest, ttl, identifier),
        r@.len() == 32,
        checksum_valid(words_of(r@, 0, 10)),
        checksum_valid(words_of(r@, 20, 6)),
{
    let ghost base = encode_base(dest, ttl, identifier);
    let mut buf: Vec<u8> = Vec::new();
    let mut k: usize = 0;
    while k < 32
        invariant
            buf@.len() == k,
            k <= 32,
            forall|i: int| 0 <= i < k ==> buf@[i] == 0u8,
        decreases 32 - k,
    {
        buf.push(0u8);
        k = k + 1;
    }
    proof {
        assert(buf@ =~= Seq::new(32, |i: int| 0u8));
    }
    let o = dest.octets();
    buf[0] = 0x45;
    buf[3] = 32;
    buf[8] = ttl;
    buf[9] = 1;
    buf[16] = o.0;
    buf[17] = o.1;
    buf[18] = o.2;
    buf[19] = o.3;
    buf[20] = ECHO_REQUEST;
    buf[24] = (identifier / 256) as u8;
    buf[25] = (identifier % 256) as u8;
    buf[27] = ttl;
    proof {
        assert(buf@ == base);
        lemma_word_sum_nonneg(words_of(base, 0, 10));
        lemma_checksum_bounds(word_sum(words_of(base, 0, 10)));
        lemma_word_sum_nonneg(words_of(base, 20, 6));
        lemma_checksum_bounds(word_sum(words_of(base, 20, 6)));
    }
    let ck1 = compute_checksum(&buf, 0, 10);
    buf[10] = (ck1 / 256) as u8;
    buf[11] = (ck1 % 256) as u8;
    proof {
        assert(words_of(buf@, 20, 6) =~= words_of(base, 20, 6));
    }
    let ck2 = compute_checksum(&buf, 20, 6);
    buf[22] = (ck2 / 256) as u8;
    buf[23] = (ck2 % 256) as u8;
    proof {
        assert(ck1 == ipv4_checksum_value(dest, ttl, identifier));
        assert(ck2 == icmp_checksum_value(dest, ttl, identifier));
        assert(buf@ == encode_spec(dest, ttl, identifier));
        let s_ip = words_of(base, 0, 10);
        assert(base[10] == 0 && base[11] == 0);
        assert(s_ip[5] == 0);
        lemma_checksum_self_verifies(s_ip, 5, ck1);
        assert(words_of(buf@, 0, 10) =~= s_ip.update(5, ck1));
        let s_icmp = words_of(base, 20, 6);
        assert(base[22] == 0 && base[23] == 0);
        assert(s_icmp[1] == 0);
        lemma_checksum_self_verifies(s_icmp, 1, ck2);
        assert(words_of(buf@, 20, 6) =~= s_icmp.update(1, ck2));
    }
    buf
}

/// Splitting a 32-bit address value into its four octets loses nothing:
/// recomposing them big-endian gives the value back.
pub proof fn lemma_octets_recompose(bits: u32)
    ensures
        oct0(bits) * 0x1000000 + oct1(bits) * 0x10000 + oct2(bits) * 0x100 + oct3(bits) == bits,
{
    lemma_fundamental_div_mod(bits as int, 0x100);
    lemma_fundamental_div_mod(bits as int / 0x100, 0x100);
    lemma_div_denominator(bits as int, 0x100, 0x100);
    lemma_fundamental_div_mod(bits as int / 0x10000, 0x100);
    lemma_div_denominator(bits as int, 0x10000, 0x100);
}

/// A synthetic Time-Exceeded datagram: an option-less outer IPv4 header with
/// the given source and destination, a Time-Exceeded header (type 11, code
/// zero), and the expired datagram `frag` carried whole as the payload.
pub open spec fn te_envelope(src: Ipv4Address, dst: Ipv4Address, frag: Seq<u8>) -> Seq<u8> {
    Seq::new(28, |i: int| 0u8)
        .update(0, 0x45u8)
        .update(12, oct0(src.bits))
        .update(13, oct1(src.bits))
        .update(14, oct2(src.bits))
        .update(15, oct3(src.bits))
        .update(16, oct0(dst.bits))
        .update(17, oct1(dst.bits))
        .update(18, oct2(dst.bits))
        .update(19, oct3(dst.bits))
        .update(20, TIME_EXCEEDED) + frag
}

/// A synthetic Echo-Reply datagram: an option-less outer IPv4 header with
/// the given source and destination, then an echo-reply header (type 0, code
/// zero) carrying the given identifier and sequence number.
pub open spec fn echo_reply_envelope(src: Ipv4Address, dst: Ipv4Address, identifier: u16, seqno: u16) -> Seq<u8> {
    Seq::new(28, |i: int| 0u8)
        .update(0, 0x45u8)
        .update(12, oct0(src.bits))
        .update(13, oct1(src.bits))
        .update(14, oct2(src.bits))
        .update(15, oct3(src.bits))
        .update(16, oct0(dst.bits))
        .update(17, oct1(dst.bits))
        .update(18, oct2(dst.bits))
        .update(19, oct3(dst.bits))
        .update(20, ECHO_REPLY)
        .update(24, hi8(identifier as int))
        .update(25, lo8(identifier as int))
        .update(26, hi8(seqno as int))
        .update(27, lo8(seqno as int))
}

/// Round-trip correlation through a Time-Exceeded message: wrap an encoded
/// probe in a synthetic Time-Exceeded envelope, and decoding recovers the
/// probe's identifier and its TTL as the sequence number, along with the
/// envelope's addresses and type.
pub proof fn lemma_time_exceeded_round_trip(
    src: Ipv4Address,
    dst: Ipv4Address,
    dest: Ipv4Address,
    ttl: u8,
    identifier: u16,
)
    requires
        1 <= ttl,
    ensures
        ({
            let env = te_envelope(src, dst, encode_spec(dest, ttl, identifier));
            &&& env.len() == 60
            &&& env[20] == TIME_EXCEEDED
            &&& env[21] == 0
            &&& addr_at(env, 12) == src.bits
            &&& addr_at(env, 16) == dst.bits
            &&& te_fragment_ok(env)
            &&& identifier_of(env) == identifier
            &&& sequence_of(env) == ttl
        }),
{
    let frag = encode_spec(dest, ttl, identifier);
    let env = te_envelope(src, dst, frag);
    assert(env.len() == 60);
    assert(env[28] == frag[0]);
    assert(frag[0] == 0x45);
    assert(inner_ihl(env) == 5);
    assert(te_fragment_ok(env));
    lemma_octets_recompose(src.bits);
    lemma_octets_recompose(dst.bits);
    assert(env[52] == frag[24] && env[53] == frag[25]);
    assert(frag[24] == hi8(identifier as int) && frag[25] == lo8(identifier as int));
    lemma_fundamental_div_mod(identifier as int, 256);
    assert(identifier_of(env) == identifier);
    assert(env[54] == frag[26] && env[55] == frag[27]);
    assert(frag[26] == 0 && frag[27] == ttl);
    assert(sequence_of(env) == ttl);
}

/// Round-trip correlation through an Echo-Reply message: decoding a
/// synthetic Echo-Reply envelope recovers the identifier and sequence number
/// it was built with, along with its addresses and type.
pub proof fn lemma_echo_reply_round_trip(
    src: Ipv4Address,
    dst: Ipv4Address,
    identifier: u16,
    seqno: u16,
)
    ensures
        ({
            let env = echo_reply_envelope(src, dst, identifier, seqno);
            &&& env.len() == 28
            &&& env[20] == ECHO_REPLY
            &&& env[21] == 0
            &&& addr_at(env, 12) == src.bits
            &&& addr_at(env, 16) == dst.bits
            &&& identifier_of(env) == identifier
            &&& sequence_of(env) == seqno
        }),
{
    let env = echo_reply_envelope(src, dst, identifier, seqno);
    lemma_octets_recompose(src.bits);
    lemma_octets_recompose(dst.bits);
    lemma_fundamental_div_mod(identifier as int, 256);
    lemma_fundamental_div_mod(seqno as int, 256);
    assert(identifier_of(env) == identifier);
    assert(sequence_of(env) == seqno);
}

/// A Time-Exceeded message whose embedded fragment is cut short or malformed
/// degrades, it never fails: the identifier and sequence number are absent
/// and the datagram is not correlated with any probe.
pub proof fn lemma_truncated_time_exceeded_degrades(b: Seq<u8>)
    requires
        b.len() >= 22,
        b[20] == TIME_EXCEEDED,
        !te_fragment_ok(b),
    ensures
        !correlated(b),
        identifier_of(b) == 0,
        sequence_of(b) == 0,
{
}

/// The consumer half of one receive: nothing forwarded within the window
/// decodes to nothing, and one forwarded datagram decodes to exactly one
/// structured response.
pub fn response_from(forwarded: Option<Vec<u8>>) -> (r: Option<IcmpData>)
    requires
        forwarded matches Some(b) ==> b@.len() >= 22,
    ensures
        r is Some <==> forwarded is Some,
        forwarded matches Some(b) ==> (r matches Some(d) && d.src.bits == addr_at(b@, 12)
            && d.dst.bits == addr_at(b@, 16) && d.icmp_type == b@[20] && d.icmp_code == b@[21]
            && d.identifier == identifier_of(b@) && d.sequence_number == sequence_of(b@)),
{
    match forwarded {
        None => None,
        Some(bytes) => Some(IcmpData::new(&bytes)),
    }
}

/// Reads the big-endian 16-bit value at byte offset `i`.
fn read_be16(bytes: &Vec<u8>, i: usize) -> (r: u16)
    requires
        i + 2 <= bytes@.len(),
    ensures
        r == be16_at(bytes@, i as int),
{
    let n = bytes.len();
    proof {
        assert(i + 2 <= n);
    }
    (bytes[i] as u16) * 256 + (bytes[i + 1] as u16)
}

} // verus!
