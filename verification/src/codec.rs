//! ICMPv4 echo packet codec.
//!
//! Encodes echo requests (type 8, code 0, identifier 0, a 16-bit sequence
//! number and a zero-filled payload) and decodes received buffers into a
//! typed view. The identifier is left at zero on purpose: the kernel rewrites
//! it on unprivileged datagram ICMP sockets, so the sequence number is the
//! sole correlation key.
//!
//! The checksum is the RFC 1071 one's-complement sum: 16-bit big-endian words
//! are added with an end-around carry after each addition, and the final sum
//! is complemented. A buffer of odd length contributes its last byte as the
//! high byte of a final word.

use vstd::prelude::*;

verus! {

/// ICMP type 0: echo reply.
pub const ICMP_TYPE_ECHO_REPLY: u8 = 0;

/// ICMP type 8: echo request.
pub const ICMP_TYPE_ECHO_REQUEST: u8 = 8;

/// Every echo message is at least this long: type, code, checksum,
/// identifier and sequence number make eight bytes of header.
pub const ICMP_HEADER_LEN: u16 = 8;

/// One's-complement addition of two 16-bit quantities: the carry out of
/// bit 15 is added back into the low bits.
pub open spec fn oc_add(a: int, b: int) -> int {
    if a + b > 0xFFFF {
        a + b - 0xFFFF
    } else {
        a + b
    }
}

/// The one's-complement sum of the 16-bit big-endian words of `b` starting
/// at index `i`, folded left into the accumulator `acc`. An odd tail byte
/// counts as the high byte of a last word.
pub open spec fn oc_sum(b: Seq<u8>, i: int, acc: int) -> int
    decreases b.len() - i,
{
    if i < 0 || i >= b.len() {
        acc
    } else if i + 1 == b.len() {
        oc_add(acc, 256 * b[i])
    } else {
        oc_sum(b, i + 2, oc_add(acc, 256 * b[i] + b[i + 1]))
    }
}

/// The RFC 1071 checksum of a buffer: the complement of its
/// one's-complement word sum.
pub open spec fn checksum_of(b: Seq<u8>) -> int {
    0xFFFF - oc_sum(b, 0, 0)
}

/// The buffer with its checksum field (bytes 2 and 3) read as zero; the
/// checksum of a packet is computed over this form.
pub open spec fn with_zero_checksum(b: Seq<u8>) -> Seq<u8> {
    Seq::new(b.len(), |i: int| if i == 2 || i == 3 { 0u8 } else { b[i] })
}

/// The big-endian checksum stored in bytes 2 and 3.
pub open spec fn stored_checksum(b: Seq<u8>) -> int {
    256 * b[2] + b[3]
}

/// A buffer carries a valid echo checksum when it is at least a header
/// long and its stored checksum equals the checksum recomputed with the
/// checksum field zeroed.
pub open spec fn checksum_valid(b: Seq<u8>) -> bool {
    &&& b.len() >= ICMP_HEADER_LEN
    &&& stored_checksum(b) == checksum_of(with_zero_checksum(b))
}

/// An echo request of `size` bytes with sequence number `seq`, before its
/// checksum is filled in: type 8, then zeros, with the sequence number
/// big-endian in bytes 6 and 7.
pub open spec fn echo_request_unchecksummed(seq: u16, size: u16) -> Seq<u8> {
    Seq::new(
        size as nat,
        |i: int|
            if i == 0 {
                ICMP_TYPE_ECHO_REQUEST
            } else if i == 6 {
                (seq / 256) as u8
            } else if i == 7 {
                (seq % 256) as u8
            } else {
                0u8
            },
    )
}

/// The complete echo request wire format: the unchecksummed form with the
/// computed checksum stored big-endian in bytes 2 and 3.
pub open spec fn echo_request_bytes(seq: u16, size: u16) -> Seq<u8> {
    let c = checksum_of(echo_request_unchecksummed(seq, size));
    echo_request_unchecksummed(seq, size).update(2, (c / 256) as u8).update(3, (c % 256) as u8)
}

/// A decoded ICMP buffer, dispatched on the type byte.
#[derive(Clone, Copy, Debug, PartialEq, Eq, Structural)]
pub enum IcmpView {
    /// Type 0, with the sequence number from bytes 6 and 7.
    EchoReply { seq: u16 },
    /// Type 11: a router exhausted the packet's TTL.
    TimeExceeded,
    /// Any other type.
    Other { ty: u8 },
    /// Shorter than an echo header; not classified.
    Malformed,
}

/// What `decode_packet` returns for every buffer.
pub open spec fn spec_decode(b: Seq<u8>) -> IcmpView {
    if b.len() < ICMP_HEADER_LEN {
        IcmpView::Malformed
    } else if b[0] == ICMP_TYPE_ECHO_REPLY {
        IcmpView::EchoReply { seq: (256 * b[6] + b[7]) as u16 }
    } else if b[0] == crate::classify::ICMP_TYPE_TIME_EXCEEDED {
        IcmpView::TimeExceeded
    } else {
        IcmpView::Other { ty: b[0] }
    }
}

/// The sequence-number field of an echo-shaped buffer, independent of its
/// type byte. The tail of an error-queue payload holds the echoed request
/// we sent; this reads the sequence number back out of it.
pub open spec fn spec_echo_seq(b: Seq<u8>) -> Option<u16> {
    if b.len() < ICMP_HEADER_LEN {
        None
    } else {
        Some((256 * b[6] + b[7]) as u16)
    }
}

/// The one's-complement accumulator stays within 16 bits.
proof fn lemma_oc_sum_in_range(b: Seq<u8>, i: int, acc: int)
    requires
        0 <= acc <= 0xFFFF,
    ensures
        0 <= oc_sum(b, i, acc) <= 0xFFFF,
    decreases b.len() - i,
{
    if i < 0 || i >= b.len() {
    } else if i + 1 == b.len() {
    } else {
        lemma_oc_sum_in_range(b, i + 2, oc_add(acc, 256 * b[i] + b[i + 1]));
    }
}

/// The checksum of any buffer is a 16-bit value.
pub proof fn lemma_checksum_bounds(b: Seq<u8>)
    ensures
        0 <= checksum_of(b) <= 0xFFFF,
{
    lemma_oc_sum_in_range(b, 0, 0);
}

/// Computes the RFC 1071 checksum of `b`, end-around carry at each step.
pub fn compute_checksum(b: &Vec<u8>) -> (r: u16)
    ensures
        r == checksum_of(b@),
{
    let n: usize = b.len();
    let mut sum: u32 = 0;
    let mut i: usize = 0;
    while n - i > 1
        invariant
            n == b@.len(),
            i <= n,
            0 <= sum <= 0xFFFF,
            oc_sum(b@, i as int, sum as int) == oc_sum(b@, 0, 0),
        decreases n - i,
    {
        let word: u32 = 256 * (b[i] as u32) + (b[i + 1] as u32);
        let mut s: u32 = sum + word;
        if s > 0xFFFF {
            s = s - 0xFFFF;
        }
        sum = s;
        i = i + 2;
    }
    if i < n {
        let word: u32 = 256 * (b[i] as u32);
        let mut s: u32 = sum + word;
        if s > 0xFFFF {
            s = s - 0xFFFF;
        }
        sum = s;
    }
    proof {
        lemma_oc_sum_in_range(b@, 0, 0);
    }
    0xFFFFu16 - (sum as u16)
}

/// Returns a copy of `b` with the checksum field zeroed.
fn zeroed_checksum_copy(b: &Vec<u8>) -> (r: Vec<u8>)
    ensures
        r@ == with_zero_checksum(b@),
{
    let n: usize = b.len();
    let mut r: Vec<u8> = Vec::new();
    let mut j: usize = 0;
    while j < n
        invariant
            n == b@.len(),
            j <= n,
            r@ =~= with_zero_checksum(b@).take(j as int),
        decreases n - j,
    {
        if j == 2 || j == 3 {
            r.push(0);
        } else {
            r.push(b[j]);
        }
        j = j + 1;
    }
    proof {
        assert(r@ =~= with_zero_checksum(b@));
    }
    r
}

/// Checks the stored checksum of a received buffer against the checksum
/// recomputed over the buffer with the checksum field zeroed.
pub fn verify_checksum(b: &Vec<u8>) -> (r: bool)
    ensures
        r == checksum_valid(b@),
{
    if b.len() < ICMP_HEADER_LEN as usize {
        return false;
    }
    let zeroed = zeroed_checksum_copy(b);
    let c: u16 = compute_checksum(&zeroed);
    let stored_hi: u16 = b[2] as u16;
    let stored_lo: u16 = b[3] as u16;
    256 * stored_hi + stored_lo == c
}

/// Builds an echo request with sequence number `seq` and total length
/// `size`, checksum filled in.
pub fn encode_echo_request(seq: u16, size: u16) -> (r: Vec<u8>)
    requires
        size >= ICMP_HEADER_LEN,
    ensures
        r@ == echo_request_bytes(seq, size),
        r@.len() == size,
{
    let n: usize = size as usize;
    let mut v: Vec<u8> = Vec::new();
    let mut j: usize = 0;
    while j < n
        invariant
            j <= n,
            v@.len() == j,
            forall|k: int| 0 <= k < j ==> v@[k] == 0u8,
        decreases n - j,
    {
        v.push(0);
        j = j + 1;
    }
    v.set(0, ICMP_TYPE_ECHO_REQUEST);
    v.set(6, (seq / 256) as u8);
    v.set(7, (seq % 256) as u8);
    proof {
        assert(v@ =~= echo_request_unchecksummed(seq, size));
    }
    let c: u16 = compute_checksum(&v);
    v.set(2, (c / 256) as u8);
    v.set(3, (c % 256) as u8);
    proof {
        assert(v@ =~= echo_request_bytes(seq, size));
    }
    v
}

/// Dispatches a received buffer on its type byte.
pub fn decode_packet(b: &Vec<u8>) -> (r: IcmpView)
    ensures
        r == spec_decode(b@),
{
    if b.len() < ICMP_HEADER_LEN as usize {
        IcmpView::Malformed
    } else if b[0] == ICMP_TYPE_ECHO_REPLY {
        let seq: u16 = 256 * (b[6] as u16) + (b[7] as u16);
        IcmpView::EchoReply { seq }
    } else if b[0] == crate::classify::ICMP_TYPE_TIME_EXCEEDED {
        IcmpView::TimeExceeded
    } else {
        IcmpView::Other { ty: b[0] }
    }
}

/// Reads the sequence-number field of an echo-shaped buffer.
pub fn echo_sequence(b: &Vec<u8>) -> (r: Option<u16>)
    ensures
        r == spec_echo_seq(b@),
{
    if b.len() < ICMP_HEADER_LEN as usize {
        None
    } else {
        Some(256 * (b[6] as u16) + (b[7] as u16))
    }
}

/// An encoded request decodes back to its own sequence number: the bytes
/// that carry the sequence survive the checksum fill-in untouched.
pub proof fn lemma_encode_echo_seq(seq: u16, size: u16)
    requires
        size >= ICMP_HEADER_LEN,
    ensures
        spec_echo_seq(echo_request_bytes(seq, size)) == Some(seq),
{
    let p = echo_request_bytes(seq, size);
    assert(p[6] == (seq / 256) as u8);
    assert(p[7] == (seq % 256) as u8);
    assert(256 * (seq / 256) + seq % 256 == seq) by (nonlinear_arith);
}

/// The checksum written by `encode_echo_request` verifies: zeroing the
/// checksum field of the encoded packet gives back the unchecksummed form,
/// whose checksum is the value stored.
pub proof fn lemma_encode_checksum_valid(seq: u16, size: u16)
    requires
        size >= ICMP_HEADER_LEN,
    ensures
        checksum_valid(echo_request_bytes(seq, size)),
{
    let u = echo_request_unchecksummed(seq, size);
    let p = echo_request_bytes(seq, size);
    let c = checksum_of(u);
    lemma_checksum_bounds(u);
    assert(0 <= c / 256 <= 255 && 0 <= c % 256 <= 255) by (nonlinear_arith)
        requires 0 <= c <= 0xFFFF;
    assert(with_zero_checksum(p) =~= u);
    assert(stored_checksum(p) == 256 * ((c / 256) as u8) + ((c % 256) as u8));
    assert(256 * (c / 256) + c % 256 == c) by (nonlinear_arith);
}

} // verus!
