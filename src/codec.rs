//! Fixed-layout wire structures: the IPv4 header, the IPv4 header followed by
//! the two transport ports, and the per-packet event header. Every multi-byte
//! field travels most significant byte first.
use vstd::prelude::*;

verus! {

/// Bytes in an IPv4 header without options.
pub const IP_HEADER_SIZE: usize = 20;

/// Bytes in an IPv4 header followed by the source and destination ports.
pub const IP_PORT_HEADER_SIZE: usize = 24;

/// Bytes in the packet event header: packet id, hardware protocol, hook.
pub const EVENT_HEADER_SIZE: usize = 7;

/// Why a byte sequence could not be read as a structure.
#[derive(Debug, Clone, Copy, PartialEq, Eq, Structural)]
pub enum ParseError {
    /// The input does not have exactly the structure's wire size.
    Truncated,
    /// A payload's length differs from the size of the requested structure.
    PayloadSizeMismatch,
    /// The event frame's framing is inconsistent.
    MalformedFrame,
    /// The event frame carries no packet event header.
    MissingHeader,
}

/// Value of two bytes at `i`, most significant first.
pub open spec fn be16(s: Seq<u8>, i: int) -> int {
    s[i] as int * 256 + s[i + 1] as int
}

/// Value of four bytes at `i`, most significant first.
pub open spec fn be32(s: Seq<u8>, i: int) -> int {
    s[i] as int * 16777216 + s[i + 1] as int * 65536 + s[i + 2] as int * 256 + s[i + 3] as int
}

/// The two bytes of `x`, most significant first.
pub open spec fn be16_bytes(x: u16) -> Seq<u8> {
    seq![(x / 256) as u8, (x % 256) as u8]
}

/// The four bytes of `x`, most significant first.
pub open spec fn be32_bytes(x: u32) -> Seq<u8> {
    seq![
        (x / 16777216) as u8,
        ((x / 65536) % 256) as u8,
        ((x / 256) % 256) as u8,
        (x % 256) as u8,
    ]
}

/// Reads a big-endian `u16` at offset `i`.
pub fn read_be16(b: &[u8], i: usize) -> (r: u16)
    requires
        i + 2 <= b@.len(),
    ensures
        r as int == be16(b@, i as int),
{
    (b[i] as u16) * 256 + (b[i + 1] as u16)
}

/// Reads a big-endian `u32` at offset `i`.
pub fn read_be32(b: &[u8], i: usize) -> (r: u32)
    requires
        i + 4 <= b@.len(),
    ensures
        r as int == be32(b@, i as int),
{
    (b[i] as u32) * 16777216 + (b[i + 1] as u32) * 65536 + (b[i + 2] as u32) * 256 + (
    b[i + 3] as u32)
}

/// Appends `x` most significant byte first.
pub fn push_be16(out: &mut Vec<u8>, x: u16)
    ensures
        final(out)@ == old(out)@ + be16_bytes(x),
{
    out.push((x / 256) as u8);
    out.push((x % 256) as u8);
    assert(final(out)@ =~= old(out)@ + be16_bytes(x));
}

/// Appends `x` most significant byte first.
pub fn push_be32(out: &mut Vec<u8>, x: u32)
    ensures
        final(out)@ == old(out)@ + be32_bytes(x),
{
    out.push((x / 16777216) as u8);
    out.push(((x / 65536) % 256) as u8);
    out.push(((x / 256) % 256) as u8);
    out.push((x % 256) as u8);
    assert(final(out)@ =~= old(out)@ + be32_bytes(x));
}

/// Reading back the bytes of a 16-bit value gives the value.
pub proof fn lemma_be16_round_trip(x: u16)
    ensures
        be16(be16_bytes(x), 0) == x,
{
    let s = be16_bytes(x);
    assert(s[0] as int == x / 256);
    assert(s[1] as int == x % 256);
}

/// Reading back the bytes of a 32-bit value gives the value.
pub proof fn lemma_be32_round_trip(x: u32)
    ensures
        be32(be32_bytes(x), 0) == x,
{
    let s = be32_bytes(x);
    let xi = x as int;
    assert(s[0] as int == xi / 16777216);
    assert(s[1] as int == (xi / 65536) % 256);
    assert(s[2] as int == (xi / 256) % 256);
    assert(s[3] as int == xi % 256);
    assert((xi / 16777216) * 16777216 + ((xi / 65536) % 256) * 65536 + ((xi / 256) % 256) * 256
        + xi % 256 == xi) by (nonlinear_arith)
        requires
            0 <= xi,
    ;
}

/// Writing out a value read from two bytes gives those bytes.
pub proof fn lemma_be16_bytes_of_read(s: Seq<u8>, i: int)
    requires
        0 <= i,
        i + 2 <= s.len(),
    ensures
        be16_bytes(be16(s, i) as u16) =~= s.subrange(i, i + 2),
{
    let x = be16(s, i);
    let (h, l) = (s[i] as int, s[i + 1] as int);
    assert((h * 256 + l) / 256 == h && (h * 256 + l) % 256 == l) by (nonlinear_arith)
        requires
            0 <= h < 256,
            0 <= l < 256,
    ;
}

/// Writing out a value read from four bytes gives those bytes.
pub proof fn lemma_be32_bytes_of_read(s: Seq<u8>, i: int)
    requires
        0 <= i,
        i + 4 <= s.len(),
    ensures
        be32_bytes(be32(s, i) as u32) =~= s.subrange(i, i + 4),
{
    let (a, b, c, d) = (s[i] as int, s[i + 1] as int, s[i + 2] as int, s[i + 3] as int);
    let x = a * 16777216 + b * 65536 + c * 256 + d;
    assert(x / 16777216 == a && (x / 65536) % 256 == b && (x / 256) % 256 == c && x % 256 == d)
        by (nonlinear_arith)
        requires
            0 <= a < 256,
            0 <= b < 256,
            0 <= c < 256,
            0 <= d < 256,
            x == a * 16777216 + b * 65536 + c * 256 + d,
    ;
}

} // verus!
