//! Unframing of a packet event as the kernel sends it: a netlink message
//! header, a netfilter generic header that names the queue, then a list of
//! attributes. Netlink header and attribute header fields are in the host's
//! byte order, read here as little-endian; the queue number and the packet
//! event header are in network byte order.
use vstd::prelude::*;
use crate::codec::{be16, read_be16, ParseError};

verus! {

/// Bytes of the netlink message header.
pub const NLMSG_HEADER_SIZE: usize = 16;

/// Bytes of the netlink header and the netfilter generic header together.
pub const EVENT_PREFIX_SIZE: usize = 20;

/// Netlink message type of a packet event: queue subsystem, packet message.
pub const PACKET_EVENT_TYPE: u16 = 0x0300;

/// Attribute type of the packet event header.
pub const ATTR_PACKET_HEADER: u16 = 1;

/// Attribute type of the copied packet bytes.
pub const ATTR_PAYLOAD: u16 = 10;

/// Value of two bytes at `i`, least significant first.
pub open spec fn le16(s: Seq<u8>, i: int) -> int {
    s[i] as int + s[i + 1] as int * 256
}

/// Value of four bytes at `i`, least significant first.
pub open spec fn le32(s: Seq<u8>, i: int) -> int {
    s[i] as int + s[i + 1] as int * 256 + s[i + 2] as int * 65536 + s[i + 3] as int * 16777216
}

/// `n` rounded up to a multiple of four.
pub open spec fn align4(n: int) -> int {
    n + 3 - (n + 3) % 4
}

/// The type of the attribute at `off`, without its nesting and byte-order flags.
pub open spec fn attr_type(s: Seq<u8>, off: int) -> int {
    le16(s, off + 2) % 16384
}

/// Where the payload of the first well-formed attribute of type `t` at or
/// after `off` starts, and its length. The walk ends at the first attribute
/// whose length is shorter than its own header or runs past the end.
pub open spec fn find_attr(s: Seq<u8>, off: int, t: int) -> Option<(int, int)>
    decreases s.len() + 4 - off,
    via find_attr_decreases
{
    if off < 0 || off + 4 > s.len() {
        None
    } else {
        let len = le16(s, off);
        if len < 4 || off + len > s.len() {
            None
        } else if attr_type(s, off) == t {
            Some((off + 4, len - 4))
        } else {
            find_attr(s, off + align4(len), t)
        }
    }
}

#[via_fn]
proof fn find_attr_decreases(s: Seq<u8>, off: int, t: int) {
    if off >= 0 && off + 4 <= s.len() {
        lemma_align4(le16(s, off));
    }
}

/// Rounding up to a multiple of four never goes down, by less than four.
proof fn lemma_align4(n: int)
    requires
        n >= 0,
    ensures
        n <= align4(n) < n + 4,
{
    assert(0 <= (n + 3) % 4 < 4) by (nonlinear_arith);
}

/// What the netlink and netfilter headers of an event frame say: the queue
/// number, if the frame is one whole packet event.
pub open spec fn event_queue(s: Seq<u8>) -> Option<u16> {
    if s.len() >= EVENT_PREFIX_SIZE && le32(s, 0) == s.len() && le16(s, 4) == PACKET_EVENT_TYPE {
        Some(be16(s, 18) as u16)
    } else {
        None
    }
}

fn read_le16(b: &[u8], i: usize) -> (r: u16)
    requires
        i + 2 <= b@.len(),
    ensures
        r as int == le16(b@, i as int),
{
    (b[i] as u16) + (b[i + 1] as u16) * 256
}

fn read_le32(b: &[u8], i: usize) -> (r: u32)
    requires
        i + 4 <= b@.len(),
    ensures
        r as int == le32(b@, i as int),
{
    (b[i] as u32) + (b[i + 1] as u32) * 256 + (b[i + 2] as u32) * 65536 + (b[i + 3] as u32)
        * 16777216
}

/// Finds the payload of the first attribute of type `t` at or after `start`.
pub fn find_attribute(s: &[u8], start: usize, t: u16) -> (r: Option<(usize, usize)>)
    ensures
        match find_attr(s@, start as int, t as int) {
            Some((o, l)) => r == Some((o as usize, l as usize)),
            None => r is None,
        },
{
    let mut off: usize = start;
    while off <= s.len() && s.len() - off >= 4
        invariant
            start <= off,
            find_attr(s@, start as int, t as int) == find_attr(s@, off as int, t as int),
        decreases s.len() - off,
    {
        let len = read_le16(s, off) as usize;
        if len < 4 || len > s.len() - off {
            return None;
        }
        if read_le16(s, off + 2) % 16384 == t {
            return Some((off + 4, len - 4));
        }
        let step: usize = len + 3 - (len + 3) % 4;
        proof {
            lemma_align4(len as int);
        }
        if step > s.len() - off {
            assert(find_attr(s@, off + step, t as int) is None);
            return None;
        }
        off = off + step;
    }
    None
}

/// The queue number of an event frame, if it is one whole packet event.
pub fn decode_event_queue(s: &[u8]) -> (r: Option<u16>)
    ensures
        r == event_queue(s@),
{
    if s.len() < EVENT_PREFIX_SIZE {
        return None;
    }
    if read_le32(s, 0) as usize != s.len() || read_le16(s, 4) != PACKET_EVENT_TYPE {
        return None;
    }
    Some(read_be16(s, 18))
}

} // verus!
