//! One packet event: the queue it came from, its event header and the packet
//! bytes that the queue's copy mode let through.
use vstd::prelude::*;
use vstd::slice::{slice_subrange, slice_to_vec};
use crate::codec::{be16, be32, be16_bytes, be32_bytes, read_be16, read_be32, push_be16, push_be32,
    ParseError, EVENT_HEADER_SIZE};
use crate::frame::{
    find_attr, find_attribute, event_queue, decode_event_queue, ATTR_PACKET_HEADER, ATTR_PAYLOAD,
    EVENT_PREFIX_SIZE,
};

verus! {

/// The packet event header: the id a verdict must name, the link-layer
/// protocol and the netfilter hook the packet was taken at.
#[derive(Debug, Clone, Copy, PartialEq, Eq, Structural)]
pub struct Header {
    pub packet_id: u32,
    pub hw_protocol: u16,
    pub hook: u8,
}

/// The event header that seven bytes hold.
pub open spec fn header_of(s: Seq<u8>) -> Header {
    Header { packet_id: be32(s, 0) as u32, hw_protocol: be16(s, 4) as u16, hook: s[6] }
}

/// The wire bytes of an event header.
pub open spec fn header_bytes(h: Header) -> Seq<u8> {
    be32_bytes(h.packet_id) + be16_bytes(h.hw_protocol) + seq![h.hook]
}

/// Reads an event header from exactly `EVENT_HEADER_SIZE` bytes.
pub fn decode_event_header(bytes: &[u8]) -> (r: Result<Header, ParseError>)
    ensures
        r == (if bytes@.len() == EVENT_HEADER_SIZE {
            Ok(header_of(bytes@))
        } else {
            Err(ParseError::Truncated)
        }),
{
    if bytes.len() != EVENT_HEADER_SIZE {
        return Err(ParseError::Truncated);
    }
    Ok(Header { packet_id: read_be32(bytes, 0), hw_protocol: read_be16(bytes, 4), hook: bytes[6] })
}

impl Header {
    /// The packet id, which a verdict must name.
    pub fn id(&self) -> (r: u32)
        ensures
            r == self.packet_id,
    {
        self.packet_id
    }

    pub fn hw_protocol(&self) -> (r: u16)
        ensures
            r == self.hw_protocol,
    {
        self.hw_protocol
    }

    pub fn hook(&self) -> (r: u8)
        ensures
            r == self.hook,
    {
        self.hook
    }

    /// The header's wire bytes.
    pub fn to_bytes(&self) -> (r: Vec<u8>)
        ensures
            r@ == header_bytes(*self),
            r@.len() == EVENT_HEADER_SIZE,
    {
        let mut out: Vec<u8> = Vec::new();
        push_be32(&mut out, self.packet_id);
        push_be16(&mut out, self.hw_protocol);
        out.push(self.hook);
        assert(out@ =~= header_bytes(*self));
        out
    }
}

/// A fixed-layout structure that packet bytes can be read as.
pub trait Payload: Sized {
    /// Bytes in the structure's wire form.
    spec fn wire_size() -> nat;

    /// The structure that `wire_size()` bytes hold.
    spec fn parsed(s: Seq<u8>) -> Self;

    fn size() -> (r: usize)
        ensures
            r == Self::wire_size(),
    ;

    /// Reads the structure from exactly `wire_size()` bytes.
    fn decode(bytes: &[u8]) -> (r: Result<Self, ParseError>)
        ensures
            bytes@.len() == Self::wire_size() ==> r == Ok::<Self, ParseError>(Self::parsed(bytes@)),
            bytes@.len() != Self::wire_size() ==> r == Err::<Self, ParseError>(ParseError::Truncated),
    ;
}

/// One packet event, valid for one call of a packet handler.
pub struct Message {
    /// The queue the packet waits in.
    pub queue_num: u16,
    /// The event header; a verdict names its packet id.
    pub header: Header,
    /// The packet bytes that were copied, as many as the copy mode allows.
    pub data: Vec<u8>,
}

/// What a well-formed event frame `s` says, if it is one: queue, header and
/// copied packet bytes.
pub open spec fn message_of(s: Seq<u8>) -> Result<(u16, Header, Seq<u8>), ParseError> {
    match event_queue(s) {
        None => Err(ParseError::MalformedFrame),
        Some(q) => match find_attr(s, EVENT_PREFIX_SIZE as int, ATTR_PACKET_HEADER as int) {
            None => Err(ParseError::MissingHeader),
            Some((o, l)) => if l != EVENT_HEADER_SIZE {
                Err(ParseError::Truncated)
            } else {
                Ok((q, header_of(s.subrange(o, o + l)), payload_of(s)))
            },
        },
    }
}

/// The copied packet bytes of an event frame: empty where it carries none.
pub open spec fn payload_of(s: Seq<u8>) -> Seq<u8> {
    match find_attr(s, EVENT_PREFIX_SIZE as int, ATTR_PAYLOAD as int) {
        Some((o, l)) => s.subrange(o, o + l),
        None => Seq::empty(),
    }
}

/// A found attribute lies inside the frame.
proof fn lemma_find_attr_in_bounds(s: Seq<u8>, off: int, t: int)
    ensures
        match find_attr(s, off, t) {
            Some((o, l)) => 0 <= o && 0 <= l && o + l <= s.len(),
            None => true,
        },
    decreases s.len() + 4 - off,
{
    if off >= 0 && off + 4 <= s.len() {
        let len = crate::frame::le16(s, off);
        if len >= 4 && off + len <= s.len() && crate::frame::attr_type(s, off) != t {
            assert(len + 3 - (len + 3) % 4 >= len) by (nonlinear_arith)
                requires
                    len >= 0,
            ;
            lemma_find_attr_in_bounds(s, off + crate::frame::align4(len), t);
        }
    }
}

impl Message {
    /// Reads one packet event frame as the kernel sends it.
    pub fn new(frame: &[u8]) -> (r: Result<Message, ParseError>)
        ensures
            match message_of(frame@) {
                Ok((q, h, p)) => r matches Ok(m) && m.queue_num == q && m.header == h && m.data@
                    == p,
                Err(e) => r == Err::<Message, ParseError>(e),
            },
    {
        let q = match decode_event_queue(frame) {
            Some(q) => q,
            None => return Err(ParseError::MalformedFrame),
        };
        proof {
            lemma_find_attr_in_bounds(frame@, EVENT_PREFIX_SIZE as int, ATTR_PACKET_HEADER as int);
            lemma_find_attr_in_bounds(frame@, EVENT_PREFIX_SIZE as int, ATTR_PAYLOAD as int);
        }
        let (o, l) = match find_attribute(frame, EVENT_PREFIX_SIZE, ATTR_PACKET_HEADER) {
            Some(found) => found,
            None => return Err(ParseError::MissingHeader),
        };
        let header = match decode_event_header(slice_subrange(frame, o, o + l)) {
            Ok(h) => h,
            Err(e) => return Err(e),
        };
        let data = match find_attribute(frame, EVENT_PREFIX_SIZE, ATTR_PAYLOAD) {
            Some((po, pl)) => slice_to_vec(slice_subrange(frame, po, po + pl)),
            None => Vec::new(),
        };
        Ok(Message { queue_num: q, header, data })
    }

    pub fn header(&self) -> (r: &Header)
        ensures
            *r == self.header,
    {
        &self.header
    }

    /// Reads the copied packet bytes as a `P`, which takes exactly as many
    /// bytes as were copied.
    pub fn payload<P: Payload>(&self) -> (r: Result<P, ParseError>)
        ensures
            self.data@.len() == P::wire_size() ==> r == Ok::<P, ParseError>(P::parsed(self.data@)),
            self.data@.len() != P::wire_size() ==> r == Err::<P, ParseError>(
                ParseError::PayloadSizeMismatch,
            ),
    {
        if self.data.len() != P::size() {
            return Err(ParseError::PayloadSizeMismatch);
        }
        P::decode(self.data.as_slice())
    }
}

} // verus!
