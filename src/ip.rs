//! IPv4 headers as delivered to a packet handler, and the values read from them.
use vstd::prelude::*;
use crate::codec::{
    be16, be32, be16_bytes, be32_bytes, read_be16, read_be32, push_be16, push_be32,
    lemma_be16_round_trip, lemma_be32_round_trip, lemma_be16_bytes_of_read,
    lemma_be32_bytes_of_read, ParseError, IP_HEADER_SIZE, IP_PORT_HEADER_SIZE,
};
use crate::message::Payload;

verus! {

/// The transport protocol named by an IPv4 header's protocol byte.
#[derive(Debug, Clone, Copy, PartialEq, Eq, Structural)]
pub enum Protocol {
    Icmp,
    Tcp,
    Udp,
    Other(u8),
}

/// The protocol that a protocol byte names.
pub open spec fn protocol_of(b: u8) -> Protocol {
    if b == 1 {
        Protocol::Icmp
    } else if b == 6 {
        Protocol::Tcp
    } else if b == 17 {
        Protocol::Udp
    } else {
        Protocol::Other(b)
    }
}

/// The protocol byte that stands for a protocol.
pub open spec fn protocol_byte(p: Protocol) -> u8 {
    match p {
        Protocol::Icmp => 1,
        Protocol::Tcp => 6,
        Protocol::Udp => 17,
        Protocol::Other(b) => b,
    }
}

impl Protocol {
    /// Maps a protocol byte to its protocol.
    pub fn from_byte(b: u8) -> (r: Protocol)
        ensures
            r == protocol_of(b),
    {
        if b == 1 {
            Protocol::Icmp
        } else if b == 6 {
            Protocol::Tcp
        } else if b == 17 {
            Protocol::Udp
        } else {
            Protocol::Other(b)
        }
    }

    /// The protocol byte of this protocol.
    pub fn to_byte(&self) -> (r: u8)
        ensures
            r == protocol_byte(*self),
    {
        match self {
            Protocol::Icmp => 1,
            Protocol::Tcp => 6,
            Protocol::Udp => 17,
            Protocol::Other(b) => *b,
        }
    }
}

/// Every byte names a protocol, and the protocol gives the byte back.
pub proof fn lemma_protocol_byte_round_trip(b: u8)
    ensures
        protocol_byte(protocol_of(b)) == b,
        b == 1 ==> protocol_of(b) == Protocol::Icmp,
        b == 6 ==> protocol_of(b) == Protocol::Tcp,
        b == 17 ==> protocol_of(b) == Protocol::Udp,
        b != 1 && b != 6 && b != 17 ==> protocol_of(b) == Protocol::Other(b),
{
}

/// An IPv4 address as its four octets, in the order they are written.
#[derive(Debug, Clone, Copy, PartialEq, Eq, Structural)]
pub struct Ipv4Address {
    pub a: u8,
    pub b: u8,
    pub c: u8,
    pub d: u8,
}

impl Ipv4Address {
    /// The address as a 32-bit number, first octet most significant.
    pub open spec fn bits(&self) -> int {
        self.a as int * 16777216 + self.b as int * 65536 + self.c as int * 256 + self.d as int
    }

    /// The octets as a sequence.
    pub open spec fn octet_seq(&self) -> Seq<u8> {
        seq![self.a, self.b, self.c, self.d]
    }

    pub fn new(a: u8, b: u8, c: u8, d: u8) -> (r: Ipv4Address)
        ensures
            r == (Ipv4Address { a, b, c, d }),
    {
        Ipv4Address { a, b, c, d }
    }

    /// The address whose 32-bit number is `x`.
    pub fn from_bits(x: u32) -> (r: Ipv4Address)
        ensures
            r.bits() == x,
            r.octet_seq() == be32_bytes(x),
    {
        let r = Ipv4Address {
            a: (x / 16777216) as u8,
            b: ((x / 65536) % 256) as u8,
            c: ((x / 256) % 256) as u8,
            d: (x % 256) as u8,
        };
        proof {
            lemma_be32_round_trip(x);
            assert(r.octet_seq() =~= be32_bytes(x));
        }
        r
    }

    /// The 32-bit number of this address.
    pub fn to_bits(&self) -> (r: u32)
        ensures
            r == self.bits(),
    {
        (self.a as u32) * 16777216 + (self.b as u32) * 65536 + (self.c as u32) * 256 + (
        self.d as u32)
    }

    pub fn octets(&self) -> (r: [u8; 4])
        ensures
            r@ == self.octet_seq(),
    {
        let r = [self.a, self.b, self.c, self.d];
        assert(r@ =~= self.octet_seq());
        r
    }
}

/// An address taken to its number and back is the same address, and a number
/// taken to its address and back is the same number.
pub proof fn lemma_address_round_trip(addr: Ipv4Address, x: u32)
    ensures
        addr.bits() <= u32::MAX,
        from_bits_spec(addr.bits() as u32) == addr,
        from_bits_spec(x).bits() == x,
{
    let s = addr.octet_seq();
    assert(be32(s, 0) == addr.bits());
    lemma_be32_bytes_of_read(s, 0);
    assert(s.subrange(0, 4) =~= s);
    lemma_be32_round_trip(x);
}

/// The address whose octets are the four bytes of `x`.
pub open spec fn from_bits_spec(x: u32) -> Ipv4Address {
    let s = be32_bytes(x);
    Ipv4Address { a: s[0], b: s[1], c: s[2], d: s[3] }
}

/// An IPv4 address with a transport port.
#[derive(Debug, Clone, Copy, PartialEq, Eq, Structural)]
pub struct SocketAddress {
    pub ip: Ipv4Address,
    pub port: u16,
}

/// An IPv4 header without options, its fields in host order.
#[derive(Debug, Clone, Copy, PartialEq, Eq, Structural)]
pub struct IPHeader {
    pub version_and_header: u8,
    pub dscp: u8,
    pub total_length: u16,
    pub id: u16,
    pub flags_and_offset: u16,
    pub ttl: u8,
    pub protocol_byte: u8,
    pub checksum: u16,
    pub saddr: u32,
    pub daddr: u32,
}

/// An IPv4 header followed by the transport's source and destination ports.
#[derive(Debug, Clone, Copy, PartialEq, Eq, Structural)]
pub struct IPPortHeader {
    pub header: IPHeader,
    pub sport: u16,
    pub dport: u16,
}

/// The header that the first twenty bytes of `s` hold.
pub open spec fn ip_header_of(s: Seq<u8>) -> IPHeader {
    IPHeader {
        version_and_header: s[0],
        dscp: s[1],
        total_length: be16(s, 2) as u16,
        id: be16(s, 4) as u16,
        flags_and_offset: be16(s, 6) as u16,
        ttl: s[8],
        protocol_byte: s[9],
        checksum: be16(s, 10) as u16,
        saddr: be32(s, 12) as u32,
        daddr: be32(s, 16) as u32,
    }
}

/// The header with ports that the first twenty-four bytes of `s` hold.
pub open spec fn ip_port_header_of(s: Seq<u8>) -> IPPortHeader {
    IPPortHeader { header: ip_header_of(s), sport: be16(s, 20) as u16, dport: be16(s, 22) as u16 }
}

/// The wire bytes of an IPv4 header.
pub open spec fn ip_header_bytes(h: IPHeader) -> Seq<u8> {
    seq![h.version_and_header, h.dscp] + be16_bytes(h.total_length) + be16_bytes(h.id)
        + be16_bytes(h.flags_and_offset) + seq![h.ttl, h.protocol_byte] + be16_bytes(h.checksum)
        + be32_bytes(h.saddr) + be32_bytes(h.daddr)
}

/// The wire bytes of an IPv4 header with ports.
pub open spec fn ip_port_header_bytes(h: IPPortHeader) -> Seq<u8> {
    ip_header_bytes(h.header) + be16_bytes(h.sport) + be16_bytes(h.dport)
}

/// Reads an IPv4 header from exactly `IP_HEADER_SIZE` bytes.
pub fn decode_ip_header(bytes: &[u8]) -> (r: Result<IPHeader, ParseError>)
    ensures
        r == (if bytes@.len() == IP_HEADER_SIZE {
            Ok(ip_header_of(bytes@))
        } else {
            Err(ParseError::Truncated)
        }),
{
    if bytes.len() != IP_HEADER_SIZE {
        return Err(ParseError::Truncated);
    }
    Ok(read_ip_header(bytes))
}

fn read_ip_header(bytes: &[u8]) -> (r: IPHeader)
    requires
        bytes@.len() >= IP_HEADER_SIZE,
    ensures
        r == ip_header_of(bytes@),
{
    IPHeader {
        version_and_header: bytes[0],
        dscp: bytes[1],
        total_length: read_be16(bytes, 2),
        id: read_be16(bytes, 4),
        flags_and_offset: read_be16(bytes, 6),
        ttl: bytes[8],
        protocol_byte: bytes[9],
        checksum: read_be16(bytes, 10),
        saddr: read_be32(bytes, 12),
        daddr: read_be32(bytes, 16),
    }
}

/// Reads an IPv4 header with ports from exactly `IP_PORT_HEADER_SIZE` bytes.
pub fn decode_ip_port_header(bytes: &[u8]) -> (r: Result<IPPortHeader, ParseError>)
    ensures
        r == (if bytes@.len() == IP_PORT_HEADER_SIZE {
            Ok(ip_port_header_of(bytes@))
        } else {
            Err(ParseError::Truncated)
        }),
{
    if bytes.len() != IP_PORT_HEADER_SIZE {
        return Err(ParseError::Truncated);
    }
    Ok(IPPortHeader {
        header: read_ip_header(bytes),
        sport: read_be16(bytes, 20),
        dport: read_be16(bytes, 22),
    })
}

impl IPHeader {
    pub fn protocol(&self) -> (r: Protocol)
        ensures
            r == protocol_of(self.protocol_byte),
    {
        Protocol::from_byte(self.protocol_byte)
    }

    /// The source address.
    pub fn source_ip(&self) -> (r: Ipv4Address)
        ensures
            r.bits() == self.saddr,
            r == from_bits_spec(self.saddr),
    {
        Ipv4Address::from_bits(self.saddr)
    }

    /// The destination address.
    pub fn dest_ip(&self) -> (r: Ipv4Address)
        ensures
            r.bits() == self.daddr,
            r == from_bits_spec(self.daddr),
    {
        Ipv4Address::from_bits(self.daddr)
    }

    /// The header's wire bytes.
    pub fn to_bytes(&self) -> (r: Vec<u8>)
        ensures
            r@ == ip_header_bytes(*self),
            r@.len() == IP_HEADER_SIZE,
    {
        let mut out: Vec<u8> = Vec::new();
        self.write_to(&mut out);
        assert(out@ =~= ip_header_bytes(*self));
        out
    }

    fn write_to(&self, out: &mut Vec<u8>)
        ensures
            final(out)@ == old(out)@ + ip_header_bytes(*self),
    {
        let ghost start = out@;
        out.push(self.version_and_header);
        out.push(self.dscp);
        push_be16(out, self.total_length);
        push_be16(out, self.id);
        push_be16(out, self.flags_and_offset);
        out.push(self.ttl);
        out.push(self.protocol_byte);
        push_be16(out, self.checksum);
        push_be32(out, self.saddr);
        push_be32(out, self.daddr);
        assert(out@ =~= start + ip_header_bytes(*self));
    }
}

impl IPPortHeader {
    pub fn protocol(&self) -> (r: Protocol)
        ensures
            r == protocol_of(self.header.protocol_byte),
    {
        self.header.protocol()
    }

    pub fn source_ip(&self) -> (r: Ipv4Address)
        ensures
            r == from_bits_spec(self.header.saddr),
    {
        self.header.source_ip()
    }

    pub fn dest_ip(&self) -> (r: Ipv4Address)
        ensures
            r == from_bits_spec(self.header.daddr),
    {
        self.header.dest_ip()
    }

    /// The source address with the source port.
    pub fn source_socket(&self) -> (r: SocketAddress)
        ensures
            r == (SocketAddress { ip: from_bits_spec(self.header.saddr), port: self.sport }),
    {
        SocketAddress { ip: self.header.source_ip(), port: self.sport }
    }

    /// The destination address with the destination port.
    pub fn dest_socket(&self) -> (r: SocketAddress)
        ensures
            r == (SocketAddress { ip: from_bits_spec(self.header.daddr), port: self.dport }),
    {
        SocketAddress { ip: self.header.dest_ip(), port: self.dport }
    }

    /// The header's wire bytes.
    pub fn to_bytes(&self) -> (r: Vec<u8>)
        ensures
            r@ == ip_port_header_bytes(*self),
            r@.len() == IP_PORT_HEADER_SIZE,
    {
        let mut out: Vec<u8> = Vec::new();
        self.header.write_to(&mut out);
        push_be16(&mut out, self.sport);
        push_be16(&mut out, self.dport);
        assert(out@ =~= ip_port_header_bytes(*self));
        out
    }
}

impl Payload for IPHeader {
    open spec fn wire_size() -> nat {
        IP_HEADER_SIZE as nat
    }

    open spec fn parsed(s: Seq<u8>) -> IPHeader {
        ip_header_of(s)
    }

    fn size() -> (r: usize) {
        IP_HEADER_SIZE
    }

    fn decode(bytes: &[u8]) -> (r: Result<IPHeader, ParseError>) {
        decode_ip_header(bytes)
    }
}

impl Payload for IPPortHeader {
    open spec fn wire_size() -> nat {
        IP_PORT_HEADER_SIZE as nat
    }

    open spec fn parsed(s: Seq<u8>) -> IPPortHeader {
        ip_port_header_of(s)
    }

    fn size() -> (r: usize) {
        IP_PORT_HEADER_SIZE
    }

    fn decode(bytes: &[u8]) -> (r: Result<IPPortHeader, ParseError>) {
        decode_ip_port_header(bytes)
    }
}

/// Writing a header out and reading it back gives the same header, and
/// reading twenty bytes and writing the header out gives the same bytes.
pub proof fn lemma_ip_header_round_trip(h: IPHeader, s: Seq<u8>)
    requires
        s.len() == IP_HEADER_SIZE,
    ensures
        ip_header_bytes(h).len() == IP_HEADER_SIZE,
        ip_header_of(ip_header_bytes(h)) == h,
        ip_header_bytes(ip_header_of(s)) == s,
{
    let b = ip_header_bytes(h);
    lemma_be16_round_trip(h.total_length);
    lemma_be16_round_trip(h.id);
    lemma_be16_round_trip(h.flags_and_offset);
    lemma_be16_round_trip(h.checksum);
    lemma_be32_round_trip(h.saddr);
    lemma_be32_round_trip(h.daddr);
    assert(b.subrange(2, 4) =~= be16_bytes(h.total_length));
    assert(b.subrange(4, 6) =~= be16_bytes(h.id));
    assert(b.subrange(6, 8) =~= be16_bytes(h.flags_and_offset));
    assert(b.subrange(10, 12) =~= be16_bytes(h.checksum));
    assert(b.subrange(12, 16) =~= be32_bytes(h.saddr));
    assert(b.subrange(16, 20) =~= be32_bytes(h.daddr));
    assert(be16(b, 2) == be16(be16_bytes(h.total_length), 0));
    assert(be16(b, 4) == be16(be16_bytes(h.id), 0));
    assert(be16(b, 6) == be16(be16_bytes(h.flags_and_offset), 0));
    assert(be16(b, 10) == be16(be16_bytes(h.checksum), 0));
    assert(be32(b, 12) == be32(be32_bytes(h.saddr), 0));
    assert(be32(b, 16) == be32(be32_bytes(h.daddr), 0));
    lemma_be16_bytes_of_read(s, 2);
    lemma_be16_bytes_of_read(s, 4);
    lemma_be16_bytes_of_read(s, 6);
    lemma_be16_bytes_of_read(s, 10);
    lemma_be32_bytes_of_read(s, 12);
    lemma_be32_bytes_of_read(s, 16);
    assert(ip_header_bytes(ip_header_of(s)) =~= s);
}

/// Writing a header with ports out and reading it back gives the same header,
/// and reading twenty-four bytes and writing the header out gives the same bytes.
pub proof fn lemma_ip_port_header_round_trip(h: IPPortHeader, s: Seq<u8>)
    requires
        s.len() == IP_PORT_HEADER_SIZE,
    ensures
        ip_port_header_bytes(h).len() == IP_PORT_HEADER_SIZE,
        ip_port_header_of(ip_port_header_bytes(h)) == h,
        ip_port_header_bytes(ip_port_header_of(s)) == s,
{
    let b = ip_port_header_bytes(h);
    let front = s.subrange(0, 20);
    lemma_ip_header_round_trip(h.header, front);
    let hb = ip_header_bytes(h.header);
    assert(b.subrange(0, 20) =~= hb);
    assert(ip_header_of(b) == ip_header_of(hb)) by {
        assert forall|i: int| 0 <= i < 20 implies b[i] == hb[i] by {
            assert(b.subrange(0, 20)[i] == b[i]);
        }
    }
    lemma_be16_round_trip(h.sport);
    lemma_be16_round_trip(h.dport);
    assert(b.subrange(20, 22) =~= be16_bytes(h.sport));
    assert(b.subrange(22, 24) =~= be16_bytes(h.dport));
    assert(be16(b, 20) == be16(be16_bytes(h.sport), 0));
    assert(be16(b, 22) == be16(be16_bytes(h.dport), 0));
    assert(ip_header_of(s) == ip_header_of(front));
    lemma_be16_bytes_of_read(s, 20);
    lemma_be16_bytes_of_read(s, 22);
    assert(ip_port_header_bytes(ip_port_header_of(s)) =~= s);
}

/// The source and destination addresses of a decoded header are the octets
/// at the address fields' places, in wire order, and writing the header out
/// puts an address's octets back there.
pub proof fn lemma_address_fields(h: IPHeader, s: Seq<u8>)
    requires
        s.len() == IP_HEADER_SIZE,
    ensures
        from_bits_spec(ip_header_of(s).saddr).octet_seq() == s.subrange(12, 16),
        from_bits_spec(ip_header_of(s).daddr).octet_seq() == s.subrange(16, 20),
        ip_header_bytes(h).subrange(12, 16) == from_bits_spec(h.saddr).octet_seq(),
        ip_header_bytes(h).subrange(16, 20) == from_bits_spec(h.daddr).octet_seq(),
{
    lemma_be32_bytes_of_read(s, 12);
    lemma_be32_bytes_of_read(s, 16);
    assert(from_bits_spec(ip_header_of(s).saddr).octet_seq() =~= s.subrange(12, 16));
    assert(from_bits_spec(ip_header_of(s).daddr).octet_seq() =~= s.subrange(16, 20));
    let b = ip_header_bytes(h);
    assert(b.subrange(12, 16) =~= from_bits_spec(h.saddr).octet_seq());
    assert(b.subrange(16, 20) =~= from_bits_spec(h.daddr).octet_seq());
}

} // verus!
