//! IPv4 packets.

use vstd::prelude::*;
use crate::ip_address::{dotted, IPv4Address};
use crate::tcp_packet::{tcp_well_formed, TcpPacket};
use crate::udp_packet::{udp_well_formed, UdpPacket};
use crate::utility::{
    be16,
    compact_hex,
    copy_range,
    decimal,
    hex_padded,
    push_decimal,
    push_hex_padded,
    push_str,
    read_u16,
    to_compact_hex,
};

verus! {

/// The transport protocols that the protocol field of an IPv4 header names.
#[derive(Debug, Clone, Copy, PartialEq, Eq, Structural)]
pub enum Ipv4ProtocolType {
    ICMPv4,
    IGMP,
    TCP,
    UDP,
}

/// The protocol that an IPv4 protocol number names, if it is one of those
/// told apart here.
pub open spec fn ipv4_protocol_of(v: u8) -> Option<Ipv4ProtocolType> {
    if v == 1 {
        Some(Ipv4ProtocolType::ICMPv4)
    } else if v == 2 {
        Some(Ipv4ProtocolType::IGMP)
    } else if v == 6 {
        Some(Ipv4ProtocolType::TCP)
    } else if v == 17 {
        Some(Ipv4ProtocolType::UDP)
    } else {
        None
    }
}

/// The header length in bytes that the first byte of an IPv4 header gives.
pub open spec fn ipv4_header_len(first: u8) -> nat {
    (first as nat % 16) * 4
}

/// Whether `b` starts with a complete IPv4 header: at least the fixed twenty
/// bytes, and a header length that covers them and stays within `b`.
pub open spec fn ipv4_well_formed(b: Seq<u8>) -> bool {
    &&& b.len() >= 20
    &&& 20 <= ipv4_header_len(b[0])
    &&& ipv4_header_len(b[0]) <= b.len()
}

/// A decoded IPv4 packet.
pub struct IPv4Packet {
    pub version: u8,
    /// The header length in 32-bit words.
    pub header_length: u8,
    pub diff_serv: u8,
    pub total_length: u16,
    pub identification: u16,
    pub flags: u8,
    pub fragmentation_offset: u8,
    pub ttl: u8,
    pub protocol_type: Option<Ipv4ProtocolType>,
    pub header_checksum: u16,
    pub ip_addr_src: IPv4Address,
    pub ip_addr_dst: IPv4Address,
    pub options: Vec<u8>,
    pub payload: Vec<u8>,
}

impl IPv4Packet {
    /// What decoding the well-formed packet `b` gives.
    pub open spec fn decodes(self, b: Seq<u8>) -> bool {
        &&& self.version as nat == b[0] as nat / 16
        &&& self.header_length as nat == b[0] as nat % 16
        &&& self.diff_serv == b[1]
        &&& self.total_length as nat == be16(b[2], b[3])
        &&& self.identification as nat == be16(b[4], b[5])
        &&& self.flags == b[6]
        &&& self.fragmentation_offset == b[7]
        &&& self.ttl == b[8]
        &&& self.protocol_type == ipv4_protocol_of(b[9])
        &&& self.header_checksum as nat == be16(b[10], b[11])
        &&& self.ip_addr_src.ip_raw@ == b.subrange(12, 16)
        &&& self.ip_addr_dst.ip_raw@ == b.subrange(16, 20)
        &&& self.options@ == b.subrange(20, ipv4_header_len(b[0]) as int)
        &&& self.payload@ == b.subrange(ipv4_header_len(b[0]) as int, b.len() as int)
    }

    /// Decodes a packet whose header is complete.
    pub fn new(ipv4_data_in_u8: &[u8]) -> (r: IPv4Packet)
        requires
            ipv4_well_formed(ipv4_data_in_u8@),
        ensures
            r.decodes(ipv4_data_in_u8@),
    {
        let b = ipv4_data_in_u8;
        let header_nibble: u8 = b[0] % 16;
        let header_len = IPv4Packet::calc_header_length(header_nibble);
        IPv4Packet {
            version: b[0] / 16,
            header_length: header_nibble,
            diff_serv: b[1],
            total_length: read_u16(b, 2),
            identification: read_u16(b, 4),
            flags: b[6],
            fragmentation_offset: b[7],
            ttl: b[8],
            protocol_type: IPv4Packet::to_protocol_type(b[9]),
            header_checksum: read_u16(b, 10),
            ip_addr_src: IPv4Address { ip_raw: copy_range(b, 12, 16) },
            ip_addr_dst: IPv4Address { ip_raw: copy_range(b, 16, 20) },
            options: IPv4Packet::options(header_len, b),
            payload: IPv4Packet::payload(header_len, b),
        }
    }

    /// Decodes a packet, or gives `None` when `b` holds no complete header.
    pub fn parse(ipv4_data_in_u8: &[u8]) -> (r: Option<IPv4Packet>)
        ensures
            r is Some <==> ipv4_well_formed(ipv4_data_in_u8@),
            r matches Some(p) ==> p.decodes(ipv4_data_in_u8@),
    {
        let n = ipv4_data_in_u8.len();
        if n < 20 {
            return None;
        }
        let header_len = IPv4Packet::calc_header_length(ipv4_data_in_u8[0] % 16);
        if header_len < 20 || header_len as usize > n {
            return None;
        }
        Some(IPv4Packet::new(ipv4_data_in_u8))
    }

    /// The header length in bytes for a length of `header_length` words.
    pub fn calc_header_length(header_length: u8) -> (r: u16)
        ensures
            r as nat == header_length as nat * 4,
    {
        header_length as u16 * 4
    }

    /// The header length in bytes.
    pub fn header_length(&self) -> (r: u16)
        ensures
            r as nat == self.header_length as nat * 4,
    {
        IPv4Packet::calc_header_length(self.header_length)
    }

    /// The bytes after a header of `header_length` bytes.
    pub fn payload(header_length: u16, ipv4_data_in_u8: &[u8]) -> (r: Vec<u8>)
        requires
            header_length as nat <= ipv4_data_in_u8@.len(),
        ensures
            r@ == ipv4_data_in_u8@.subrange(header_length as int, ipv4_data_in_u8@.len() as int),
    {
        copy_range(ipv4_data_in_u8, header_length as usize, ipv4_data_in_u8.len())
    }

    /// The option bytes of a header of `header_length` bytes.
    pub fn options(header_length: u16, ipv4_data_in_u8: &[u8]) -> (r: Vec<u8>)
        requires
            20 <= header_length as nat <= ipv4_data_in_u8@.len(),
        ensures
            r@ == ipv4_data_in_u8@.subrange(20, header_length as int),
    {
        copy_range(ipv4_data_in_u8, 20, header_length as usize)
    }

    /// The protocol that a protocol number names.
    pub fn to_protocol_type(protocol_type_in_u8: u8) -> (r: Option<Ipv4ProtocolType>)
        ensures
            r == ipv4_protocol_of(protocol_type_in_u8),
    {
        match protocol_type_in_u8 {
            1 => Some(Ipv4ProtocolType::ICMPv4),
            2 => Some(Ipv4ProtocolType::IGMP),
            6 => Some(Ipv4ProtocolType::TCP),
            17 => Some(Ipv4ProtocolType::UDP),
            _ => None,
        }
    }

    /// The verbose dump of what the packet carries.
    pub open spec fn transport_text(self) -> Seq<char> {
        match self.protocol_type {
            Some(Ipv4ProtocolType::ICMPv4) => "ICMP     : Unknown Details"@,
            Some(Ipv4ProtocolType::IGMP) => "IGMP     : Unknown Details"@,
            Some(Ipv4ProtocolType::UDP) => udp_text(self.payload@),
            Some(Ipv4ProtocolType::TCP) => tcp_text(self.payload@),
            None => "Other Protocol incapsulated in IPv4 (Unknown Protocol)"@,
        }
    }

    /// The verbose dump of the packet.
    pub open spec fn text(self) -> Seq<char> {
        "IPv4     : "@ + dotted(self.ip_addr_src.ip_raw@) + " -> "@ + dotted(
            self.ip_addr_dst.ip_raw@,
        ) + "\n > [version: "@ + decimal(self.version as nat) + ", header-length: "@ + decimal(
            self.header_length as nat * 4,
        ) + "B, diff-serv: 0x"@ + hex_padded(self.diff_serv as nat, 2) + ", tot-length: "@
            + decimal(self.total_length as nat) + "B, identification: 0x"@ + hex_padded(
            self.identification as nat,
            2,
        ) + ", flags: 0x"@ + hex_padded(self.flags as nat, 2) + ", frag-offset: "@ + decimal(
            self.fragmentation_offset as nat,
        ) + ", ttl: "@ + decimal(self.ttl as nat) + ", header-checksum: 0x"@ + hex_padded(
            self.header_checksum as nat,
            2,
        ) + " ]\n > ["@ + compact_hex(self.options@) + "]\n"@ + self.transport_text()
    }

    /// Writes the verbose dump of the packet.
    pub fn to_text(&self) -> (r: String)
        ensures
            r@ == self.text(),
    {
        let mut s = String::new();
        push_str(&mut s, "IPv4     : ");
        let src = self.ip_addr_src.ipv4();
        push_str(&mut s, src.as_str());
        push_str(&mut s, " -> ");
        let dst = self.ip_addr_dst.ipv4();
        push_str(&mut s, dst.as_str());
        push_str(&mut s, "\n > [version: ");
        push_decimal(&mut s, self.version as u64);
        push_str(&mut s, ", header-length: ");
        push_decimal(&mut s, self.header_length() as u64);
        push_str(&mut s, "B, diff-serv: 0x");
        push_hex_padded(&mut s, self.diff_serv as u64, 2);
        push_str(&mut s, ", tot-length: ");
        push_decimal(&mut s, self.total_length as u64);
        push_str(&mut s, "B, identification: 0x");
        push_hex_padded(&mut s, self.identification as u64, 2);
        push_str(&mut s, ", flags: 0x");
        push_hex_padded(&mut s, self.flags as u64, 2);
        push_str(&mut s, ", frag-offset: ");
        push_decimal(&mut s, self.fragmentation_offset as u64);
        push_str(&mut s, ", ttl: ");
        push_decimal(&mut s, self.ttl as u64);
        push_str(&mut s, ", header-checksum: 0x");
        push_hex_padded(&mut s, self.header_checksum as u64, 2);
        push_str(&mut s, " ]\n > [");
        let options = to_compact_hex(self.options.as_slice());
        push_str(&mut s, options.as_str());
        push_str(&mut s, "]\n");
        let transport = match self.protocol_type {
            Some(Ipv4ProtocolType::ICMPv4) => "ICMP     : Unknown Details".to_owned(),
            Some(Ipv4ProtocolType::IGMP) => "IGMP     : Unknown Details".to_owned(),
            Some(Ipv4ProtocolType::UDP) => udp_to_text(self.payload.as_slice()),
            Some(Ipv4ProtocolType::TCP) => tcp_to_text(self.payload.as_slice()),
            None => "Other Protocol incapsulated in IPv4 (Unknown Protocol)".to_owned(),
        };
        push_str(&mut s, transport.as_str());
        s
    }
}

/// The verbose dump of a UDP datagram, or a note that its header is cut short.
pub open spec fn udp_text(b: Seq<u8>) -> Seq<char> {
    if udp_well_formed(b) {
        let p = choose|p: UdpPacket| p.decodes(b);
        p.text()
    } else {
        "UDP      : header incomplete"@
    }
}

/// The verbose dump of a TCP segment, or a note that its header is cut short.
pub open spec fn tcp_text(b: Seq<u8>) -> Seq<char> {
    if tcp_well_formed(b) {
        let p = choose|p: TcpPacket| p.decodes(b);
        p.text()
    } else {
        "TCP      : header incomplete"@
    }
}

/// Writes the verbose dump of a UDP datagram.
pub fn udp_to_text(b: &[u8]) -> (r: String)
    ensures
        r@ == udp_text(b@),
{
    match UdpPacket::parse(b) {
        Some(p) => {
            let r = p.to_text();
            proof {
                let q = choose|q: UdpPacket| q.decodes(b@);
                assert(q.text() == p.text()) by {
                    assert(q.payload@ =~= p.payload@);
                }
            }
            r
        },
        None => "UDP      : header incomplete".to_owned(),
    }
}

/// Writes the verbose dump of a TCP segment.
pub fn tcp_to_text(b: &[u8]) -> (r: String)
    ensures
        r@ == tcp_text(b@),
{
    match TcpPacket::parse(b) {
        Some(p) => {
            let r = p.to_text();
            proof {
                let q = choose|q: TcpPacket| q.decodes(b@);
                assert(q.text() == p.text()) by {
                    assert(q.payload@ =~= p.payload@);
                    assert(q.options@ =~= p.options@);
                }
            }
            r
        },
        None => "TCP      : header incomplete".to_owned(),
    }
}

} // verus!
