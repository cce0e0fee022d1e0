//! IPv6 packets.

use vstd::prelude::*;
use crate::ip_address::{ipv6_text, IPv6Address};
use crate::ipv4_packet::{tcp_text, tcp_to_text, udp_text, udp_to_text};
use crate::utility::{compact_hex, copy_range, push_str, to_compact_hex};

verus! {

/// The headers that the next-header field of an IPv6 header names.
#[derive(Debug, Clone, Copy, PartialEq, Eq, Structural)]
pub enum Ipv6NextHeader {
    IPv6HopByHopOption,
    ICMPv4,
    IGMP,
    TCP,
    UDP,
    ICMPv6,
}

/// The header that a next-header number names, if it is one of those told
/// apart here.
pub open spec fn ipv6_next_header_of(v: u8) -> Option<Ipv6NextHeader> {
    if v == 0 {
        Some(Ipv6NextHeader::IPv6HopByHopOption)
    } else if v == 1 {
        Some(Ipv6NextHeader::ICMPv4)
    } else if v == 2 {
        Some(Ipv6NextHeader::IGMP)
    } else if v == 6 {
        Some(Ipv6NextHeader::TCP)
    } else if v == 17 {
        Some(Ipv6NextHeader::UDP)
    } else if v == 58 {
        Some(Ipv6NextHeader::ICMPv6)
    } else {
        None
    }
}

/// The eight 16-bit groups that sixteen bytes in network order hold.
pub open spec fn groups_of(b: Seq<u8>) -> Seq<u16> {
    Seq::new(8, |i: int| (b[2 * i] as nat * 256 + b[2 * i + 1] as nat) as u16)
}

/// Whether `b` starts with the complete forty-byte IPv6 header.
pub open spec fn ipv6_well_formed(b: Seq<u8>) -> bool {
    b.len() >= 40
}

/// The length in bytes of the Hop-by-Hop header at the start of `p`.
pub open spec fn hop_by_hop_len(p: Seq<u8>) -> nat {
    (p[1] as nat + 1) * 8
}

/// Whether `p` starts with a complete Hop-by-Hop header.
pub open spec fn hop_by_hop_complete(p: Seq<u8>) -> bool {
    p.len() >= 2 && hop_by_hop_len(p) <= p.len()
}

/// A decoded IPv6 packet.
pub struct IPv6Packet {
    pub next_header: Option<Ipv6NextHeader>,
    pub ip_addr_src: IPv6Address,
    pub ip_addr_dst: IPv6Address,
    pub payload: Vec<u8>,
}

impl IPv6Packet {
    /// What decoding the well-formed packet `b` gives.
    pub open spec fn decodes(self, b: Seq<u8>) -> bool {
        &&& self.next_header == ipv6_next_header_of(b[6])
        &&& self.ip_addr_src.segments@ == groups_of(b.subrange(8, 24))
        &&& self.ip_addr_dst.segments@ == groups_of(b.subrange(24, 40))
        &&& self.payload@ == b.subrange(40, b.len() as int)
    }

    /// Decodes a packet whose fixed header is complete.
    pub fn new(ipv6_data_in_u8: &[u8]) -> (r: IPv6Packet)
        requires
            ipv6_well_formed(ipv6_data_in_u8@),
        ensures
            r.decodes(ipv6_data_in_u8@),
    {
        let b = ipv6_data_in_u8;
        let src_bytes = copy_range(b, 8, 24);
        let dst_bytes = copy_range(b, 24, 40);
        let ip_addr_src = IPv6Address::new(src_bytes.as_slice());
        let ip_addr_dst = IPv6Address::new(dst_bytes.as_slice());
        proof {
            assert(ip_addr_src.segments@ =~= groups_of(b@.subrange(8, 24)));
            assert(ip_addr_dst.segments@ =~= groups_of(b@.subrange(24, 40)));
        }
        IPv6Packet {
            next_header: IPv6Packet::to_protocol_type(b[6]),
            ip_addr_src,
            ip_addr_dst,
            payload: copy_range(b, 40, b.len()),
        }
    }

    /// Decodes a packet, or gives `None` when `b` holds no complete header.
    pub fn parse(ipv6_data_in_u8: &[u8]) -> (r: Option<IPv6Packet>)
        ensures
            r is Some <==> ipv6_well_formed(ipv6_data_in_u8@),
            r matches Some(p) ==> p.decodes(ipv6_data_in_u8@),
    {
        if ipv6_data_in_u8.len() < 40 {
            None
        } else {
            Some(IPv6Packet::new(ipv6_data_in_u8))
        }
    }

    /// The header that a next-header number names.
    pub fn to_protocol_type(next_header_in_u8: u8) -> (r: Option<Ipv6NextHeader>)
        ensures
            r == ipv6_next_header_of(next_header_in_u8),
    {
        match next_header_in_u8 {
            0 => Some(Ipv6NextHeader::IPv6HopByHopOption),
            1 => Some(Ipv6NextHeader::ICMPv4),
            2 => Some(Ipv6NextHeader::IGMP),
            6 => Some(Ipv6NextHeader::TCP),
            17 => Some(Ipv6NextHeader::UDP),
            58 => Some(Ipv6NextHeader::ICMPv6),
            _ => None,
        }
    }

    /// The bytes after the Hop-by-Hop header at the start of the payload.
    pub open spec fn after_hop_by_hop(self) -> Seq<u8> {
        if hop_by_hop_complete(self.payload@) {
            self.payload@.subrange(hop_by_hop_len(self.payload@) as int, self.payload@.len() as int)
        } else {
            Seq::empty()
        }
    }

    /// The verbose dump of what follows a Hop-by-Hop header.
    pub open spec fn hop_by_hop_text(self) -> Seq<char> {
        if self.payload@.len() == 0 {
            Seq::empty()
        } else {
            match ipv6_next_header_of(self.payload@[0]) {
                Some(Ipv6NextHeader::ICMPv4) => "ICMPv4   : Unknown Details"@,
                Some(Ipv6NextHeader::IGMP) => "IGMP     : Unknown Details"@,
                Some(Ipv6NextHeader::UDP) => udp_text(self.after_hop_by_hop()),
                Some(Ipv6NextHeader::TCP) => tcp_text(self.after_hop_by_hop()),
                Some(Ipv6NextHeader::ICMPv6) => "ICMPv6   : Unknown Details"@,
                _ => "Other Protocol encapsulated in IPv6 Hop by Hop Option (Unknown Protocol)"@,
            }
        }
    }

    /// The verbose dump of what the packet carries.
    pub open spec fn transport_text(self) -> Seq<char> {
        match self.next_header {
            Some(Ipv6NextHeader::IPv6HopByHopOption) => "IPv6Hop  : Hop by hop extension header\n"@
                + self.hop_by_hop_text(),
            Some(Ipv6NextHeader::ICMPv4) => "ICMPv4   : Unknown Details"@,
            Some(Ipv6NextHeader::IGMP) => "IGMP     : Unknown Details"@,
            Some(Ipv6NextHeader::UDP) => udp_text(self.payload@),
            Some(Ipv6NextHeader::TCP) => tcp_text(self.payload@),
            Some(Ipv6NextHeader::ICMPv6) => "ICMPv6   : Unknown Details"@,
            None => "Other Protocol encapsulated in IPv6 (Unknown Protocol)"@,
        }
    }

    /// The verbose dump of the packet.
    pub open spec fn text(self) -> Seq<char> {
        "IPv6     : "@ + ipv6_text(self.ip_addr_src.segments@) + " -> "@ + ipv6_text(
            self.ip_addr_dst.segments@,
        ) + "\n"@ + self.transport_text() + "\n > ["@ + compact_hex(self.payload@) + "]"@
    }

    /// Copies the bytes after the Hop-by-Hop header at the start of the payload.
    pub fn payload_after_hop_by_hop(&self) -> (r: Vec<u8>)
        ensures
            r@ == self.after_hop_by_hop(),
    {
        let n = self.payload.len();
        if n >= 2 {
            let skip: usize = (self.payload[1] as usize + 1) * 8;
            if skip <= n {
                return copy_range(self.payload.as_slice(), skip, n);
            }
        }
        Vec::new()
    }

    /// Writes the verbose dump of what follows a Hop-by-Hop header.
    fn hop_by_hop_to_text(&self) -> (r: String)
        ensures
            r@ == self.hop_by_hop_text(),
    {
        if self.payload.len() == 0 {
            return String::new();
        }
        match IPv6Packet::to_protocol_type(self.payload[0]) {
            Some(Ipv6NextHeader::ICMPv4) => "ICMPv4   : Unknown Details".to_owned(),
            Some(Ipv6NextHeader::IGMP) => "IGMP     : Unknown Details".to_owned(),
            Some(Ipv6NextHeader::UDP) => {
                let rest = self.payload_after_hop_by_hop();
                udp_to_text(rest.as_slice())
            },
            Some(Ipv6NextHeader::TCP) => {
                let rest = self.payload_after_hop_by_hop();
                tcp_to_text(rest.as_slice())
            },
            Some(Ipv6NextHeader::ICMPv6) => "ICMPv6   : Unknown Details".to_owned(),
            _ => "Other Protocol encapsulated in IPv6 Hop by Hop Option (Unknown Protocol)".to_owned(),
        }
    }

    /// Writes the verbose dump of the packet.
    pub fn to_text(&self) -> (r: String)
        ensures
            r@ == self.text(),
    {
        let mut s = String::new();
        push_str(&mut s, "IPv6     : ");
        let src = self.ip_addr_src.ipv6();
        push_str(&mut s, src.as_str());
        push_str(&mut s, " -> ");
        let dst = self.ip_addr_dst.ipv6();
        push_str(&mut s, dst.as_str());
        push_str(&mut s, "\n");
        let transport = match self.next_header {
            Some(Ipv6NextHeader::IPv6HopByHopOption) => {
                let mut t = "IPv6Hop  : Hop by hop extension header\n".to_owned();
                let inner = self.hop_by_hop_to_text();
                push_str(&mut t, inner.as_str());
                t
            },
            Some(Ipv6NextHeader::ICMPv4) => "ICMPv4   : Unknown Details".to_owned(),
            Some(Ipv6NextHeader::IGMP) => "IGMP     : Unknown Details".to_owned(),
            Some(Ipv6NextHeader::UDP) => udp_to_text(self.payload.as_slice()),
            Some(Ipv6NextHeader::TCP) => tcp_to_text(self.payload.as_slice()),
            Some(Ipv6NextHeader::ICMPv6) => "ICMPv6   : Unknown Details".to_owned(),
            None => "Other Protocol encapsulated in IPv6 (Unknown Protocol)".to_owned(),
        };
        push_str(&mut s, transport.as_str());
        push_str(&mut s, "\n > [");
        let payload = to_compact_hex(self.payload.as_slice());
        push_str(&mut s, payload.as_str());
        push_str(&mut s, "]");
        s
    }
}

} // verus!
