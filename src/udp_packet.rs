//! UDP datagrams.

use vstd::prelude::*;
use crate::upper_layer_services::{
    print_upper_layer,
    service_for_ports,
    service_of,
    upper_layer_text,
    UpperLayerService,
};
use crate::utility::{
    be16,
    compact_hex,
    copy_range,
    decimal,
    hex_padded,
    push_decimal,
    push_hex_padded,
    push_str,
    read_u16,
    to_compact_hex,
};

verus! {

/// Whether `b` starts with a complete eight-byte UDP header.
pub open spec fn udp_well_formed(b: Seq<u8>) -> bool {
    b.len() >= 8
}

/// A decoded UDP datagram.
pub struct UdpPacket {
    pub src_port: u16,
    pub dst_port: u16,
    pub length: u16,
    pub checksum: u16,
    pub upper_layer_service: UpperLayerService,
    pub payload: Vec<u8>,
}

impl UdpPacket {
    /// What decoding the well-formed datagram `b` gives.
    pub open spec fn decodes(self, b: Seq<u8>) -> bool {
        &&& self.src_port as nat == be16(b[0], b[1])
        &&& self.dst_port as nat == be16(b[2], b[3])
        &&& self.length as nat == be16(b[4], b[5])
        &&& self.checksum as nat == be16(b[6], b[7])
        &&& self.upper_layer_service == service_of(self.src_port, self.dst_port)
        &&& self.payload@ == b.subrange(8, b.len() as int)
    }

    /// Decodes a datagram whose header is complete.
    pub fn new(udp_data_in_u8: &[u8]) -> (r: UdpPacket)
        requires
            udp_well_formed(udp_data_in_u8@),
        ensures
            r.decodes(udp_data_in_u8@),
    {
        let b = udp_data_in_u8;
        let src_port = read_u16(b, 0);
        let dst_port = read_u16(b, 2);
        UdpPacket {
            src_port,
            dst_port,
            length: read_u16(b, 4),
            checksum: read_u16(b, 6),
            upper_layer_service: service_for_ports(src_port, dst_port),
            payload: copy_range(b, 8, b.len()),
        }
    }

    /// Decodes a datagram, or gives `None` when `b` holds no complete header.
    pub fn parse(udp_data_in_u8: &[u8]) -> (r: Option<UdpPacket>)
        ensures
            r is Some <==> udp_well_formed(udp_data_in_u8@),
            r matches Some(p) ==> p.decodes(udp_data_in_u8@),
    {
        if udp_data_in_u8.len() < 8 {
            None
        } else {
            Some(UdpPacket::new(udp_data_in_u8))
        }
    }

    /// The verbose dump of the datagram.
    pub open spec fn text(self) -> Seq<char> {
        "UDP      : "@ + decimal(self.src_port as nat) + " -> "@ + decimal(self.dst_port as nat)
            + "  - [length: "@ + decimal(self.length as nat) + ", checksum: 0x"@ + hex_padded(
            self.checksum as nat,
            2,
        ) + "]\n"@ + upper_layer_text(self.upper_layer_service) + "\n > ["@ + compact_hex(
            self.payload@,
        ) + "]"@
    }

    /// Writes the verbose dump of the datagram.
    pub fn to_text(&self) -> (r: String)
        ensures
            r@ == self.text(),
    {
        let mut s = String::new();
        push_str(&mut s, "UDP      : ");
        push_decimal(&mut s, self.src_port as u64);
        push_str(&mut s, " -> ");
        push_decimal(&mut s, self.dst_port as u64);
        push_str(&mut s, "  - [length: ");
        push_decimal(&mut s, self.length as u64);
        push_str(&mut s, ", checksum: 0x");
        push_hex_padded(&mut s, self.checksum as u64, 2);
        push_str(&mut s, "]\n");
        let service = print_upper_layer(self.upper_layer_service);
        push_str(&mut s, service.as_str());
        push_str(&mut s, "\n > [");
        let payload = to_compact_hex(self.payload.as_slice());
        push_str(&mut s, payload.as_str());
        push_str(&mut s, "]");
        s
    }
}

} // verus!
