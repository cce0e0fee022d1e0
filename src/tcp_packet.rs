//! TCP segments.

use vstd::prelude::*;
use crate::upper_layer_services::{
    print_upper_layer,
    service_for_ports,
    service_of,
    upper_layer_text,
    UpperLayerService,
};
use crate::utility::{
    be16,
    be32,
    compact_hex,
    copy_range,
    decimal,
    hex,
    hex_padded,
    push_decimal,
    push_hex,
    push_hex_padded,
    push_str,
    read_u16,
    read_u32,
    to_compact_hex,
};

verus! {

/// The header length in bytes that the data-offset byte of a TCP header gives.
pub open spec fn tcp_header_len(data_offset: u8) -> nat {
    (data_offset as nat / 16) * 4
}

/// Whether `b` starts with a complete TCP header: the fixed twenty bytes, and
/// a data offset that covers them and stays within `b`.
pub open spec fn tcp_well_formed(b: Seq<u8>) -> bool {
    &&& b.len() >= 20
    &&& 20 <= tcp_header_len(b[12])
    &&& tcp_header_len(b[12]) <= b.len()
}

/// A decoded TCP segment.
pub struct TcpPacket {
    pub src_port: u16,
    pub dst_port: u16,
    pub upper_layer_service: UpperLayerService,
    pub sequence_number: u32,
    pub ack_number: u32,
    /// The byte that holds the data offset in its high nibble.
    pub data_offset: u8,
    pub flags: u8,
    pub window_size: u16,
    pub checksum: u16,
    pub urgent_pointer: u16,
    pub options: Vec<u8>,
    pub payload: Vec<u8>,
}

impl TcpPacket {
    /// What decoding the well-formed segment `b` gives.
    pub open spec fn decodes(self, b: Seq<u8>) -> bool {
        &&& self.src_port as nat == be16(b[0], b[1])
        &&& self.dst_port as nat == be16(b[2], b[3])
        &&& self.sequence_number as nat == be32(b[4], b[5], b[6], b[7])
        &&& self.ack_number as nat == be32(b[8], b[9], b[10], b[11])
        &&& self.data_offset == b[12]
        &&& self.flags == b[13]
        &&& self.window_size as nat == be16(b[14], b[15])
        &&& self.checksum as nat == be16(b[16], b[17])
        &&& self.urgent_pointer as nat == be16(b[18], b[19])
        &&& self.upper_layer_service == service_of(self.src_port, self.dst_port)
        &&& self.options@ == b.subrange(20, tcp_header_len(b[12]) as int)
        &&& self.payload@ == b.subrange(tcp_header_len(b[12]) as int, b.len() as int)
    }

    /// Decodes a well-formed segment.
    pub fn new(tcp_data_in_u8: &[u8]) -> (r: TcpPacket)
        requires
            tcp_well_formed(tcp_data_in_u8@),
        ensures
            r.decodes(tcp_data_in_u8@),
    {
        let b = tcp_data_in_u8;
        let src_port = read_u16(b, 0);
        let dst_port = read_u16(b, 2);
        let header_len: usize = ((b[12] / 16) as usize) * 4;
        TcpPacket {
            src_port,
            dst_port,
            upper_layer_service: service_for_ports(src_port, dst_port),
            sequence_number: read_u32(b, 4),
            ack_number: read_u32(b, 8),
            data_offset: b[12],
            flags: b[13],
            window_size: read_u16(b, 14),
            checksum: read_u16(b, 16),
            urgent_pointer: read_u16(b, 18),
            options: copy_range(b, 20, header_len),
            payload: copy_range(b, header_len, b.len()),
        }
    }

    /// Decodes a segment, or gives `None` when `b` holds no complete header.
    pub fn parse(tcp_data_in_u8: &[u8]) -> (r: Option<TcpPacket>)
        ensures
            r is Some <==> tcp_well_formed(tcp_data_in_u8@),
            r matches Some(p) ==> p.decodes(tcp_data_in_u8@),
    {
        let n = tcp_data_in_u8.len();
        if n < 20 {
            return None;
        }
        let header_len: usize = ((tcp_data_in_u8[12] / 16) as usize) * 4;
        if header_len < 20 || header_len > n {
            return None;
        }
        Some(TcpPacket::new(tcp_data_in_u8))
    }

    /// The header length in bytes.
    pub fn data_offset(&self) -> (r: u8)
        ensures
            r as nat == tcp_header_len(self.data_offset),
    {
        (self.data_offset / 16) * 4
    }

    /// The verbose dump of the segment.
    pub open spec fn text(self) -> Seq<char> {
        "TCP      : "@ + decimal(self.src_port as nat) + " -> "@ + decimal(self.dst_port as nat)
            + "\n > [seq#: "@ + decimal(self.sequence_number as nat) + ", ACK#: "@ + decimal(
            self.ack_number as nat,
        ) + ", data-offset: "@ + decimal(tcp_header_len(self.data_offset)) + "B, flags: 0x"@
            + hex(self.flags as nat) + ", windows-size: "@ + decimal(self.window_size as nat)
            + ", checksum: 0x"@ + hex_padded(self.checksum as nat, 2) + ", urgent-pointer: 0x"@
            + hex_padded(self.urgent_pointer as nat, 2) + " ]\n"@ + upper_layer_text(
            self.upper_layer_service,
        ) + "\n Options > ["@ + compact_hex(self.options@) + "]\n Payload > ["@ + compact_hex(
            self.payload@,
        ) + "]"@
    }

    /// Writes the verbose dump of the segment.
    pub fn to_text(&self) -> (r: String)
        ensures
            r@ == self.text(),
    {
        let mut s = String::new();
        push_str(&mut s, "TCP      : ");
        push_decimal(&mut s, self.src_port as u64);
        push_str(&mut s, " -> ");
        push_decimal(&mut s, self.dst_port as u64);
        push_str(&mut s, "\n > [seq#: ");
        push_decimal(&mut s, self.sequence_number as u64);
        push_str(&mut s, ", ACK#: ");
        push_decimal(&mut s, self.ack_number as u64);
        push_str(&mut s, ", data-offset: ");
        push_decimal(&mut s, self.data_offset() as u64);
        push_str(&mut s, "B, flags: 0x");
        push_hex(&mut s, self.flags as u64);
        push_str(&mut s, ", windows-size: ");
        push_decimal(&mut s, self.window_size as u64);
        push_str(&mut s, ", checksum: 0x");
        push_hex_padded(&mut s, self.checksum as u64, 2);
        push_str(&mut s, ", urgent-pointer: 0x");
        push_hex_padded(&mut s, self.urgent_pointer as u64, 2);
        push_str(&mut s, " ]\n");
        let service = print_upper_layer(self.upper_layer_service);
        push_str(&mut s, service.as_str());
        push_str(&mut s, "\n Options > [");
        let options = to_compact_hex(self.options.as_slice());
        push_str(&mut s, options.as_str());
        push_str(&mut s, "]\n Payload > [");
        let payload = to_compact_hex(self.payload.as_slice());
        push_str(&mut s, payload.as_str());
        push_str(&mut s, "]");
        s
    }
}

} // verus!
