//! Ethernet frames: the link-layer header, the flow key of a frame, and the
//! per-frame renderings of the raw and verbose reports.

use vstd::prelude::*;
use crate::ip_address::{dotted, ipv6_text};
use crate::ipv4_packet::{ipv4_header_len, ipv4_well_formed, IPv4Packet, Ipv4ProtocolType};
use crate::ipv6_packet::{
    groups_of,
    hop_by_hop_complete,
    hop_by_hop_len,
    ipv6_next_header_of,
    ipv6_well_formed,
    IPv6Packet,
    Ipv6NextHeader,
};
use crate::mac_address::{hex_joined, MacAddress};
use crate::report_generator::{ReportDataInfo, ReportFormat};
use crate::tcp_packet::tcp_well_formed;
use crate::udp_packet::udp_well_formed;
use crate::upper_layer_services::{service_for_ports, service_of, UpperLayerService};
use crate::utility::{be16, copy_range, push_str, read_u16};

verus! {

/// The link-layer payload types told apart here.
#[derive(Debug, Clone, Copy, PartialEq, Eq, Structural)]
pub enum EtherType {
    Ethernet802_3,
    IPV4,
    IPV6,
    ARP,
}

/// What the two type bytes of an Ethernet header say: a value up to 0x05DC
/// is an IEEE 802.3 length; 0x0800, 0x0806 and 0x86DD name IPv4, ARP and
/// IPv6; anything else is not told apart.
pub open spec fn ether_type_of(hi: u8, lo: u8) -> Option<EtherType> {
    let v = be16(hi, lo);
    if v <= 0x05DC {
        Some(EtherType::Ethernet802_3)
    } else if v == 0x0800 {
        Some(EtherType::IPV4)
    } else if v == 0x0806 {
        Some(EtherType::ARP)
    } else if v == 0x86DD {
        Some(EtherType::IPV6)
    } else {
        None
    }
}

/// Classifies the two type bytes of an Ethernet header.
pub fn decode_ether_type(ether_type_in_u8: &[u8]) -> (r: Option<EtherType>)
    requires
        ether_type_in_u8@.len() == 2,
    ensures
        r == ether_type_of(ether_type_in_u8@[0], ether_type_in_u8@[1]),
        be16(ether_type_in_u8@[0], ether_type_in_u8@[1]) <= 0x05DC ==> r == Some(
            EtherType::Ethernet802_3,
        ),
{
    let v = read_u16(ether_type_in_u8, 0);
    if v <= 0x05DC {
        Some(EtherType::Ethernet802_3)
    } else if v == 0x0800 {
        Some(EtherType::IPV4)
    } else if v == 0x0806 {
        Some(EtherType::ARP)
    } else if v == 0x86DD {
        Some(EtherType::IPV6)
    } else {
        None
    }
}

/// The name of a link-layer payload type, as the raw report writes it.
pub open spec fn ether_type_name(t: EtherType) -> Seq<char> {
    match t {
        EtherType::Ethernet802_3 => "Ethernet802_3"@,
        EtherType::IPV4 => "IPV4"@,
        EtherType::IPV6 => "IPV6"@,
        EtherType::ARP => "ARP"@,
    }
}

fn ether_type_str(t: EtherType) -> (r: &'static str)
    ensures
        r@ == ether_type_name(t),
{
    match t {
        EtherType::Ethernet802_3 => "Ethernet802_3",
        EtherType::IPV4 => "IPV4",
        EtherType::IPV6 => "IPV6",
        EtherType::ARP => "ARP",
    }
}

/// The link-layer header of a frame and what follows it.
pub struct EtherPacket {
    pub mac_addr_dst: MacAddress,
    pub mac_addr_src: MacAddress,
    pub ether_type: Option<EtherType>,
    pub payload: Vec<u8>,
}

impl EtherPacket {
    /// Splits a frame of at least fourteen bytes into header fields and payload.
    pub fn new(ether_data_in_u8: &[u8]) -> (r: EtherPacket)
        requires
            ether_data_in_u8@.len() >= 14,
        ensures
            r.mac_addr_dst.mac_raw@ == ether_data_in_u8@.subrange(0, 6),
            r.mac_addr_src.mac_raw@ == ether_data_in_u8@.subrange(6, 12),
            r.ether_type == ether_type_of(ether_data_in_u8@[12], ether_data_in_u8@[13]),
            r.payload@ == ether_data_in_u8@.subrange(14, ether_data_in_u8@.len() as int),
    {
        let (mac_addr_dst, mac_addr_src, ether_type) = EtherPacket::decode_ether_type(
            ether_data_in_u8,
        );
        EtherPacket {
            mac_addr_dst,
            mac_addr_src,
            ether_type,
            payload: copy_range(ether_data_in_u8, 14, ether_data_in_u8.len()),
        }
    }

    /// Reads the destination address, the source address and the type of a
    /// link-layer header.
    pub fn decode_ether_type(ether_data_in_u8: &[u8]) -> (r: (MacAddress, MacAddress, Option<EtherType>))
        requires
            ether_data_in_u8@.len() >= 14,
        ensures
            r.0.mac_raw@ == ether_data_in_u8@.subrange(0, 6),
            r.1.mac_raw@ == ether_data_in_u8@.subrange(6, 12),
            r.2 == ether_type_of(ether_data_in_u8@[12], ether_data_in_u8@[13]),
    {
        let dst = copy_range(ether_data_in_u8, 0, 6);
        let src = copy_range(ether_data_in_u8, 6, 12);
        let ty = copy_range(ether_data_in_u8, 12, 14);
        (
            MacAddress::new(dst.as_slice()),
            MacAddress::new(src.as_slice()),
            decode_ether_type(ty.as_slice()),
        )
    }
}

/// The six fields that identify a flow: two addresses and two ports as
/// text and numbers, the transport protocol and the service.
pub struct FlowKey {
    pub ip_src: Seq<char>,
    pub ip_dst: Seq<char>,
    pub port_src: u16,
    pub port_dst: u16,
    pub l4_protocol: Seq<char>,
    pub upper_service: Seq<char>,
}

/// The network layer of a link-layer payload, when it is a complete IPv4
/// (version 4) or IPv6 header: the two addresses as text, the number of the
/// transport protocol, and the transport bytes. One Hop-by-Hop header is
/// stepped over.
pub open spec fn network_view(et: Option<EtherType>, p: Seq<u8>) -> Option<
    (Seq<char>, Seq<char>, u8, Seq<u8>),
> {
    if et == Some(EtherType::IPV4) {
        if ipv4_well_formed(p) && p[0] / 16 == 4 {
            Some(
                (
                    dotted(p.subrange(12, 16)),
                    dotted(p.subrange(16, 20)),
                    p[9],
                    p.subrange(ipv4_header_len(p[0]) as int, p.len() as int),
                ),
            )
        } else {
            None
        }
    } else if et == Some(EtherType::IPV6) {
        if ipv6_well_formed(p) {
            let src = ipv6_text(groups_of(p.subrange(8, 24)));
            let dst = ipv6_text(groups_of(p.subrange(24, 40)));
            let rest = p.subrange(40, p.len() as int);
            if p[6] == 0 {
                if hop_by_hop_complete(rest) {
                    Some(
                        (
                            src,
                            dst,
                            rest[0],
                            rest.subrange(hop_by_hop_len(rest) as int, rest.len() as int),
                        ),
                    )
                } else {
                    None
                }
            } else {
                Some((src, dst, p[6], rest))
            }
        } else {
            None
        }
    } else {
        None
    }
}

/// The transport layer of a packet: TCP (6) or UDP (17) with a complete
/// header, as the protocol name and the two ports.
pub open spec fn transport_view(protocol: u8, l4: Seq<u8>) -> Option<(Seq<char>, u16, u16)> {
    if protocol == 6 && tcp_well_formed(l4) {
        Some(("TCP"@, be16(l4[0], l4[1]) as u16, be16(l4[2], l4[3]) as u16))
    } else if protocol == 17 && udp_well_formed(l4) {
        Some(("UDP"@, be16(l4[0], l4[1]) as u16, be16(l4[2], l4[3]) as u16))
    } else {
        None
    }
}

/// The flow key of a frame with this type and payload, when it has one: an
/// IPv4 or IPv6 packet carrying TCP or UDP with a known upper-layer service.
pub open spec fn flow_key_of(et: Option<EtherType>, p: Seq<u8>) -> Option<FlowKey> {
    match network_view(et, p) {
        Some((src, dst, protocol, l4)) => match transport_view(protocol, l4) {
            Some((name, port_src, port_dst)) => {
                let service = service_of(port_src, port_dst);
                if service != UpperLayerService::UNKNOWN {
                    Some(
                        FlowKey {
                            ip_src: src,
                            ip_dst: dst,
                            port_src,
                            port_dst,
                            l4_protocol: name,
                            upper_service: service.name_spec(),
                        },
                    )
                } else {
                    None
                }
            },
            None => None,
        },
        None => None,
    }
}

/// Reads the transport header of a packet with protocol number `protocol`.
fn transport_of(protocol: u8, l4: &[u8]) -> (r: Option<(&'static str, u16, u16)>)
    ensures
        match (r, transport_view(protocol, l4@)) {
            (Some(x), Some(y)) => x.0@ == y.0 && x.1 == y.1 && x.2 == y.2,
            (None, None) => true,
            _ => false,
        },
{
    let n = l4.len();
    if protocol == 6 && n >= 20 {
        let header_len: usize = ((l4[12] / 16) as usize) * 4;
        if 20 <= header_len && header_len <= n {
            return Some(("TCP", read_u16(l4, 0), read_u16(l4, 2)));
        }
    } else if protocol == 17 && n >= 8 {
        return Some(("UDP", read_u16(l4, 0), read_u16(l4, 2)));
    }
    None
}

/// A captured frame: its link-layer fields, the length that the capture
/// reported, and when it was captured (milliseconds since the Unix epoch, UTC).
pub struct EthernetPacket {
    pub mac_addr_dst: MacAddress,
    pub mac_addr_src: MacAddress,
    pub ether_type: Option<EtherType>,
    pub payload: Vec<u8>,
    pub size: usize,
    pub timestamp_recv: i64,
}

impl EthernetPacket {
    /// Decodes a captured frame of at least fourteen bytes.
    pub fn new(ether_data_in_u8: &[u8], size: usize, timestamp_recv: i64) -> (r: EthernetPacket)
        requires
            ether_data_in_u8@.len() >= 14,
        ensures
            r.mac_addr_dst.mac_raw@ == ether_data_in_u8@.subrange(0, 6),
            r.mac_addr_src.mac_raw@ == ether_data_in_u8@.subrange(6, 12),
            r.ether_type == ether_type_of(ether_data_in_u8@[12], ether_data_in_u8@[13]),
            r.payload@ == ether_data_in_u8@.subrange(14, ether_data_in_u8@.len() as int),
            r.size == size,
            r.timestamp_recv == timestamp_recv,
    {
        let header = EtherPacket::new(ether_data_in_u8);
        EthernetPacket {
            mac_addr_dst: header.mac_addr_dst,
            mac_addr_src: header.mac_addr_src,
            ether_type: header.ether_type,
            payload: header.payload,
            size,
            timestamp_recv,
        }
    }

    /// Decodes a captured frame, or gives `None` when it is shorter than a
    /// link-layer header.
    pub fn parse(ether_data_in_u8: &[u8], size: usize, timestamp_recv: i64) -> (r: Option<
        EthernetPacket,
    >)
        ensures
            r is Some <==> ether_data_in_u8@.len() >= 14,
            r matches Some(f) ==> {
                &&& f.mac_addr_dst.mac_raw@ == ether_data_in_u8@.subrange(0, 6)
                &&& f.mac_addr_src.mac_raw@ == ether_data_in_u8@.subrange(6, 12)
                &&& f.ether_type == ether_type_of(ether_data_in_u8@[12], ether_data_in_u8@[13])
                &&& f.payload@ == ether_data_in_u8@.subrange(14, ether_data_in_u8@.len() as int)
                &&& f.size == size
                &&& f.timestamp_recv == timestamp_recv
            },
    {
        if ether_data_in_u8.len() < 14 {
            None
        } else {
            Some(EthernetPacket::new(ether_data_in_u8, size, timestamp_recv))
        }
    }

    /// The flow key of this frame, when it has one.
    pub open spec fn flow_key(&self) -> Option<FlowKey> {
        flow_key_of(self.ether_type, self.payload@)
    }

    /// Reads the network layer: the two addresses as text, the number of the
    /// transport protocol, and the transport bytes.
    fn network_layer(&self) -> (r: Option<(String, String, u8, Vec<u8>)>)
        ensures
            match (r, network_view(self.ether_type, self.payload@)) {
                (Some(x), Some(y)) => x.0@ == y.0 && x.1@ == y.1 && x.2 == y.2 && x.3@ == y.3,
                (None, None) => true,
                _ => false,
            },
    {
        let p = self.payload.as_slice();
        match self.ether_type {
            Some(EtherType::IPV4) => {
                match IPv4Packet::parse(p) {
                    Some(packet) => {
                        if packet.version == 4 {
                            let src = packet.ip_addr_src.ipv4();
                            let dst = packet.ip_addr_dst.ipv4();
                            Some((src, dst, p[9], packet.payload))
                        } else {
                            None
                        }
                    },
                    None => None,
                }
            },
            Some(EtherType::IPV6) => {
                match IPv6Packet::parse(p) {
                    Some(packet) => {
                        let src = packet.ip_addr_src.ipv6();
                        let dst = packet.ip_addr_dst.ipv6();
                        if p[6] == 0 {
                            let n = packet.payload.len();
                            if n >= 2 {
                                let skip: usize = (packet.payload[1] as usize + 1) * 8;
                                if skip <= n {
                                    let first = packet.payload[0];
                                    let rest = packet.payload_after_hop_by_hop();
                                    return Some((src, dst, first, rest));
                                }
                            }
                            None
                        } else {
                            Some((src, dst, p[6], packet.payload))
                        }
                    },
                    None => None,
                }
            },
            _ => None,
        }
    }

    /// The flow data of this frame: its key fields, its length and its
    /// capture time; `None` for a frame that contributes to no flow.
    pub fn report_data(&self) -> (r: Option<ReportDataInfo>)
        ensures
            r is Some <==> self.flow_key() is Some,
            r matches Some(info) ==> {
                &&& info.key() == self.flow_key()->0
                &&& info.num_bytes == self.size
                &&& info.timestamp_recv == self.timestamp_recv
            },
    {
        match self.network_layer() {
            Some((ip_src, ip_dst, protocol, l4)) => {
                match transport_of(protocol, l4.as_slice()) {
                    Some((name, port_src, port_dst)) => {
                        let service = service_for_ports(port_src, port_dst);
                        match service {
                            UpperLayerService::UNKNOWN => None,
                            _ => Some(
                                ReportDataInfo {
                                    ip_src,
                                    ip_dst,
                                    port_src,
                                    port_dst,
                                    l4_protocol: name.to_owned(),
                                    upper_service: service.name().to_owned(),
                                    num_bytes: self.size,
                                    timestamp_recv: self.timestamp_recv,
                                },
                            ),
                        }
                    },
                    None => None,
                }
            },
            None => None,
        }
    }
}

/// A type field up to 0x05DC is an IEEE 802.3 length, even though 0x0800
/// (IPv4) lies above it; such frames have no flow key.
pub proof fn lemma_ieee_802_3(hi: u8, lo: u8, p: Seq<u8>)
    requires
        be16(hi, lo) <= 0x05DC,
    ensures
        ether_type_of(hi, lo) == Some(EtherType::Ethernet802_3),
        flow_key_of(ether_type_of(hi, lo), p) is None,
{
}

/// An IPv4 packet whose header length is below five words, or whose version
/// is not 4, is decoded but gives no flow key.
pub proof fn lemma_bad_ipv4_header(p: Seq<u8>)
    requires
        p.len() >= 1,
        p[0] as nat % 16 < 5 || p[0] as nat / 16 != 4,
    ensures
        flow_key_of(Some(EtherType::IPV4), p) is None,
{
}

/// A TCP segment whose data offset points past its end gives no flow key.
pub proof fn lemma_tcp_offset_past_end(et: Option<EtherType>, p: Seq<u8>)
    requires
        network_view(et, p) matches Some(v) && v.2 == 6 && v.3.len() > 12
            && crate::tcp_packet::tcp_header_len(v.3[12]) > v.3.len(),
    ensures
        flow_key_of(et, p) is None,
{
}

/// The protocol tags that the raw report writes after the link-layer type.
pub open spec fn raw_tags(et: Option<EtherType>, p: Seq<u8>) -> Seq<char> {
    match et {
        Some(EtherType::Ethernet802_3) => "Ethernet 802.3 : Unknown Details"@,
        Some(EtherType::IPV4) => if ipv4_well_formed(p) {
            match crate::ipv4_packet::ipv4_protocol_of(p[9]) {
                Some(t) => ipv4_protocol_name(t),
                None => "Other Protocol incapsulated in IPv4 (Unknown Protocol)"@,
            }
        } else {
            "IPv4 header incomplete"@
        },
        Some(EtherType::IPV6) => if ipv6_well_formed(p) {
            match ipv6_next_header_of(p[6]) {
                Some(t) => ipv6_next_header_name(t),
                None => "Other Protocol encapsulated in IPv6 (Unknown Protocol)"@,
            }
        } else {
            "IPv6 header incomplete"@
        },
        Some(EtherType::ARP) => "ARP      : Unknown Details"@,
        None => "Other Protocol incapsulated in Ethernet frame (Unknown Protocol)"@,
    }
}

/// The name of an IPv4 transport protocol, as the raw report writes it.
pub open spec fn ipv4_protocol_name(t: Ipv4ProtocolType) -> Seq<char> {
    match t {
        Ipv4ProtocolType::ICMPv4 => "ICMPv4"@,
        Ipv4ProtocolType::IGMP => "IGMP"@,
        Ipv4ProtocolType::TCP => "TCP"@,
        Ipv4ProtocolType::UDP => "UDP"@,
    }
}

/// The name of an IPv6 next header, as the raw report writes it.
pub open spec fn ipv6_next_header_name(t: Ipv6NextHeader) -> Seq<char> {
    match t {
        Ipv6NextHeader::IPv6HopByHopOption => "IPv6HopByHopOption"@,
        Ipv6NextHeader::ICMPv4 => "ICMPv4"@,
        Ipv6NextHeader::IGMP => "IGMP"@,
        Ipv6NextHeader::TCP => "TCP"@,
        Ipv6NextHeader::UDP => "UDP"@,
        Ipv6NextHeader::ICMPv6 => "ICMPv6"@,
    }
}

fn ipv4_protocol_str(t: Ipv4ProtocolType) -> (r: &'static str)
    ensures
        r@ == ipv4_protocol_name(t),
{
    match t {
        Ipv4ProtocolType::ICMPv4 => "ICMPv4",
        Ipv4ProtocolType::IGMP => "IGMP",
        Ipv4ProtocolType::TCP => "TCP",
        Ipv4ProtocolType::UDP => "UDP",
    }
}

fn ipv6_next_header_str(t: Ipv6NextHeader) -> (r: &'static str)
    ensures
        r@ == ipv6_next_header_name(t),
{
    match t {
        Ipv6NextHeader::IPv6HopByHopOption => "IPv6HopByHopOption",
        Ipv6NextHeader::ICMPv4 => "ICMPv4",
        Ipv6NextHeader::IGMP => "IGMP",
        Ipv6NextHeader::TCP => "TCP",
        Ipv6NextHeader::UDP => "UDP",
        Ipv6NextHeader::ICMPv6 => "ICMPv6",
    }
}

/// The verbose dump of what a frame carries.
pub open spec fn verbose_body(et: Option<EtherType>, p: Seq<u8>) -> Seq<char> {
    match et {
        Some(EtherType::Ethernet802_3) => "Ethernet 802.3 : Unknown Details"@,
        Some(EtherType::IPV4) => if ipv4_well_formed(p) {
            (choose|q: IPv4Packet| q.decodes(p)).text()
        } else {
            "IPv4 header incomplete"@
        },
        Some(EtherType::IPV6) => if ipv6_well_formed(p) {
            (choose|q: IPv6Packet| q.decodes(p)).text()
        } else {
            "IPv6 header incomplete"@
        },
        Some(EtherType::ARP) => "ARP      : Unknown Details"@,
        None => "Other Protocol incapsulated in Ethernet frame (Unknown Protocol)"@,
    }
}

/// How a frame is written in a report of format `f`: for the raw format,
/// one line with its protocol tags; for the verbose format, its addresses
/// and a dump of every layer; the flow report writes frames as rows instead.
pub open spec fn frame_text(frame: EthernetPacket, f: ReportFormat) -> Seq<char> {
    match f {
        ReportFormat::Raw => "Ethernet "@ + match frame.ether_type {
            Some(t) => ether_type_name(t) + " "@,
            None => Seq::empty(),
        } + raw_tags(frame.ether_type, frame.payload@) + "\n"@,
        ReportFormat::Verbose => "Ethernet : "@ + hex_joined(frame.mac_addr_dst.mac_raw@, ':')
            + " -> "@ + hex_joined(frame.mac_addr_src.mac_raw@, ':') + " \n"@ + verbose_body(
            frame.ether_type,
            frame.payload@,
        ) + "\n"@,
        ReportFormat::Report => "Printing format for report"@,
    }
}

/// Renders a frame for a report of a given format.
pub trait DisplayAs {
    /// The text that a report of format `report_format` shows for this value.
    spec fn shown_as(&self, report_format: ReportFormat) -> Seq<char>;

    fn display_as(&self, report_format: ReportFormat) -> (r: String)
        ensures
            r@ == self.shown_as(report_format),
    ;
}

impl EthernetPacket {
    fn raw_tags_to_text(&self) -> (r: String)
        ensures
            r@ == raw_tags(self.ether_type, self.payload@),
    {
        let p = self.payload.as_slice();
        match self.ether_type {
            Some(EtherType::Ethernet802_3) => "Ethernet 802.3 : Unknown Details".to_owned(),
            Some(EtherType::IPV4) => {
                if IPv4Packet::parse(p).is_some() {
                    match IPv4Packet::to_protocol_type(p[9]) {
                        Some(t) => ipv4_protocol_str(t).to_owned(),
                        None => "Other Protocol incapsulated in IPv4 (Unknown Protocol)".to_owned(),
                    }
                } else {
                    "IPv4 header incomplete".to_owned()
                }
            },
            Some(EtherType::IPV6) => {
                if p.len() >= 40 {
                    match IPv6Packet::to_protocol_type(p[6]) {
                        Some(t) => ipv6_next_header_str(t).to_owned(),
                        None => "Other Protocol encapsulated in IPv6 (Unknown Protocol)".to_owned(),
                    }
                } else {
                    "IPv6 header incomplete".to_owned()
                }
            },
            Some(EtherType::ARP) => "ARP      : Unknown Details".to_owned(),
            None => "Other Protocol incapsulated in Ethernet frame (Unknown Protocol)".to_owned(),
        }
    }

    fn verbose_body_to_text(&self) -> (r: String)
        ensures
            r@ == verbose_body(self.ether_type, self.payload@),
    {
        let p = self.payload.as_slice();
        match self.ether_type {
            Some(EtherType::Ethernet802_3) => "Ethernet 802.3 : Unknown Details".to_owned(),
            Some(EtherType::IPV4) => match IPv4Packet::parse(p) {
                Some(packet) => {
                    let r = packet.to_text();
                    proof {
                        let q = choose|q: IPv4Packet| q.decodes(p@);
                        assert(q.text() == packet.text()) by {
                            assert(q.options@ =~= packet.options@);
                            assert(q.payload@ =~= packet.payload@);
                            assert(q.ip_addr_src.ip_raw@ =~= packet.ip_addr_src.ip_raw@);
                            assert(q.ip_addr_dst.ip_raw@ =~= packet.ip_addr_dst.ip_raw@);
                        }
                    }
                    r
                },
                None => "IPv4 header incomplete".to_owned(),
            },
            Some(EtherType::IPV6) => match IPv6Packet::parse(p) {
                Some(packet) => {
                    let r = packet.to_text();
                    proof {
                        let q = choose|q: IPv6Packet| q.decodes(p@);
                        assert(q.text() == packet.text()) by {
                            assert(q.payload@ =~= packet.payload@);
                            assert(q.ip_addr_src.segments@ =~= packet.ip_addr_src.segments@);
                            assert(q.ip_addr_dst.segments@ =~= packet.ip_addr_dst.segments@);
                        }
                    }
                    r
                },
                None => "IPv6 header incomplete".to_owned(),
            },
            Some(EtherType::ARP) => "ARP      : Unknown Details".to_owned(),
            None => "Other Protocol incapsulated in Ethernet frame (Unknown Protocol)".to_owned(),
        }
    }

    /// Writes the frame as a report of format `report_format` shows it.
    pub fn render(&self, report_format: ReportFormat) -> (r: String)
        ensures
            r@ == frame_text(*self, report_format),
    {
        match report_format {
            ReportFormat::Raw => {
                let mut s = "Ethernet ".to_owned();
                match self.ether_type {
                    Some(t) => {
                        push_str(&mut s, ether_type_str(t));
                        push_str(&mut s, " ");
                    },
                    None => {},
                }
                let tags = self.raw_tags_to_text();
                push_str(&mut s, tags.as_str());
                push_str(&mut s, "\n");
                s
            },
            ReportFormat::Verbose => {
                let mut s = "Ethernet : ".to_owned();
                let dst = self.mac_addr_dst.mac();
                push_str(&mut s, dst.as_str());
                push_str(&mut s, " -> ");
                let src = self.mac_addr_src.mac();
                push_str(&mut s, src.as_str());
                push_str(&mut s, " \n");
                let body = self.verbose_body_to_text();
                push_str(&mut s, body.as_str());
                push_str(&mut s, "\n");
                s
            },
            ReportFormat::Report => "Printing format for report".to_owned(),
        }
    }
}

impl DisplayAs for EthernetPacket {
    open spec fn shown_as(&self, report_format: ReportFormat) -> Seq<char> {
        frame_text(*self, report_format)
    }

    fn display_as(&self, report_format: ReportFormat) -> (r: String) {
        self.render(report_format)
    }
}

} // verus!
