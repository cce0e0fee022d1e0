//! Live network traffic analysis: a layered frame decoder, a keyed flow
//! aggregator with token filters, report rendering, and the operational
//! state machine that drives capture, aggregation and periodic reporting.

pub mod utility;
pub mod upper_layer_services;
pub mod mac_address;
pub mod ip_address;
pub mod tcp_packet;
pub mod udp_packet;
pub mod ipv4_packet;
pub mod ipv6_packet;
pub mod ethernet_packet;
pub mod flow_key;
pub mod timestamp;
pub mod report_generator;
pub mod snooper;
pub mod workers;

pub use snooper::{ConfigOptions, PSError, PacketSnooper, State};
