//! Upper-layer services, told apart by well-known port numbers.

use vstd::prelude::*;
use crate::utility::{padded, push_padded, push_str};

verus! {

/// The port that `known_port` returns when neither port is below 1024.
pub const UNKNOWN_PORT: u16 = 65354;

/// An application-level service recognised by its well-known port.
#[derive(Debug, Clone, Copy, PartialEq, Eq, Structural)]
pub enum UpperLayerService {
    FTP,
    SSH,
    SMTP,
    DNS,
    HTTP,
    POP3,
    SFTP,
    SNMP,
    BGP,
    HTTPS,
    UNKNOWN,
}

/// The service that a port number stands for; ports outside the table
/// stand for none.
pub open spec fn service_of_port(p: u16) -> UpperLayerService {
    if p == 20 {
        UpperLayerService::FTP
    } else if p == 22 {
        UpperLayerService::SSH
    } else if p == 23 {
        UpperLayerService::SMTP
    } else if p == 53 {
        UpperLayerService::DNS
    } else if p == 80 {
        UpperLayerService::HTTP
    } else if p == 110 {
        UpperLayerService::POP3
    } else if p == 115 {
        UpperLayerService::SFTP
    } else if p == 161 {
        UpperLayerService::SNMP
    } else if p == 179 {
        UpperLayerService::BGP
    } else if p == 443 {
        UpperLayerService::HTTPS
    } else {
        UpperLayerService::UNKNOWN
    }
}

/// Whether a port is one of the well-known ports of the table.
pub open spec fn is_known_port(p: u16) -> bool {
    p == 20 || p == 22 || p == 23 || p == 53 || p == 80 || p == 110 || p == 115 || p == 161 || p
        == 179 || p == 443
}

/// The port that decides the service: the source port when it is below
/// 1024, else the destination port when it is, else none.
pub open spec fn deciding_port(src_port: u16, dst_port: u16) -> u16 {
    if src_port < 1024 {
        src_port
    } else if dst_port < 1024 {
        dst_port
    } else {
        UNKNOWN_PORT
    }
}

/// The service of a segment with these ports.
pub open spec fn service_of(src_port: u16, dst_port: u16) -> UpperLayerService {
    service_of_port(deciding_port(src_port, dst_port))
}

impl UpperLayerService {
    /// The name of the service, as reports and flow keys write it.
    pub open spec fn name_spec(self) -> Seq<char> {
        match self {
            UpperLayerService::FTP => "FTP"@,
            UpperLayerService::SSH => "SSH"@,
            UpperLayerService::SMTP => "SMTP"@,
            UpperLayerService::DNS => "DNS"@,
            UpperLayerService::HTTP => "HTTP"@,
            UpperLayerService::POP3 => "POP3"@,
            UpperLayerService::SFTP => "SFTP"@,
            UpperLayerService::SNMP => "SNMP"@,
            UpperLayerService::BGP => "BGP"@,
            UpperLayerService::HTTPS => "HTTPS"@,
            UpperLayerService::UNKNOWN => "UNKNOWN"@,
        }
    }

    /// The name of the service.
    pub fn name(&self) -> (r: &'static str)
        ensures
            r@ == self.name_spec(),
    {
        match self {
            UpperLayerService::FTP => "FTP",
            UpperLayerService::SSH => "SSH",
            UpperLayerService::SMTP => "SMTP",
            UpperLayerService::DNS => "DNS",
            UpperLayerService::HTTP => "HTTP",
            UpperLayerService::POP3 => "POP3",
            UpperLayerService::SFTP => "SFTP",
            UpperLayerService::SNMP => "SNMP",
            UpperLayerService::BGP => "BGP",
            UpperLayerService::HTTPS => "HTTPS",
            UpperLayerService::UNKNOWN => "UNKNOWN",
        }
    }

    /// The service for a port number.
    pub fn from_port(v: u16) -> (r: UpperLayerService)
        ensures
            r == service_of_port(v),
    {
        if v == 20 {
            UpperLayerService::FTP
        } else if v == 22 {
            UpperLayerService::SSH
        } else if v == 23 {
            UpperLayerService::SMTP
        } else if v == 53 {
            UpperLayerService::DNS
        } else if v == 80 {
            UpperLayerService::HTTP
        } else if v == 110 {
            UpperLayerService::POP3
        } else if v == 115 {
            UpperLayerService::SFTP
        } else if v == 161 {
            UpperLayerService::SNMP
        } else if v == 179 {
            UpperLayerService::BGP
        } else if v == 443 {
            UpperLayerService::HTTPS
        } else {
            UpperLayerService::UNKNOWN
        }
    }
}

impl From<u16> for UpperLayerService {
    fn from(v: u16) -> UpperLayerService {
        UpperLayerService::from_port(v)
    }
}

impl vstd::std_specs::convert::FromSpecImpl<u16> for UpperLayerService {
    open spec fn obeys_from_spec() -> bool {
        true
    }

    open spec fn from_spec(v: u16) -> UpperLayerService {
        service_of_port(v)
    }
}

/// The port that decides the upper-layer service of a segment: the source
/// port when it is below 1024, else the destination port when it is, else
/// `UNKNOWN_PORT`.
pub fn known_port(src_port: u16, dst_port: u16) -> (r: u16)
    ensures
        r == deciding_port(src_port, dst_port),
{
    if src_port < 1024 {
        src_port
    } else if dst_port < 1024 {
        dst_port
    } else {
        UNKNOWN_PORT
    }
}

/// The service of a segment with these ports.
pub fn service_for_ports(src_port: u16, dst_port: u16) -> (r: UpperLayerService)
    ensures
        r == service_of(src_port, dst_port),
        r == UpperLayerService::UNKNOWN <==> (src_port >= 1024 && dst_port >= 1024)
            || !is_known_port(deciding_port(src_port, dst_port)),
{
    UpperLayerService::from_port(known_port(src_port, dst_port))
}

/// The mapping from ports to services is total: a segment has no known
/// service only when both of its ports are 1024 or above, or when the port
/// that decides is not in the table of well-known ports.
pub proof fn lemma_service_total(src_port: u16, dst_port: u16)
    ensures
        service_of(src_port, dst_port) == UpperLayerService::UNKNOWN <==> (src_port >= 1024
            && dst_port >= 1024) || !is_known_port(deciding_port(src_port, dst_port)),
        service_of(src_port, dst_port) != UpperLayerService::UNKNOWN ==> service_of(
            src_port,
            dst_port,
        ) == service_of_port(deciding_port(src_port, dst_port)),
{
}

/// The line that a verbose dump writes for the service of a segment.
pub open spec fn upper_layer_text(s: UpperLayerService) -> Seq<char> {
    if s == UpperLayerService::UNKNOWN {
        "Other Protocol incapsulated in TCP/UDP segment (Unknown Protocol)"@
            + ": Protocol details unknown"@
    } else {
        padded(s.name_spec(), 8) + ": Protocol details unknown"@
    }
}

/// Writes the line that a verbose dump shows for the service of a segment.
pub fn print_upper_layer(upper_layer_service: UpperLayerService) -> (r: String)
    ensures
        r@ == upper_layer_text(upper_layer_service),
{
    let mut s = String::new();
    match upper_layer_service {
        UpperLayerService::UNKNOWN => {
            push_str(&mut s, "Other Protocol incapsulated in TCP/UDP segment (Unknown Protocol)");
        },
        other => {
            push_padded(&mut s, other.name(), 8);
        },
    }
    push_str(&mut s, ": Protocol details unknown");
    s
}

} // verus!
