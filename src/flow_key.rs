//! Reading a flow key back from its text.

use vstd::prelude::*;
use crate::ethernet_packet::{flow_key_of, network_view, EtherType, FlowKey};
use crate::ip_address::{dotted, hex_groups, ipv6_text, is_v4_mapped, lemma_zero_runs_bounds, zero_runs};
use crate::report_generator::{accepts, key_text};
use crate::upper_layer_services::{service_of, UpperLayerService};
use crate::utility::{decimal, fields, hex, hex_digit, is_ws, scan_fields, split_fields, texts};

verus! {

/// Whether every character of `s` is a decimal digit, and there is one.
pub open spec fn is_digits(s: Seq<char>) -> bool {
    s.len() > 0 && forall|i: int| 0 <= i < s.len() ==> '0' <= #[trigger] s[i] && s[i] <= '9'
}

/// The number that decimal digits write.
pub open spec fn digits_value(s: Seq<char>) -> nat
    decreases s.len(),
{
    if s.len() == 0 {
        0
    } else {
        digits_value(s.drop_last()) * 10 + (s.last() as u32 - 48) as nat
    }
}

/// The port that a field writes, if it is decimal digits for a number below 65536.
pub open spec fn port_of(s: Seq<char>) -> Option<u16> {
    if is_digits(s) && digits_value(s) <= 65535 {
        Some(digits_value(s) as u16)
    } else {
        None
    }
}

/// The key that a key text gives: six whitespace-separated fields, the
/// third and fourth of them ports.
pub open spec fn parse_key_text(s: Seq<char>) -> Option<FlowKey> {
    let f = fields(s);
    if f.len() == 6 && port_of(f[2]) is Some && port_of(f[3]) is Some {
        Some(
            FlowKey {
                ip_src: f[0],
                ip_dst: f[1],
                port_src: port_of(f[2])->0,
                port_dst: port_of(f[3])->0,
                l4_protocol: f[4],
                upper_service: f[5],
            },
        )
    } else {
        None
    }
}

/// The six fields of a key, as text and numbers.
#[derive(Debug, Clone, PartialEq, Eq)]
pub struct KeyFields {
    pub ip_src: String,
    pub ip_dst: String,
    pub port_src: u16,
    pub port_dst: u16,
    pub l4_protocol: String,
    pub upper_service: String,
}

impl KeyFields {
    /// The key these fields make.
    pub open spec fn key(self) -> FlowKey {
        FlowKey {
            ip_src: self.ip_src@,
            ip_dst: self.ip_dst@,
            port_src: self.port_src,
            port_dst: self.port_dst,
            l4_protocol: self.l4_protocol@,
            upper_service: self.upper_service@,
        }
    }
}

/// Reads a port written in decimal.
pub fn parse_port(s: &str) -> (r: Option<u16>)
    ensures
        r == port_of(s@),
{
    let n = s.unicode_len();
    if n == 0 {
        return None;
    }
    let mut value: u32 = 0;
    let mut i: usize = 0;
    while i < n
        invariant
            n == s@.len(),
            0 < n,
            i <= n,
            value as nat == digits_value(s@.subrange(0, i as int)),
            value <= 65535,
            forall|m: int| 0 <= m < i ==> '0' <= #[trigger] s@[m] && s@[m] <= '9',
        decreases n - i,
    {
        let c = s.get_char(i);
        proof {
            assert(s@.subrange(0, i + 1).drop_last() =~= s@.subrange(0, i as int));
        }
        if c < '0' || c > '9' {
            return None;
        }
        value = value * 10 + (c as u32 - 48);
        i = i + 1;
        if value > 65535 {
            proof {
                lemma_digits_monotone(s@, i as int, n as int);
                assert(s@.subrange(0, n as int) =~= s@);
            }
            return None;
        }
    }
    proof {
        assert(s@.subrange(0, n as int) =~= s@);
    }
    Some(value as u16)
}

proof fn lemma_digits_monotone(s: Seq<char>, i: int, j: int)
    requires
        0 <= i <= j <= s.len(),
    ensures
        digits_value(s.subrange(0, j)) >= digits_value(s.subrange(0, i)),
    decreases j - i,
{
    if i < j {
        lemma_digits_monotone(s, i, j - 1);
        assert(s.subrange(0, j).drop_last() =~= s.subrange(0, j - 1));
    }
}

/// Reads a key text back into its six fields.
pub fn parse_key(key: &str) -> (r: Option<KeyFields>)
    ensures
        match (r, parse_key_text(key@)) {
            (Some(x), Some(y)) => x.key() == y,
            (None, None) => true,
            _ => false,
        },
{
    let f = split_fields(key);
    if f.len() != 6 {
        return None;
    }
    proof {
        assert(texts(f@)[2] == f@[2]@);
        assert(texts(f@)[3] == f@[3]@);
    }
    let port_src = parse_port(f[2].as_str());
    let port_dst = parse_port(f[3].as_str());
    match (port_src, port_dst) {
        (Some(port_src), Some(port_dst)) => {
            proof {
                assert(texts(f@)[0] == f@[0]@);
                assert(texts(f@)[1] == f@[1]@);
                assert(texts(f@)[4] == f@[4]@);
                assert(texts(f@)[5] == f@[5]@);
            }
            Some(
                KeyFields {
                    ip_src: f[0].clone(),
                    ip_dst: f[1].clone(),
                    port_src,
                    port_dst,
                    l4_protocol: f[4].clone(),
                    upper_service: f[5].clone(),
                },
            )
        },
        _ => None,
    }
}

/// Whether no character of `s` is white space.
pub open spec fn no_ws(s: Seq<char>) -> bool {
    forall|i: int| 0 <= i < s.len() ==> !is_ws(#[trigger] s[i])
}

proof fn lemma_hex_digit(d: nat)
    requires
        d < 16,
    ensures
        !is_ws(hex_digit(d)),
        d < 10 ==> '0' <= hex_digit(d) && hex_digit(d) <= '9' && hex_digit(d) as u32 - 48 == d,
{
}

proof fn lemma_decimal(n: nat)
    ensures
        is_digits(decimal(n)),
        digits_value(decimal(n)) == n,
        no_ws(decimal(n)),
    decreases n,
{
    lemma_hex_digit(n % 10);
    if n >= 10 {
        lemma_decimal(n / 10);
        assert(decimal(n).drop_last() =~= decimal(n / 10));
        assert(decimal(n).last() == hex_digit(n % 10));
        assert((n / 10) * 10 + n % 10 == n) by (nonlinear_arith);
        let d = decimal(n);
        assert(digits_value(d) == digits_value(d.drop_last()) * 10 + (d.last() as u32 - 48) as nat);
        assert((d.last() as u32 - 48) as nat == n % 10);
    } else {
        assert(decimal(n).drop_last() =~= Seq::<char>::empty());
        assert(decimal(n).last() == hex_digit(n));
        let d = decimal(n);
        assert(digits_value(d) == digits_value(d.drop_last()) * 10 + (d.last() as u32 - 48) as nat);
        assert(digits_value(d.drop_last()) == 0);
    }
}

proof fn lemma_hex(n: nat)
    ensures
        hex(n).len() > 0,
        no_ws(hex(n)),
    decreases n,
{
    lemma_hex_digit(n % 16);
    if n >= 16 {
        lemma_hex(n / 16);
    }
}

proof fn lemma_dotted(b: Seq<u8>)
    ensures
        b.len() > 0 ==> dotted(b).len() > 0,
        no_ws(dotted(b)),
    decreases b.len(),
{
    if b.len() > 0 {
        lemma_decimal(b.last() as nat);
        if b.len() > 1 {
            lemma_dotted(b.drop_last());
        }
    }
}

proof fn lemma_hex_groups(g: Seq<u16>)
    ensures
        g.len() > 0 ==> hex_groups(g).len() > 0,
        no_ws(hex_groups(g)),
    decreases g.len(),
{
    if g.len() > 0 {
        lemma_hex(g.last() as nat);
        if g.len() > 1 {
            lemma_hex_groups(g.drop_last());
        }
    }
}

proof fn lemma_ipv6_text(g: Seq<u16>)
    requires
        g.len() == 8,
    ensures
        ipv6_text(g).len() > 0,
        no_ws(ipv6_text(g)),
{
    reveal_strlit("::ffff:");
    reveal_strlit("::");
    if is_v4_mapped(g) {
        let q = seq![
            (g[6] / 256) as u8,
            (g[6] % 256) as u8,
            (g[7] / 256) as u8,
            (g[7] % 256) as u8,
        ];
        lemma_dotted(q);
    } else {
        let (best_start, best_len, cur_start, cur_len) = zero_runs(g);
        lemma_zero_runs_bounds(g);
        if best_len > 1 {
            lemma_hex_groups(g.subrange(0, best_start as int));
            lemma_hex_groups(g.subrange((best_start + best_len) as int, g.len() as int));
        } else {
            lemma_hex_groups(g);
        }
    }
}

/// Reading a field without white space extends the field being read.
proof fn lemma_scan_field(p: Seq<char>, t: Seq<char>)
    requires
        no_ws(t),
    ensures
        scan_fields(p + t) == (scan_fields(p).0, scan_fields(p).1 + t),
    decreases t.len(),
{
    if t.len() == 0 {
        assert(p + t =~= p);
        assert(scan_fields(p).1 + t =~= scan_fields(p).1);
    } else {
        lemma_scan_field(p, t.drop_last());
        assert((p + t).drop_last() =~= p + t.drop_last());
        assert(scan_fields(p).1 + t.drop_last() + seq![t.last()] =~= scan_fields(p).1 + t);
    }
}

/// Reading a space closes the field being read, if any.
proof fn lemma_scan_space(p: Seq<char>)
    ensures
        scan_fields(p + seq![' ']) == if scan_fields(p).1.len() > 0 {
            (scan_fields(p).0.push(scan_fields(p).1), Seq::<char>::empty())
        } else {
            scan_fields(p)
        },
{
    assert((p + seq![' ']).drop_last() =~= p);
}

proof fn lemma_fields_of_key(a: Seq<char>, b: Seq<char>, c: Seq<char>, d: Seq<char>, e: Seq<char>, f: Seq<char>)
    requires
        a.len() > 0 && b.len() > 0 && c.len() > 0 && d.len() > 0 && e.len() > 0 && f.len() > 0,
        no_ws(a) && no_ws(b) && no_ws(c) && no_ws(d) && no_ws(e) && no_ws(f),
    ensures
        fields(a + seq![' '] + b + seq![' '] + c + seq![' '] + d + seq![' '] + e + seq![' '] + f)
            == seq![a, b, c, d, e, f],
{
    let sp = seq![' '];
    let e0 = Seq::<char>::empty();
    lemma_scan_field(e0, a);
    assert(e0 + a =~= a);
    assert(scan_fields(e0) == (Seq::<Seq<char>>::empty(), e0));
    assert(e0 + a =~= a);
    let w1 = a + sp;
    lemma_scan_space(a);
    lemma_scan_field(w1, b);
    let w2 = w1 + b + sp;
    lemma_scan_space(w1 + b);
    lemma_scan_field(w2, c);
    let w3 = w2 + c + sp;
    lemma_scan_space(w2 + c);
    lemma_scan_field(w3, d);
    let w4 = w3 + d + sp;
    lemma_scan_space(w3 + d);
    lemma_scan_field(w4, e);
    let w5 = w4 + e + sp;
    lemma_scan_space(w4 + e);
    lemma_scan_field(w5, f);
    assert(scan_fields(w5 + f).0 =~= seq![a, b, c, d, e]);
    assert(scan_fields(w5 + f).1 =~= f);
    assert(fields(w5 + f) =~= seq![a, b, c, d, e, f]);
}

proof fn lemma_service_name(s: UpperLayerService)
    ensures
        s.name_spec().len() > 0,
        no_ws(s.name_spec()),
{
    reveal_strlit("FTP");
    reveal_strlit("SSH");
    reveal_strlit("SMTP");
    reveal_strlit("DNS");
    reveal_strlit("HTTP");
    reveal_strlit("POP3");
    reveal_strlit("SFTP");
    reveal_strlit("SNMP");
    reveal_strlit("BGP");
    reveal_strlit("HTTPS");
    reveal_strlit("UNKNOWN");
}

/// The fields of the text of a frame's key are its six key fields.
proof fn lemma_key_fields(et: Option<EtherType>, payload: Seq<u8>)
    requires
        flow_key_of(et, payload) is Some,
    ensures
        ({
            let k = flow_key_of(et, payload)->0;
            fields(key_text(k)) == seq![
                k.ip_src,
                k.ip_dst,
                decimal(k.port_src as nat),
                decimal(k.port_dst as nat),
                k.l4_protocol,
                k.upper_service,
            ]
        }),
{
    let k = flow_key_of(et, payload)->0;
    if et == Some(EtherType::IPV4) {
        lemma_dotted(payload.subrange(12, 16));
        lemma_dotted(payload.subrange(16, 20));
    } else {
        lemma_ipv6_text(crate::ipv6_packet::groups_of(payload.subrange(8, 24)));
        lemma_ipv6_text(crate::ipv6_packet::groups_of(payload.subrange(24, 40)));
    }
    reveal_strlit("TCP");
    reveal_strlit("UDP");
    lemma_service_name(service_of(k.port_src, k.port_dst));
    lemma_decimal(k.port_src as nat);
    lemma_decimal(k.port_dst as nat);
    lemma_fields_of_key(
        k.ip_src,
        k.ip_dst,
        decimal(k.port_src as nat),
        decimal(k.port_dst as nat),
        k.l4_protocol,
        k.upper_service,
    );
}

/// The key of a decoded frame survives being written as text and read
/// back: parsing the text of the key gives the same six fields.
pub proof fn lemma_key_round_trip(et: Option<EtherType>, payload: Seq<u8>)
    requires
        flow_key_of(et, payload) is Some,
    ensures
        parse_key_text(key_text(flow_key_of(et, payload)->0)) == flow_key_of(et, payload),
{
    let k = flow_key_of(et, payload)->0;
    lemma_key_fields(et, payload);
    lemma_decimal(k.port_src as nat);
    lemma_decimal(k.port_dst as nat);
}

/// Whether `s` holds a dot or a colon.
pub open spec fn has_separator(s: Seq<char>) -> bool {
    exists|i: int| 0 <= i < s.len() && (s[i] == '.' || s[i] == ':')
}

proof fn lemma_dotted_separator(b: Seq<u8>)
    requires
        b.len() >= 2,
    ensures
        has_separator(dotted(b)),
{
    let d = dotted(b.drop_last());
    assert(dotted(b)[d.len() as int] == '.');
}

proof fn lemma_hex_groups_separator(g: Seq<u16>)
    requires
        g.len() >= 2,
    ensures
        has_separator(hex_groups(g)),
{
    let h = hex_groups(g.drop_last());
    assert(hex_groups(g)[h.len() as int] == ':');
}

proof fn lemma_ipv6_separator(g: Seq<u16>)
    requires
        g.len() == 8,
    ensures
        has_separator(ipv6_text(g)),
{
    reveal_strlit("::ffff:");
    reveal_strlit("::");
    if is_v4_mapped(g) {
        assert(ipv6_text(g)[0] == ':');
    } else {
        let (best_start, best_len, cur_start, cur_len) = zero_runs(g);
        lemma_zero_runs_bounds(g);
        if best_len > 1 {
            let h = hex_groups(g.subrange(0, best_start as int));
            assert(ipv6_text(g)[h.len() as int] == ':');
        } else {
            lemma_hex_groups_separator(g);
        }
    }
}

proof fn lemma_address_separators(et: Option<EtherType>, payload: Seq<u8>)
    requires
        network_view(et, payload) is Some,
    ensures
        network_view(et, payload) matches Some(v) && has_separator(v.0) && has_separator(v.1),
{
    if et == Some(EtherType::IPV4) {
        lemma_dotted_separator(payload.subrange(12, 16));
        lemma_dotted_separator(payload.subrange(16, 20));
    } else {
        lemma_ipv6_separator(crate::ipv6_packet::groups_of(payload.subrange(8, 24)));
        lemma_ipv6_separator(crate::ipv6_packet::groups_of(payload.subrange(24, 40)));
    }
}

/// Under the filter `UDP 443` a frame with a flow key is counted exactly
/// when it is carried by UDP and one of its two ports is 443.
pub proof fn lemma_udp_443_filter(et: Option<EtherType>, payload: Seq<u8>)
    requires
        flow_key_of(et, payload) is Some,
    ensures
        fields("UDP 443"@) == seq!["UDP"@, "443"@],
        ({
            let k = flow_key_of(et, payload)->0;
            accepts(fields("UDP 443"@), key_text(k)) <==> k.l4_protocol == "UDP"@ && (k.port_src
                == 443 || k.port_dst == 443)
        }),
{
    let k = flow_key_of(et, payload)->0;
    reveal_strlit("UDP 443");
    reveal_strlit("UDP");
    reveal_strlit("443");
    reveal_strlit("TCP");
    assert("UDP 443"@ =~= "UDP"@ + seq![' '] + "443"@);
    let e0 = Seq::<char>::empty();
    lemma_scan_field(e0, "UDP"@);
    assert(e0 + "UDP"@ =~= "UDP"@);
    assert(scan_fields(e0) == (Seq::<Seq<char>>::empty(), e0));
    lemma_scan_space("UDP"@);
    lemma_scan_field("UDP"@ + seq![' '], "443"@);
    assert(fields("UDP 443"@) =~= seq!["UDP"@, "443"@]);

    lemma_key_fields(et, payload);
    lemma_address_separators(et, payload);
    lemma_service_name(service_of(k.port_src, k.port_dst));
    lemma_service_names_differ(service_of(k.port_src, k.port_dst));
    lemma_decimal(k.port_src as nat);
    lemma_decimal(k.port_dst as nat);
    reveal_with_fuel(digits_value, 4);
    assert(digits_value("443"@) == 443);
    reveal_with_fuel(decimal, 4);
    assert(decimal(443) =~= "443"@);
    let f = fields(key_text(k));
    assert(!has_separator("UDP"@));
    assert(!has_separator("443"@));
    assert("UDP"@[0] == 'U' && "443"@[0] == '4' && "TCP"@[0] == 'T');
    assert(!is_digits("UDP"@));
    assert("UDP"@ != "443"@);
    assert("TCP"@ != "443"@);
    assert("TCP"@ != "UDP"@);
    if accepts(fields("UDP 443"@), key_text(k)) {
        assert(f.contains("UDP"@));
        assert(f.contains("443"@));
        let i = choose|i: int| 0 <= i < f.len() && f[i] == "UDP"@;
        let j = choose|j: int| 0 <= j < f.len() && f[j] == "443"@;
        assert(i == 4);
        assert(j == 2 || j == 3);
    }
    if k.l4_protocol == "UDP"@ && (k.port_src == 443 || k.port_dst == 443) {
        assert(f[4] == "UDP"@);
        assert(f.contains("UDP"@));
        if k.port_src == 443 {
            assert(f[2] == "443"@);
        } else {
            assert(f[3] == "443"@);
        }
        assert(f.contains("443"@));
        assert(accepts(fields("UDP 443"@), key_text(k)));
    }
}

proof fn lemma_service_names_differ(s: UpperLayerService)
    ensures
        s.name_spec() != "UDP"@,
        s.name_spec() != "443"@,
{
    reveal_strlit("UDP");
    reveal_strlit("443");
    reveal_strlit("FTP");
    reveal_strlit("SSH");
    reveal_strlit("SMTP");
    reveal_strlit("DNS");
    reveal_strlit("HTTP");
    reveal_strlit("POP3");
    reveal_strlit("SFTP");
    reveal_strlit("SNMP");
    reveal_strlit("BGP");
    reveal_strlit("HTTPS");
    reveal_strlit("UNKNOWN");
    if s.name_spec() == "UDP"@ {
        assert(s.name_spec().len() == 3);
        assert(s.name_spec()[0] == 'U' && s.name_spec()[1] == 'D');
    }
    if s.name_spec() == "443"@ {
        assert(s.name_spec().len() == 3);
        assert(s.name_spec()[0] == '4');
    }
}

} // verus!
