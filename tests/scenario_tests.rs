use packet_snooper::ethernet_packet::EthernetPacket;
use packet_snooper::flow_key::{parse_key, parse_port};
use packet_snooper::report_generator::{key_string, InnerReportGenerator, ReportFormat};
use packet_snooper::snooper::ControlBlock;
use packet_snooper::timestamp::timestamp_text;
use packet_snooper::workers::{CaptureAction, CaptureLoop, ReadOutcome, ReportTimer, TimerAction};
use packet_snooper::{ConfigOptions, PacketSnooper, State};

const MACS: [u8; 12] = [0x74, 0xe5, 0xf9, 0x16, 0xee, 0x9b, 0xe0, 0xb9, 0xe5, 0x30, 0xef, 0x98];
const T0: i64 = 1_660_253_626_756;

fn ipv4_frame(protocol: u8, src: [u8; 4], dst: [u8; 4], l4: &[u8]) -> Vec<u8> {
    let mut f = MACS.to_vec();
    f.extend_from_slice(&[0x08, 0x00]);
    let total = (20 + l4.len()) as u16;
    f.extend_from_slice(&[0x45, 0, (total >> 8) as u8, total as u8, 0, 1, 0x40, 0, 64, protocol, 0, 0]);
    f.extend_from_slice(&src);
    f.extend_from_slice(&dst);
    f.extend_from_slice(l4);
    f
}

fn udp(sport: u16, dport: u16) -> Vec<u8> {
    let mut s = sport.to_be_bytes().to_vec();
    s.extend_from_slice(&dport.to_be_bytes());
    s.extend_from_slice(&[0, 12, 0, 0, 1, 2, 3, 4]);
    s
}

fn tcp(sport: u16, dport: u16) -> Vec<u8> {
    let mut s = sport.to_be_bytes().to_vec();
    s.extend_from_slice(&dport.to_be_bytes());
    s.extend_from_slice(&[0, 0, 0, 1, 0, 0, 0, 0, 0x50, 0x18, 0xff, 0xff, 0, 0, 0, 0, 9, 9]);
    s
}

fn ipv6_udp_frame(sport: u16, dport: u16) -> Vec<u8> {
    let mut f = MACS.to_vec();
    f.extend_from_slice(&[0x86, 0xdd, 0x60, 0, 0, 0, 0, 16, 17, 64]);
    f.extend_from_slice(&[0x20, 0x01, 0x0d, 0xb8, 0, 0, 0, 0, 0, 0, 0, 0, 0, 0, 0, 1]);
    f.extend_from_slice(&[0x20, 0x01, 0x0d, 0xb8, 0, 0, 0, 0, 0, 0, 0, 0, 0, 0, 0, 2]);
    f.extend_from_slice(&udp(sport, dport));
    f
}

fn arp_frame() -> Vec<u8> {
    let mut f = MACS.to_vec();
    f.extend_from_slice(&[0x08, 0x06, 0, 1, 8, 0, 6, 4, 0, 1]);
    f.extend_from_slice(&[0; 20]);
    f
}

fn aggregator(format: ReportFormat, filter: &str) -> InnerReportGenerator {
    InnerReportGenerator::new(ConfigOptions::new("eth0", 1, "out.txt", format, filter)).unwrap()
}

fn data_rows(text: &str) -> Vec<String> {
    text.lines().skip(1).map(|l| l.to_string()).collect()
}

fn cells(row: &str) -> Vec<String> {
    row.split('|').map(|c| c.trim().to_string()).collect()
}

#[test]
fn single_udp_https_frame_report() {
    let mut g = aggregator(ReportFormat::Report, "");
    let bytes = ipv4_frame(17, [192, 168, 1, 119], [142, 250, 184, 46], &udp(46374, 443));
    g.push(&EthernetPacket::new(&bytes, 500, T0));
    let rows = data_rows(&g.generate_report());
    assert_eq!(rows.len(), 1);
    let t0 = timestamp_text(T0);
    assert_eq!(t0, "2022-08-11 21:33:46.756 UTC");
    assert_eq!(
        cells(&rows[0]),
        vec!["192.168.1.119", "142.250.184.46", "46374", "443", "UDP", "HTTPS", "500", t0.as_str(), t0.as_str()]
    );
}

#[test]
fn two_frames_same_key_merge() {
    let mut g = aggregator(ReportFormat::Report, "");
    let bytes = ipv4_frame(17, [192, 168, 1, 119], [142, 250, 184, 46], &udp(46374, 443));
    g.push(&EthernetPacket::new(&bytes, 200, T0));
    g.push(&EthernetPacket::new(&bytes, 300, T0 + 100));
    let rows = data_rows(&g.generate_report());
    assert_eq!(rows.len(), 1);
    let c = cells(&rows[0]);
    assert_eq!(c[6], "500");
    assert_eq!(c[7], "2022-08-11 21:33:46.756 UTC");
    assert_eq!(c[8], "2022-08-11 21:33:46.856 UTC");
    assert_eq!(g.data_format[0].timestamp_init, T0);
    assert_eq!(g.data_format[0].timestamp_final, T0 + 100);
}

#[test]
fn tcp_over_ipv4_and_udp_over_ipv6_give_two_rows() {
    let mut g = aggregator(ReportFormat::Report, "");
    let a = ipv4_frame(6, [10, 0, 0, 1], [140, 82, 121, 3], &tcp(39322, 443));
    let b = ipv6_udp_frame(53000, 53);
    g.push(&EthernetPacket::new(&a, a.len(), T0));
    g.push(&EthernetPacket::new(&b, b.len(), T0 + 5));
    let rows = data_rows(&g.generate_report());
    assert_eq!(rows.len(), 2);
    assert_eq!(cells(&rows[0])[4..6].to_vec(), vec!["TCP", "HTTPS"]);
    assert_eq!(cells(&rows[1])[0..6].to_vec(), vec!["2001:db8::1", "2001:db8::2", "53000", "53", "UDP", "DNS"]);
}

#[test]
fn arp_and_icmp_give_no_rows() {
    let mut g = aggregator(ReportFormat::Report, "");
    let a = arp_frame();
    let b = ipv4_frame(1, [10, 0, 0, 1], [10, 0, 0, 2], &[8, 0, 0, 0, 0, 1, 0, 1]);
    g.push(&EthernetPacket::new(&a, a.len(), T0));
    g.push(&EthernetPacket::new(&b, b.len(), T0));
    assert!(data_rows(&g.generate_report()).is_empty());
    assert!(g.data_format.is_empty());
}

#[test]
fn pause_blocks_frames_until_resume() {
    let mut ps = PacketSnooper::new("eth0")
        .with_details("eth0", &vec!["eth0".to_string()], 1, "out.txt", "report", "")
        .unwrap();
    let mut g = aggregator(ReportFormat::Report, "");
    let mut capture = CaptureLoop::new();
    let bytes = ipv4_frame(17, [192, 168, 1, 119], [142, 250, 184, 46], &udp(46374, 443));
    let mut deliver = |ps: &PacketSnooper, g: &mut InnerReportGenerator, capture: &mut CaptureLoop, ts: i64| {
        if capture.before_read(ps.control) == CaptureAction::Read
            && capture.after_read(ps.control, ReadOutcome::Frame) == CaptureAction::Forward
        {
            g.push(&EthernetPacket::new(&bytes, 100, ts));
            true
        } else {
            false
        }
    };
    ps.start(true).unwrap();
    for k in 0..3 {
        assert!(deliver(&ps, &mut g, &mut capture, T0 + k));
    }
    ps.stop().unwrap();
    assert!(!deliver(&ps, &mut g, &mut capture, T0 + 10));
    assert_eq!(capture.before_read(ps.control), CaptureAction::WaitForResume);
    ps.resume().unwrap();
    for k in 0..2 {
        assert!(deliver(&ps, &mut g, &mut capture, T0 + 20 + k));
    }
    ps.end().unwrap();
    assert_eq!(capture.before_read(ps.control), CaptureAction::Exit);
    assert_eq!(ps.state, State::Ready);
    assert_eq!(g.data_format.len(), 1);
    assert_eq!(g.data_format[0].num_bytes, 500);
    assert_eq!(g.data_format[0].timestamp_init, T0);
    assert_eq!(g.data_format[0].timestamp_final, T0 + 21);
}

#[test]
fn filter_udp_443_keeps_only_udp_https() {
    let mut g = aggregator(ReportFormat::Report, "UDP 443");
    let frames = vec![
        ipv4_frame(17, [192, 168, 1, 119], [142, 250, 184, 46], &udp(46374, 443)),
        ipv4_frame(6, [192, 168, 1, 119], [140, 82, 121, 3], &tcp(39322, 443)),
        ipv4_frame(17, [192, 168, 1, 119], [8, 8, 8, 8], &udp(40000, 53)),
        ipv4_frame(17, [142, 250, 184, 46], [192, 168, 1, 119], &udp(443, 46374)),
        arp_frame(),
    ];
    for (k, f) in frames.iter().enumerate() {
        g.push(&EthernetPacket::new(f, f.len(), T0 + k as i64));
    }
    assert_eq!(g.data_format.len(), 2);
    for e in &g.data_format {
        assert_eq!(e.l4_protocol, "UDP");
        assert_eq!(e.upper_service, "HTTPS");
    }
}

#[test]
fn distinct_keys_give_one_record_each() {
    let mut g = aggregator(ReportFormat::Report, "");
    let ports = [20u16, 22, 53, 80, 443];
    for (k, p) in ports.iter().enumerate() {
        let f = ipv4_frame(17, [10, 0, 0, 1], [10, 0, 0, 2], &udp(50000, *p));
        g.push(&EthernetPacket::new(&f, 100 + k, T0 + k as i64));
    }
    assert_eq!(g.data_format.len(), ports.len());
    for (k, e) in g.data_format.iter().enumerate() {
        assert_eq!(e.port_dst, ports[k]);
        assert_eq!(e.num_bytes, 100 + k);
        assert_eq!(e.timestamp_init, T0 + k as i64);
        assert_eq!(e.timestamp_final, T0 + k as i64);
    }
}

#[test]
fn key_text_reads_back() {
    for f in [
        ipv4_frame(17, [192, 168, 1, 119], [142, 250, 184, 46], &udp(46374, 443)),
        ipv4_frame(6, [10, 0, 0, 1], [140, 82, 121, 3], &tcp(39322, 443)),
        ipv6_udp_frame(53000, 53),
    ] {
        let info = EthernetPacket::new(&f, f.len(), T0).report_data().unwrap();
        let key = key_string(&info);
        let back = parse_key(&key).unwrap();
        assert_eq!(back.ip_src, info.ip_src);
        assert_eq!(back.ip_dst, info.ip_dst);
        assert_eq!(back.port_src, info.port_src);
        assert_eq!(back.port_dst, info.port_dst);
        assert_eq!(back.l4_protocol, info.l4_protocol);
        assert_eq!(back.upper_service, info.upper_service);
    }
    assert!(parse_key("1.1.1.1 2.2.2.2 80 x TCP HTTP").is_none());
    assert!(parse_key("1.1.1.1 2.2.2.2 80 70000 TCP HTTP").is_none());
    assert!(parse_key("1.1.1.1 2.2.2.2 80 TCP HTTP").is_none());
    assert_eq!(parse_port("65535"), Some(65535));
    assert_eq!(parse_port("65536"), None);
    assert_eq!(parse_port(""), None);
}

#[test]
fn bad_headers_give_no_key() {
    // IPv4 header length below five words
    let mut f = ipv4_frame(17, [10, 0, 0, 1], [10, 0, 0, 2], &udp(5000, 53));
    f[14] = 0x44;
    assert!(EthernetPacket::new(&f, f.len(), 0).report_data().is_none());
    // version other than 4
    f[14] = 0x65;
    assert!(EthernetPacket::new(&f, f.len(), 0).report_data().is_none());
    // TCP data offset past the end of the segment
    let mut t = tcp(5000, 80);
    t[12] = 0xF0;
    let f = ipv4_frame(6, [10, 0, 0, 1], [10, 0, 0, 2], &t);
    assert!(EthernetPacket::new(&f, f.len(), 0).report_data().is_none());
    // IEEE 802.3 length field
    let mut f = ipv4_frame(17, [10, 0, 0, 1], [10, 0, 0, 2], &udp(5000, 53));
    f[12] = 0x05;
    f[13] = 0xDC;
    assert!(EthernetPacket::new(&f, f.len(), 0).report_data().is_none());
    // both ports high
    let f = ipv4_frame(17, [10, 0, 0, 1], [10, 0, 0, 2], &udp(5000, 6000));
    assert!(EthernetPacket::new(&f, f.len(), 0).report_data().is_none());
}

#[test]
fn hop_by_hop_is_stepped_over() {
    let mut f = MACS.to_vec();
    f.extend_from_slice(&[0x86, 0xdd, 0x60, 0, 0, 0, 0, 24, 0, 64]);
    f.extend_from_slice(&[0xfe, 0x80, 0, 0, 0, 0, 0, 0, 0, 0, 0, 0, 0, 0, 0, 1]);
    f.extend_from_slice(&[0xff, 0x02, 0, 0, 0, 0, 0, 0, 0, 0, 0, 0, 0, 0, 0, 0x16]);
    f.extend_from_slice(&[17, 0, 5, 2, 0, 0, 1, 0]);
    f.extend_from_slice(&udp(40000, 161));
    let info = EthernetPacket::new(&f, f.len(), 0).report_data().unwrap();
    assert_eq!(key_string(&info), "fe80::1 ff02::16 40000 161 UDP SNMP");
}

#[test]
fn empty_filter_accepts_everything() {
    let mut g = aggregator(ReportFormat::Report, "");
    let a = ipv4_frame(17, [10, 0, 0, 1], [10, 0, 0, 2], &udp(5000, 53));
    let b = ipv4_frame(6, [10, 0, 0, 3], [10, 0, 0, 4], &tcp(22, 5000));
    g.push(&EthernetPacket::new(&a, a.len(), 0));
    g.push(&EthernetPacket::new(&b, b.len(), 0));
    assert_eq!(g.data_format.len(), 2);
}

#[test]
fn timer_counts_down_and_waits_while_paused() {
    let run = ControlBlock { pause: false, terminate: false };
    let paused = ControlBlock { pause: true, terminate: false };
    let stop = ControlBlock { pause: false, terminate: true };
    let mut t = ReportTimer::new(3);
    assert_eq!(t.on_second(run, false), TimerAction::Sleep);
    assert_eq!(t.on_second(paused, false), TimerAction::Wait);
    assert_eq!(t.remaining, 2);
    assert_eq!(t.on_second(run, false), TimerAction::Sleep);
    assert_eq!(t.on_second(run, false), TimerAction::Flush);
    assert_eq!(t.remaining, 3);
    assert_eq!(t.on_second(stop, false), TimerAction::Exit);
    assert_eq!(t.on_second(run, true), TimerAction::Exit);
    assert!(t.keeps_waiting(paused));
    assert!(!t.keeps_waiting(run));
    assert!(!t.keeps_waiting(ControlBlock { pause: true, terminate: true }));
    assert_eq!(t.remaining, 3);
}

#[test]
fn capture_gives_up_after_three_errors() {
    let run = ControlBlock { pause: false, terminate: false };
    let mut c = CaptureLoop::new();
    assert_eq!(c.after_read(run, ReadOutcome::Error), CaptureAction::Discard);
    assert_eq!(c.after_read(run, ReadOutcome::Error), CaptureAction::Discard);
    assert_eq!(c.after_read(run, ReadOutcome::Timeout), CaptureAction::Discard);
    assert_eq!(c.consecutive_errors, 0);
    assert_eq!(c.after_read(run, ReadOutcome::Error), CaptureAction::Discard);
    assert_eq!(c.after_read(run, ReadOutcome::Error), CaptureAction::Discard);
    assert_eq!(c.after_read(run, ReadOutcome::Error), CaptureAction::Exit);
    let paused = ControlBlock { pause: true, terminate: false };
    assert_eq!(c.after_wakeup(paused), CaptureAction::ReopenAndWait);
    assert_eq!(c.after_wakeup(ControlBlock { pause: true, terminate: true }), CaptureAction::Exit);
    assert_eq!(c.after_read(paused, ReadOutcome::Frame), CaptureAction::Discard);
}

#[test]
fn timestamp_fallback_and_negative() {
    assert_eq!(timestamp_text(0), "1970-01-01 00:00:00 UTC");
    assert_eq!(timestamp_text(i64::MIN), "-9223372036854775808");
}
