use packet_snooper::ethernet_packet::{DisplayAs, EthernetPacket};
use packet_snooper::report_generator::{InnerReportGenerator, RGError, ReportFormat, ReportEntry};
use packet_snooper::ConfigOptions;

fn ipv4_udp_frame(src: [u8; 4], dst: [u8; 4], sport: u16, dport: u16, payload_len: usize) -> Vec<u8> {
    let mut f = vec![0x74, 0xe5, 0xf9, 0x16, 0xee, 0x9b, 0xe0, 0xb9, 0xe5, 0x30, 0xef, 0x98, 0x08, 0x00];
    let total = (20 + 8 + payload_len) as u16;
    f.extend_from_slice(&[0x45, 0, (total >> 8) as u8, total as u8, 0x12, 0x34, 0x40, 0, 64, 17, 0, 0]);
    f.extend_from_slice(&src);
    f.extend_from_slice(&dst);
    let ulen = (8 + payload_len) as u16;
    f.extend_from_slice(&sport.to_be_bytes());
    f.extend_from_slice(&dport.to_be_bytes());
    f.extend_from_slice(&ulen.to_be_bytes());
    f.extend_from_slice(&[0, 0]);
    f.extend(std::iter::repeat(0xaa).take(payload_len));
    f
}

fn frame(bytes: &[u8], size: usize, ts: i64) -> EthernetPacket {
    EthernetPacket::new(bytes, size, ts)
}

pub fn create_report_generator_inner(filter: &str) -> Result<InnerReportGenerator, RGError> {
    let options = ConfigOptions::new("eth0", 75, "output.txt", ReportFormat::Report, filter);

    InnerReportGenerator::new(options)
}

fn packet() -> EthernetPacket {
    let bytes = ipv4_udp_frame([142, 250, 184, 67], [192, 168, 1, 119], 443, 45087, 30);
    frame(&bytes, bytes.len(), 1_660_381_284_713)
}

#[test]
pub fn report_generator_inner_tests_report_generator_new_test() {
    let inner_report_generator = create_report_generator_inner("UDP");
    assert!(inner_report_generator.is_ok());
    let inner_report_generator = inner_report_generator.unwrap();
    assert_eq!(inner_report_generator.time_interval, 75);
    assert_eq!(inner_report_generator.file_path, "output.txt".to_string());
    assert_eq!(inner_report_generator.report_format, ReportFormat::Report);
    assert_eq!(inner_report_generator.packet_filter, "UDP".to_string());
    assert!(inner_report_generator.data.is_empty());
    assert!(inner_report_generator.data_format.is_empty());
}

#[test]
pub fn report_generator_inner_tests_push_test() {
    let mut inner_report_generator = create_report_generator_inner("UDP").unwrap();

    inner_report_generator.push(&packet());

    assert_eq!(inner_report_generator.data_format.len(), 1);
}

#[test]
pub fn key_gen_normal_test() {
    let rg_info = packet().report_data().unwrap();

    let inner_report_generator = create_report_generator_inner("UDP").unwrap();
    let res = inner_report_generator.key_gen(rg_info);
    let expected = "142.250.184.67 192.168.1.119 443 45087 UDP HTTPS";

    assert_eq!(res, expected.to_string());
}

#[test]
pub fn key_gen_normal_test_2() {
    let mut rg_info = packet().report_data().unwrap();
    rg_info.ip_src = "0.0.0.0".to_string();
    rg_info.port_src = 50000;
    rg_info.upper_service = "DNS".to_string();

    let inner_report_generator = create_report_generator_inner("UDP").unwrap();
    let res = inner_report_generator.key_gen(rg_info);
    let expected = "0.0.0.0 192.168.1.119 50000 45087 UDP DNS";

    assert_eq!(res, expected.to_string());
}

#[test]
pub fn apply_filter_normal_test() {
    let g = create_report_generator_inner("UDP 443").unwrap();
    assert!(g.apply_filter("142.250.184.67 192.168.1.119 443 45087 UDP HTTPS"));
    assert!(!g.apply_filter("142.250.184.67 192.168.1.119 443 45087 TCP HTTPS"));
    // a token matches whole fields only, not parts of them
    assert!(!g.apply_filter("10.0.0.1 10.0.0.2 4430 45087 UDP DNS"));
    // case matters
    assert!(!g.apply_filter("10.0.0.1 10.0.0.2 443 45087 udp HTTPS"));
}

#[test]
pub fn apply_filter_normal_test_2() {
    let g = create_report_generator_inner("").unwrap();
    assert!(g.apply_filter("142.250.184.67 192.168.1.119 443 45087 UDP HTTPS"));
    assert!(g.apply_filter(""));
    let g = create_report_generator_inner("  \tHTTPS\n ").unwrap();
    assert_eq!(g.filter_tokens, vec!["HTTPS".to_string()]);
    assert!(g.apply_filter("1.1.1.1 2.2.2.2 443 5000 TCP HTTPS"));
    assert!(!g.apply_filter("1.1.1.1 2.2.2.2 53 5000 TCP DNS"));
}

#[test]
pub fn report_generator_main_tests_push_test() {
    let mut g = create_report_generator_inner("UDP").unwrap();
    let a = ipv4_udp_frame([142, 250, 184, 67], [192, 168, 1, 119], 443, 45087, 30);
    let b = ipv4_udp_frame([142, 250, 184, 68], [192, 168, 1, 119], 443, 45087, 30);
    let c = ipv4_udp_frame([142, 250, 184, 67], [192, 168, 1, 119], 53, 45087, 30);
    g.push(&frame(&a, a.len(), 1));
    g.push(&frame(&b, b.len(), 2));
    g.push(&frame(&c, c.len(), 3));
    assert_eq!(g.data_format.len(), 3);
}

#[test]
pub fn push_test2() {
    let mut g = create_report_generator_inner("UDP").unwrap();
    let p = packet();
    g.push(&p);
    g.push(&p);
    g.push(&p);
    g.push(&p);
    assert_eq!(g.data_format.len(), 1);

    assert_eq!(g.data_format[0].num_bytes, 4 * p.size);
    assert_eq!(g.data_format[0].timestamp_init, p.timestamp_recv);
    assert_eq!(g.data_format[0].timestamp_final, p.timestamp_recv);
}

#[test]
fn filtered_out_frame_is_not_counted() {
    let mut g = create_report_generator_inner("TCP").unwrap();
    g.push(&packet());
    assert!(g.data_format.is_empty());
}

#[test]
fn snapshot_moves_everything_out() {
    let mut g = create_report_generator_inner("").unwrap();
    g.push(&packet());
    let snap = g.snapshot_and_clear();
    assert_eq!(snap.len(), 1);
    assert!(g.data_format.is_empty());
    let snap = g.snapshot_and_clear();
    assert!(snap.is_empty());
}

#[test]
fn failed_write_keeps_data() {
    let mut g = create_report_generator_inner("").unwrap();
    g.push(&packet());
    g.clear_after_write(false);
    assert_eq!(g.data_format.len(), 1);
    g.clear_after_write(true);
    assert!(g.data_format.is_empty());
}

#[test]
fn report_row_layout() {
    let e = ReportEntry {
        ip_src: "192.168.1.119".to_string(),
        ip_dst: "142.250.184.46".to_string(),
        port_src: 46374,
        port_dst: 443,
        l4_protocol: "UDP".to_string(),
        upper_service: "HTTPS".to_string(),
        num_bytes: 5906,
        timestamp_init: 0,
        timestamp_final: 0,
    };
    let row = e.to_row("A", "B");
    let expected = format!(
        "{0: <15} | {1: <15} | {2: <9} | {3: <9} | {4: <15} | {5: <15} | {6: <15} | {7: <35} | {8: <35}",
        "192.168.1.119", "142.250.184.46", 46374, 443, "UDP", "HTTPS", 5906, "A", "B"
    );
    assert_eq!(row, expected);
}

#[test]
fn report_header_and_timestamps() {
    let mut g = create_report_generator_inner("").unwrap();
    let bytes = ipv4_udp_frame([192, 168, 1, 119], [142, 250, 184, 46], 46374, 443, 100);
    g.push(&frame(&bytes, 500, 1_660_253_626_756));
    let text = g.generate_report();
    let header = format!(
        "{0: <15} | {1: <15} | {2: <9} | {3: <9} | {4: <15} | {5: <15} | {6: <15} | {7: <35} | {8: <35}\n",
        "IP src", "IP dst", "Port src", "Port dst", "L4 Protocol", "Upper Service", "Num. Bytes", "Initial Timestamp", "Final Timestamp"
    );
    assert!(text.starts_with(&header));
    assert!(text.contains("2022-08-11 21:33:46.756 UTC"));
}

#[test]
fn raw_and_verbose_buffers() {
    let options = ConfigOptions::new("eth0", 1, "out.txt", ReportFormat::Raw, "");
    let mut g = InnerReportGenerator::new(options).unwrap();
    let p = packet();
    g.push(&p);
    assert_eq!(g.data, "----------------\nEthernet IPV4 UDP\n");
    assert!(g.data_format.is_empty());
    assert_eq!(g.generate_report(), g.data);

    let verbose = p.display_as(ReportFormat::Verbose);
    assert!(verbose.starts_with("Ethernet : 74:e5:f9:16:ee:9b -> e0:b9:e5:30:ef:98 \nIPv4     : 142.250.184.67 -> 192.168.1.119\n > [version: 4, header-length: 20B, diff-serv: 0x00, tot-length: 58B, identification: 0x1234, flags: 0x40, frag-offset: 0, ttl: 64, header-checksum: 0x00 ]\n > []\nUDP      : 443 -> 45087  - [length: 38, checksum: 0x00]\nHTTPS   : Protocol details unknown\n > [aaaa"));
    assert!(verbose.ends_with("]\n"));
    assert_eq!(p.display_as(ReportFormat::Report), "Printing format for report");
}

#[test]
fn failed_report_is_put_back_ahead_of_later_frames() {
    let mut g = create_report_generator_inner("").unwrap();
    let a = ipv4_udp_frame([10, 0, 0, 1], [10, 0, 0, 2], 5000, 53, 10);
    let b = ipv4_udp_frame([10, 0, 0, 3], [10, 0, 0, 4], 5000, 80, 10);
    g.push(&frame(&a, 100, 1));
    let taken = g.take_gathered();
    assert!(g.data_format.is_empty());
    assert_eq!(taken.data_format.len(), 1);
    g.push(&frame(&b, 7, 2));
    g.push(&frame(&a, 50, 3));
    g.restore_unwritten(taken);
    assert_eq!(g.data_format.len(), 2);
    assert_eq!(g.data_format[0].port_dst, 53);
    assert_eq!(g.data_format[0].num_bytes, 150);
    assert_eq!(g.data_format[0].timestamp_init, 1);
    assert_eq!(g.data_format[0].timestamp_final, 3);
    assert_eq!(g.data_format[1].port_dst, 80);
    assert_eq!(g.data_format[1].num_bytes, 7);
}

#[test]
fn failed_raw_report_keeps_text_order() {
    let options = ConfigOptions::new("eth0", 1, "out.txt", ReportFormat::Raw, "");
    let mut g = InnerReportGenerator::new(options).unwrap();
    g.push(&packet());
    let taken = g.take_gathered();
    assert!(g.data.is_empty());
    g.push(&packet());
    g.restore_unwritten(taken);
    assert_eq!(g.data, "----------------\nEthernet IPV4 UDP\n".repeat(2));
}

#[test]
fn push_all_counts_like_single_pushes() {
    let a = ipv4_udp_frame([10, 0, 0, 1], [10, 0, 0, 2], 5000, 53, 10);
    let b = ipv4_udp_frame([10, 0, 0, 3], [10, 0, 0, 4], 5000, 80, 10);
    let frames = vec![frame(&a, 10, 1), frame(&b, 20, 2), frame(&a, 30, 3)];
    let mut g = create_report_generator_inner("").unwrap();
    g.push_all(&frames);
    assert_eq!(g.data_format.len(), 2);
    assert_eq!(g.data_format[0].num_bytes, 40);
    assert_eq!(g.data_format[0].timestamp_final, 3);
    assert_eq!(g.data_format[1].num_bytes, 20);
    let mut h = create_report_generator_inner("DNS").unwrap();
    h.push_all(&frames);
    assert_eq!(h.data_format.len(), 1);
    assert_eq!(h.data_format[0].upper_service, "DNS");
}

#[test]
fn display_as_raw_udp_line() {
    assert_eq!(packet().display_as(ReportFormat::Raw), "Ethernet IPV4 UDP\n");
}
