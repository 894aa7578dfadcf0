use network_analyzer::dissect::{
    dissect, ethertype_label, ipv4_string, record_of_frame, process_frame, CaptureMeta,
    DissectedFrame, LinkInfo, NetworkInfo, TransportInfo,
};
use network_analyzer::report::Report;

fn meta(len: u32) -> CaptureMeta {
    CaptureMeta { tv_sec: 1_609_459_200, tv_usec: 500_000, len }
}

#[test]
fn ipv4_tcp_frame_record() {
    let frame = DissectedFrame {
        link: Some(LinkInfo {
            source: [1, 2, 3, 4, 5, 6],
            destination: [7, 8, 9, 10, 11, 12],
            ether_type: 0x0800,
        }),
        network: Some(NetworkInfo::V4 {
            source: [10, 0, 0, 1],
            destination: [10, 0, 0, 2],
        }),
        transport: Some(TransportInfo::Tcp {
            source_port: 1000,
            destination_port: 80,
        }),
    };
    let p = record_of_frame(&frame, &meta(100));
    assert_eq!(p.get_source(), "10.0.0.1");
    assert_eq!(p.get_destination(), "10.0.0.2");
    assert_eq!(p.get_protocol(), "TCP");
    assert_eq!(p.get_source_port().as_deref(), Some("1000"));
    assert_eq!(p.get_destination_port().as_deref(), Some("80"));
    assert_eq!(*p.get_length(), 100);
    assert_eq!(p.get_info(), "");
    assert_eq!(&p.get_timestamp()[9..], "500");
}

#[test]
fn ipv6_udp_frame_record() {
    let frame = DissectedFrame {
        link: None,
        network: Some(NetworkInfo::V6 {
            source: [
                0x20, 0x01, 0x0D, 0xB8, 0, 0, 0, 0, 0, 0, 0, 0, 0, 0, 0, 0x01,
            ],
            destination: [0xFE, 0x80, 0, 0, 0, 0, 0, 0, 0, 0, 0, 0, 0, 0, 0, 0x09],
        }),
        transport: Some(TransportInfo::Udp {
            source_port: 53,
            destination_port: 5353,
        }),
    };
    let p = record_of_frame(&frame, &meta(60));
    assert_eq!(p.get_source(), "2001:0DB8:0000:0000:0000:0000:0000:0001");
    assert_eq!(p.get_destination(), "FE80:0000:0000:0000:0000:0000:0000:0009");
    assert_eq!(p.get_protocol(), "UDP");
    assert_eq!(p.get_source_port().as_deref(), Some("53"));
    assert_eq!(p.get_destination_port().as_deref(), Some("5353"));
}

#[test]
fn link_only_frame_uses_hardware_addresses() {
    let frame = DissectedFrame {
        link: Some(LinkInfo {
            source: [0x00, 0x1B, 0x44, 0x11, 0x3A, 0xB7],
            destination: [0xFF, 0xFF, 0xFF, 0xFF, 0xFF, 0xFF],
            ether_type: 0x0806,
        }),
        network: None,
        transport: None,
    };
    let p = record_of_frame(&frame, &meta(42));
    assert_eq!(p.get_source(), "00:1B:44:11:3A:B7");
    assert_eq!(p.get_destination(), "FF:FF:FF:FF:FF:FF");
    assert_eq!(p.get_protocol(), "ARP");
    assert_eq!(p.get_info(), "ARP");
    assert!(p.get_source_port().is_none());
    assert!(p.get_destination_port().is_none());
}

#[test]
fn icmp_frames_have_labels_and_no_ports() {
    let frame = DissectedFrame {
        link: None,
        network: Some(NetworkInfo::V4 {
            source: [1, 1, 1, 1],
            destination: [2, 2, 2, 2],
        }),
        transport: Some(TransportInfo::Icmpv4()),
    };
    let p = record_of_frame(&frame, &meta(64));
    assert_eq!(p.get_protocol(), "ICMPv4");
    assert!(p.get_source_port().is_none());
    assert_eq!(p.get_info(), "");
}

#[test]
fn unrecognized_transport_is_unknown() {
    let frame = DissectedFrame {
        link: None,
        network: Some(NetworkInfo::V4 {
            source: [1, 1, 1, 1],
            destination: [2, 2, 2, 2],
        }),
        transport: Some(TransportInfo::Other()),
    };
    let p = record_of_frame(&frame, &meta(10));
    assert_eq!(p.get_protocol(), "Unknown");
    assert_eq!(p.get_info(), "UNKNOWN");
}

#[test]
fn ethertype_labels() {
    assert_eq!(ethertype_label(0x0800), "IPv4");
    assert_eq!(ethertype_label(0x86DD), "IPv6");
    assert_eq!(ethertype_label(0x0806), "ARP");
    assert_eq!(ethertype_label(0x8100), "VLAN");
    assert_eq!(ethertype_label(0x8847), "MPLS");
    assert_eq!(ethertype_label(0x1234), "Unknown");
}

#[test]
fn ipv4_rendering() {
    assert_eq!(ipv4_string(&[192, 168, 1, 1]), "192.168.1.1");
    assert_eq!(ipv4_string(&[0, 0, 0, 0]), "0.0.0.0");
    assert_eq!(ipv4_string(&[255, 255, 255, 255]), "255.255.255.255");
}

#[test]
fn dissect_real_udp_frame() {
    // A real frame serialized by etherparse's builder, so dissection runs
    // through the real parser.
    let builder = etherparse::PacketBuilder::ethernet2([1, 2, 3, 4, 5, 6], [7, 8, 9, 10, 11, 12])
        .ipv4([192, 168, 1, 1], [192, 168, 1, 2], 20)
        .udp(21, 1234);
    let payload = [1u8, 2, 3, 4];
    let mut bytes = Vec::with_capacity(builder.size(payload.len()));
    builder.write(&mut bytes, &payload).unwrap();

    let frame = dissect(&bytes).expect("the frame parses");
    let p = record_of_frame(&frame, &meta(bytes.len() as u32));
    assert_eq!(p.get_source(), "192.168.1.1");
    assert_eq!(p.get_destination(), "192.168.1.2");
    assert_eq!(p.get_protocol(), "UDP");
    assert_eq!(p.get_source_port().as_deref(), Some("21"));
    assert_eq!(p.get_destination_port().as_deref(), Some("1234"));
}

#[test]
fn dissect_rejects_garbage() {
    assert!(dissect(&[0u8, 1, 2]).is_none());
}

#[test]
fn process_frame_merges_into_report() {
    let builder = etherparse::PacketBuilder::ethernet2([1, 2, 3, 4, 5, 6], [7, 8, 9, 10, 11, 12])
        .ipv4([10, 0, 0, 1], [10, 0, 0, 2], 20)
        .tcp(1000, 80, 0, 1024);
    let payload = [0u8; 8];
    let mut bytes = Vec::with_capacity(builder.size(payload.len()));
    builder.write(&mut bytes, &payload).unwrap();

    let mut report = Report::new();
    process_frame(&bytes, &meta(100), &mut report);
    process_frame(&bytes, &meta(200), &mut report);
    // Garbage frames are dropped silently.
    process_frame(&[0u8, 1], &meta(5), &mut report);
    assert_eq!(report.report_lines.len(), 1);
    assert_eq!(report.report_lines[0].bytes_total, 300);
    assert_eq!(report.report_lines[0].protocols, vec!["TCP".to_string()]);
    assert_eq!(report.report_lines[0].source_optional_port, "10.0.0.1:1000");
    assert_eq!(report.report_lines[0].destination_optional_port, "10.0.0.2:80");
}
