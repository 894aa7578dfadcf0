use network_analyzer::packet::Packet;
use network_analyzer::report::Report;
use network_analyzer::table::join_protocols;

fn packet(ts: &str, src: &str, dst: &str, proto: &str, len: u32) -> Packet {
    Packet::new(
        ts.to_string(),
        src.to_string(),
        dst.to_string(),
        Some("1000".to_string()),
        Some("80".to_string()),
        proto.to_string(),
        len,
        String::new(),
    )
}

#[test]
fn join_protocols_with_commas() {
    assert_eq!(join_protocols(&vec![]), "");
    assert_eq!(join_protocols(&vec!["TCP".to_string()]), "TCP");
    assert_eq!(
        join_protocols(&vec!["TCP".to_string(), "UDP".to_string(), "ICMPv4".to_string()]),
        "TCP,UDP,ICMPv4"
    );
}

#[test]
fn snapshot_has_header_and_one_row_per_line() {
    let mut report = Report::new();
    report.add_packet(packet("10:00:00.000", "10.0.0.1", "10.0.0.2", "TCP", 100));
    report.add_packet(packet("10:00:01.000", "10.0.0.1", "10.0.0.2", "UDP", 250));
    report.add_packet(packet("10:00:02.000", "10.0.0.3", "10.0.0.4", "TCP", 7));
    let table = report.to_formatted_table();
    // Header plus one row per conversation.
    assert_eq!(table.len(), 3);
    let rendered = table.to_string();
    assert!(rendered.contains("First Timestamp"));
    assert!(rendered.contains("Last Timestamp"));
    assert!(rendered.contains("Address 1"));
    assert!(rendered.contains("Address 2"));
    assert!(rendered.contains("Protocols"));
    assert!(rendered.contains("Bytes Total"));
    assert!(rendered.contains("10.0.0.1:1000"));
    assert!(rendered.contains("10.0.0.2:80"));
    assert!(rendered.contains("TCP,UDP"));
    assert!(rendered.contains("350"));
    assert!(rendered.contains("10:00:00.000"));
    assert!(rendered.contains("10:00:01.000"));
    assert!(rendered.contains("7"));
}

#[test]
fn snapshot_readiness_rejects_line_breaks() {
    let mut report = Report::new();
    report.add_packet(packet("10:00:00.000", "10.0.0.1", "10.0.0.2", "TCP", 1));
    assert!(report.snapshot_text_ready());
    // A report whose texts carry a line break cannot be rendered whole into
    // table cells, and the readiness check says so.
    report.get_report_lines()[0].set_timestamp_first("10:00\n:00.000".to_string());
    assert!(!report.snapshot_text_ready());
    report.get_report_lines()[0].set_timestamp_first("10:00:00.000".to_string());
    assert!(report.snapshot_text_ready());
    report.get_report_lines()[0].add_protocol("bad\rlabel".to_string());
    assert!(!report.snapshot_text_ready());
}

#[test]
fn snapshot_of_empty_report_is_header_only() {
    let report = Report::new();
    let table = report.to_formatted_table();
    assert_eq!(table.len(), 1);
    let rendered = table.to_string();
    assert!(rendered.contains("Bytes Total"));
}
