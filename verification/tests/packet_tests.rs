use network_analyzer::packet::{format_clock, Packet};
use network_analyzer::text::{str_lt, to_hex_string, u64_to_dec};

fn sample_packet() -> Packet {
    Packet::new(
        "10:00:00.000".to_string(),
        "10.0.0.1".to_string(),
        "10.0.0.2".to_string(),
        Some("1000".to_string()),
        Some("80".to_string()),
        "TCP".to_string(),
        100,
        "info".to_string(),
    )
}

#[test]
fn packet_getters_return_fields() {
    let p = sample_packet();
    assert_eq!(p.get_timestamp(), "10:00:00.000");
    assert_eq!(p.get_source(), "10.0.0.1");
    assert_eq!(p.get_destination(), "10.0.0.2");
    assert_eq!(p.get_source_port().as_deref(), Some("1000"));
    assert_eq!(p.get_destination_port().as_deref(), Some("80"));
    assert_eq!(p.get_protocol(), "TCP");
    assert_eq!(*p.get_length(), 100);
    assert_eq!(p.get_info(), "info");
}

#[test]
fn packet_setters_replace_fields() {
    let mut p = sample_packet();
    p.set_source("192.168.0.1".to_string());
    p.set_destination("192.168.0.2".to_string());
    p.set_source_port(None);
    p.set_destination_port(Some("443".to_string()));
    p.set_protocol("UDP".to_string());
    p.set_length(&42);
    p.set_info("changed".to_string());
    assert_eq!(p.get_source(), "192.168.0.1");
    assert_eq!(p.get_destination(), "192.168.0.2");
    assert!(p.get_source_port().is_none());
    assert_eq!(p.get_destination_port().as_deref(), Some("443"));
    assert_eq!(p.get_protocol(), "UDP");
    assert_eq!(*p.get_length(), 42);
    assert_eq!(p.get_info(), "changed");
}

#[test]
fn set_timestamp_renders_wall_clock() {
    let mut p = sample_packet();
    // 2021-01-01 00:00:00 UTC plus 123456 microseconds.
    p.set_timestamp(1_609_459_200, 123_456);
    let ts = p.get_timestamp();
    // The hour, minute and second follow the machine's time zone; the shape
    // and the millisecond fraction do not.
    assert_eq!(ts.len(), 12);
    let bytes = ts.as_bytes();
    assert_eq!(bytes[2], b':');
    assert_eq!(bytes[5], b':');
    assert_eq!(bytes[8], b'.');
    assert_eq!(&ts[9..], "123");
    for i in [0, 1, 3, 4, 6, 7, 9, 10, 11] {
        assert!(bytes[i].is_ascii_digit());
    }
}

#[test]
fn format_clock_pads_every_field() {
    assert_eq!(format_clock(9, 5, 3, 7), "09:05:03.007");
    assert_eq!(format_clock(23, 59, 58, 999), "23:59:58.999");
    assert_eq!(format_clock(0, 0, 0, 0), "00:00:00.000");
    assert_eq!(format_clock(12, 30, 45, 67), "12:30:45.067");
}

#[test]
fn to_display_string_joins_all_fields() {
    let p = sample_packet();
    assert_eq!(
        p.to_display_string(),
        "10:00:00.000 10.0.0.1 10.0.0.2 1000 80 TCP 100 info"
    );
    let mut portless = sample_packet();
    portless.set_source_port(None);
    portless.set_destination_port(None);
    portless.set_protocol("ICMPv4".to_string());
    assert_eq!(
        portless.to_display_string(),
        "10:00:00.000 10.0.0.1 10.0.0.2   ICMPv4 100 info"
    );
}

#[test]
fn decimal_rendering() {
    assert_eq!(u64_to_dec(0), "0");
    assert_eq!(u64_to_dec(7), "7");
    assert_eq!(u64_to_dec(12345), "12345");
    assert_eq!(u64_to_dec(4294967295), "4294967295");
    assert_eq!(u64_to_dec(u64::MAX), "18446744073709551615");
}

#[test]
fn hex_rendering_groups() {
    assert_eq!(to_hex_string(2, vec![0xAA, 0xBB, 0xCC]), "AA:BB:CC");
    assert_eq!(
        to_hex_string(2, vec![0x00, 0x1B, 0x44, 0x11, 0x3A, 0xB7]),
        "00:1B:44:11:3A:B7"
    );
    assert_eq!(to_hex_string(4, vec![0x20, 0x01, 0x0D, 0xB8]), "2001:0DB8");
    assert_eq!(to_hex_string(2, vec![0x5E]), "5E");
    // A trailing group may be shorter.
    assert_eq!(to_hex_string(4, vec![0x01, 0x02, 0x03]), "0102:03");
    assert_eq!(to_hex_string(2, vec![]), "");
}

#[test]
fn string_order_is_lexicographic() {
    assert!(str_lt("10.0.0.1", "10.0.0.2"));
    assert!(!str_lt("10.0.0.2", "10.0.0.1"));
    assert!(!str_lt("same", "same"));
    assert!(str_lt("abc", "abcd"));
    assert!(!str_lt("abcd", "abc"));
    assert!(str_lt("", "a"));
    assert!(str_lt("10:00:00.000", "10:00:00.001"));
}
