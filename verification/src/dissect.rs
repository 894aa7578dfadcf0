//! Frame dissection: raw frame bytes plus capture metadata become a
//! normalized [`Packet`] record, or nothing when the bytes cannot be parsed —
//! malformed frames are expected background noise and are dropped silently.
//!
//! Parsing the link, network and transport headers is done by etherparse
//! behind the trusted wrappers below; everything that maps the decoded
//! headers to a record — address rendering, protocol classification, port and
//! timestamp formatting — is verified here over the closed model types.

use vstd::prelude::*;
use crate::packet::{clock_chars, opt_view, Packet};
use crate::report::Report;
use crate::text::{chunk_join, dec_chars, hex_chars, push_char, to_hex_string, u64_to_dec};

verus! {

// ---------------------------------------------------------------------------
// The closed model of a dissected frame
// ---------------------------------------------------------------------------

/// The Ethernet II fields the dissector reads.
#[derive(Debug, Clone, Copy)]
pub struct LinkInfo {
    pub source: [u8; 6],
    pub destination: [u8; 6],
    pub ether_type: u16,
}

/// The network-layer addresses, when a network header is present.
#[derive(Debug, Clone, Copy)]
pub enum NetworkInfo {
    V4 { source: [u8; 4], destination: [u8; 4] },
    V6 { source: [u8; 16], destination: [u8; 16] },
}

/// The transport-layer classification, when a transport header was
/// recognized.
#[derive(Debug, Clone, Copy)]
pub enum TransportInfo {
    Tcp { source_port: u16, destination_port: u16 },
    Udp { source_port: u16, destination_port: u16 },
    Icmpv4(),
    Icmpv6(),
    Other(),
}

/// The decoded headers of one frame, each layer optional.
#[derive(Debug, Clone, Copy)]
pub struct DissectedFrame {
    pub link: Option<LinkInfo>,
    pub network: Option<NetworkInfo>,
    pub transport: Option<TransportInfo>,
}

/// The capture metadata delivered with one frame: the capture instant in
/// seconds and microseconds since the epoch, and the on-wire length.
#[derive(Debug, Clone, Copy)]
pub struct CaptureMeta {
    pub tv_sec: i64,
    pub tv_usec: i64,
    pub len: u32,
}

impl CaptureMeta {
    /// The instants a timestamp can be rendered for: microseconds below one
    /// million, seconds non-negative and well inside the representable range
    /// of a calendar date.
    pub open spec fn wf(self) -> bool {
        &&& 0 <= self.tv_sec < 100_000_000_000i64
        &&& 0 <= self.tv_usec < 1_000_000
    }
}

// ---------------------------------------------------------------------------
// Trusted wrappers around etherparse
// ---------------------------------------------------------------------------

#[verifier::external_type_specification]
#[verifier::external_body]
pub struct ExSlicedPacket<'a>(etherparse::SlicedPacket<'a>);

/// The decoded headers that etherparse's parser yields for given frame
/// bytes, or `None` when they do not parse as an Ethernet II frame. Parsing
/// depends on the bytes alone, so the result carries a name that every
/// caller's contract can speak of; what the name is on given bytes is
/// etherparse's to decide.
pub uninterp spec fn frame_of(data: Seq<u8>) -> Option<DissectedFrame>;

/// Relies on `etherparse::SlicedPacket::from_ethernet`
/// (etherparse's `packet_slicing.rs`): slices a frame that starts with an
/// Ethernet II header into its link, network and transport headers; an
/// error becomes `None`. The three helpers below convert the header slices
/// into the closed model, one variant per arm.
#[verifier::external_body]
fn dissect_bytes(data: &[u8]) -> (r: Option<DissectedFrame>)
    ensures
        r == frame_of(data@),
{
    match etherparse::SlicedPacket::from_ethernet(data) {
        Ok(p) => Some(
            DissectedFrame {
                link: link_layer(&p),
                network: network_layer(&p),
                transport: transport_layer(&p),
            },
        ),
        Err(_) => None,
    }
}

/// Relies on `etherparse::LinkSlice` (its only variant holds an Ethernet II
/// header slice) and on `Ethernet2HeaderSlice::source`, `::destination` and
/// `::ether_type`, which read the two 6-byte hardware addresses and the
/// ether-type field.
#[verifier::external_body]
fn link_layer(p: &etherparse::SlicedPacket) -> (r: Option<LinkInfo>) {
    match &p.link {
        Some(etherparse::LinkSlice::Ethernet2(h)) => Some(
            LinkInfo { source: h.source(), destination: h.destination(), ether_type: h.ether_type() },
        ),
        None => None,
    }
}

/// Relies on `etherparse::InternetSlice` and on the `Ipv4HeaderSlice` /
/// `Ipv6HeaderSlice` accessors `source` and `destination`, which read the
/// 4-byte or 16-byte addresses.
#[verifier::external_body]
fn network_layer(p: &etherparse::SlicedPacket) -> (r: Option<NetworkInfo>) {
    match &p.ip {
        Some(etherparse::InternetSlice::Ipv4(h, _)) => Some(
            NetworkInfo::V4 { source: h.source(), destination: h.destination() },
        ),
        Some(etherparse::InternetSlice::Ipv6(h, _)) => Some(
            NetworkInfo::V6 { source: h.source(), destination: h.destination() },
        ),
        None => None,
    }
}

/// Relies on `etherparse::TransportSlice` and on the `TcpHeaderSlice` /
/// `UdpHeaderSlice` accessors `source_port` and `destination_port`.
#[verifier::external_body]
fn transport_layer(p: &etherparse::SlicedPacket) -> (r: Option<TransportInfo>) {
    match &p.transport {
        Some(etherparse::TransportSlice::Tcp(h)) => Some(
            TransportInfo::Tcp { source_port: h.source_port(), destination_port: h.destination_port() },
        ),
        Some(etherparse::TransportSlice::Udp(h)) => Some(
            TransportInfo::Udp { source_port: h.source_port(), destination_port: h.destination_port() },
        ),
        Some(etherparse::TransportSlice::Icmpv4(_)) => Some(TransportInfo::Icmpv4()),
        Some(etherparse::TransportSlice::Icmpv6(_)) => Some(TransportInfo::Icmpv6()),
        Some(etherparse::TransportSlice::Unknown(_)) => Some(TransportInfo::Other()),
        None => None,
    }
}

/// Dissects raw frame bytes into the closed model of decoded headers, or
/// `None` when the bytes cannot be parsed as an Ethernet II frame. The
/// result is exactly the frame the parser decodes from the bytes; every
/// function that consumes the model states exactly what it does for each
/// model value.
pub fn dissect(data: &[u8]) -> (r: Option<DissectedFrame>)
    ensures
        r == frame_of(data@),
{
    dissect_bytes(data)
}

// ---------------------------------------------------------------------------
// Address and label rendering
// ---------------------------------------------------------------------------

/// The dotted-decimal rendering of a 4-byte address.
pub open spec fn ipv4_chars(b: Seq<u8>) -> Seq<char>
    recommends
        b.len() == 4,
{
    dec_chars(b[0] as nat) + seq!['.'] + dec_chars(b[1] as nat) + seq!['.'] + dec_chars(
        b[2] as nat,
    ) + seq!['.'] + dec_chars(b[3] as nat)
}

/// Renders a 4-byte address in dotted decimal.
pub fn ipv4_string(b: &[u8; 4]) -> (s: String)
    ensures
        s@ == ipv4_chars(b@),
{
    let mut s = u64_to_dec(b[0] as u64);
    push_char(&mut s, '.');
    let o1 = u64_to_dec(b[1] as u64);
    s.append(o1.as_str());
    push_char(&mut s, '.');
    let o2 = u64_to_dec(b[2] as u64);
    s.append(o2.as_str());
    push_char(&mut s, '.');
    let o3 = u64_to_dec(b[3] as u64);
    s.append(o3.as_str());
    proof {
        assert(s@ =~= ipv4_chars(b@));
    }
    s
}

/// Copies an address array into a vector.
fn bytes_vec<const N: usize>(b: &[u8; N]) -> (v: Vec<u8>)
    ensures
        v@ == b@,
{
    let mut v: Vec<u8> = Vec::new();
    let mut i: usize = 0;
    while i < N
        invariant
            i <= N,
            v@ == b@.take(i as int),
        decreases N - i,
    {
        v.push(b[i]);
        proof {
            assert(b@.take(i as int + 1) =~= b@.take(i as int).push(b@[i as int]));
        }
        i = i + 1;
    }
    proof {
        assert(b@.take(N as int) =~= b@);
    }
    v
}

/// The label derived from an Ethernet ether-type field.
pub open spec fn ethertype_chars(ether_type: u16) -> Seq<char> {
    if ether_type == 0x0800 {
        "IPv4"@
    } else if ether_type == 0x86DD {
        "IPv6"@
    } else if ether_type == 0x0806 {
        "ARP"@
    } else if ether_type == 0x8100 {
        "VLAN"@
    } else if ether_type == 0x8847 {
        "MPLS"@
    } else {
        "Unknown"@
    }
}

/// Renders the label of an Ethernet ether-type field.
pub fn ethertype_label(ether_type: u16) -> (s: String)
    ensures
        s@ == ethertype_chars(ether_type),
{
    if ether_type == 0x0800 {
        "IPv4".to_owned()
    } else if ether_type == 0x86DD {
        "IPv6".to_owned()
    } else if ether_type == 0x0806 {
        "ARP".to_owned()
    } else if ether_type == 0x8100 {
        "VLAN".to_owned()
    } else if ether_type == 0x8847 {
        "MPLS".to_owned()
    } else {
        "Unknown".to_owned()
    }
}

// ---------------------------------------------------------------------------
// What a record built from a frame holds
// ---------------------------------------------------------------------------

/// The source address text of a frame: dotted decimal for IPv4, grouped
/// hexadecimal (four digits per group) for IPv6, the grouped hardware
/// address (two digits per group) when only a link header is present, empty
/// otherwise.
pub open spec fn source_chars_of(frame: DissectedFrame) -> Seq<char> {
    match frame.network {
        Some(NetworkInfo::V4 { source, .. }) => ipv4_chars(source@),
        Some(NetworkInfo::V6 { source, .. }) => chunk_join(hex_chars(source@), 4),
        None => match frame.link {
            Some(l) => chunk_join(hex_chars(l.source@), 2),
            None => seq![],
        },
    }
}

/// The destination address text of a frame, by the same rules as the source.
pub open spec fn destination_chars_of(frame: DissectedFrame) -> Seq<char> {
    match frame.network {
        Some(NetworkInfo::V4 { destination, .. }) => ipv4_chars(destination@),
        Some(NetworkInfo::V6 { destination, .. }) => chunk_join(hex_chars(destination@), 4),
        None => match frame.link {
            Some(l) => chunk_join(hex_chars(l.destination@), 2),
            None => seq![],
        },
    }
}

/// The protocol label of a frame: the transport protocol when one was
/// recognized, else the ether-type label when only a link header is present,
/// else empty.
pub open spec fn protocol_chars_of(frame: DissectedFrame) -> Seq<char> {
    match frame.transport {
        Some(TransportInfo::Tcp { .. }) => "TCP"@,
        Some(TransportInfo::Udp { .. }) => "UDP"@,
        Some(TransportInfo::Icmpv4()) => "ICMPv4"@,
        Some(TransportInfo::Icmpv6()) => "ICMPv6"@,
        Some(TransportInfo::Other()) => "Unknown"@,
        None => match frame.network {
            Some(_) => seq![],
            None => match frame.link {
                Some(l) => ethertype_chars(l.ether_type),
                None => seq![],
            },
        },
    }
}

/// The info text of a frame: `UNKNOWN` for an unrecognized transport layer,
/// else the ether-type label when only a link header is present, else empty.
pub open spec fn info_chars_of(frame: DissectedFrame) -> Seq<char> {
    if frame.transport matches Some(TransportInfo::Other()) {
        "UNKNOWN"@
    } else if frame.network is None && frame.link is Some {
        ethertype_chars(frame.link.unwrap().ether_type)
    } else {
        seq![]
    }
}

/// The source port text of a frame: present exactly for TCP and UDP.
pub open spec fn source_port_chars_of(frame: DissectedFrame) -> Option<Seq<char>> {
    match frame.transport {
        Some(TransportInfo::Tcp { source_port, .. }) => Some(dec_chars(source_port as nat)),
        Some(TransportInfo::Udp { source_port, .. }) => Some(dec_chars(source_port as nat)),
        _ => None,
    }
}

/// The destination port text of a frame: present exactly for TCP and UDP.
pub open spec fn destination_port_chars_of(frame: DissectedFrame) -> Option<Seq<char>> {
    match frame.transport {
        Some(TransportInfo::Tcp { destination_port, .. }) => Some(
            dec_chars(destination_port as nat),
        ),
        Some(TransportInfo::Udp { destination_port, .. }) => Some(
            dec_chars(destination_port as nat),
        ),
        _ => None,
    }
}

/// The record built from a dissected frame: every field is determined by the
/// decoded headers and the capture metadata, except the hour, minute and
/// second of the timestamp, which follow the machine's local time zone.
pub open spec fn record_matches(frame: DissectedFrame, meta: CaptureMeta, p: Packet) -> bool {
    &&& p.source@ == source_chars_of(frame)
    &&& p.destination@ == destination_chars_of(frame)
    &&& p.protocol@ == protocol_chars_of(frame)
    &&& p.info@ == info_chars_of(frame)
    &&& opt_view(p.source_port) == source_port_chars_of(frame)
    &&& opt_view(p.destination_port) == destination_port_chars_of(frame)
    &&& p.length == meta.len
    &&& exists|h: nat, m: nat, s: nat|
        h < 24 && m < 60 && s < 60 && p.timestamp@ == #[trigger] clock_chars(
            h,
            m,
            s,
            (meta.tv_usec / 1000) as nat,
        )
}

// ---------------------------------------------------------------------------
// Filling a record from the decoded headers
// ---------------------------------------------------------------------------

/// Renders the capture instant and stores it and the on-wire length.
pub fn fill_timestamp_and_length(meta: &CaptureMeta, dest_packet: &mut Packet)
    requires
        meta.wf(),
    ensures
        final(dest_packet).length == meta.len,
        exists|h: nat, m: nat, s: nat|
            h < 24 && m < 60 && s < 60 && final(dest_packet).timestamp@ == #[trigger] clock_chars(
                h,
                m,
                s,
                (meta.tv_usec / 1000) as nat,
            ),
        *final(dest_packet) == (Packet {
            timestamp: final(dest_packet).timestamp,
            length: meta.len,
            ..*old(dest_packet)
        }),
{
    dest_packet.set_length(&meta.len);
    dest_packet.set_timestamp(meta.tv_sec, meta.tv_usec);
}

/// Stores the frame's addresses: network-layer addresses when a network
/// header is present, the hardware addresses plus the ether-type label as
/// protocol and info when only a link header is, nothing when neither is.
pub fn fill_ip_address(frame: &DissectedFrame, dest_packet: &mut Packet)
    ensures
        (match frame.network {
            Some(_) => {
                &&& final(dest_packet).source@ == source_chars_of(*frame)
                &&& final(dest_packet).destination@ == destination_chars_of(*frame)
                &&& *final(dest_packet) == (Packet {
                    source: final(dest_packet).source,
                    destination: final(dest_packet).destination,
                    ..*old(dest_packet)
                })
            },
            None => match frame.link {
                Some(l) => {
                    &&& final(dest_packet).source@ == source_chars_of(*frame)
                    &&& final(dest_packet).destination@ == destination_chars_of(*frame)
                    &&& final(dest_packet).protocol@ == ethertype_chars(l.ether_type)
                    &&& final(dest_packet).info@ == ethertype_chars(l.ether_type)
                    &&& *final(dest_packet) == (Packet {
                        source: final(dest_packet).source,
                        destination: final(dest_packet).destination,
                        protocol: final(dest_packet).protocol,
                        info: final(dest_packet).info,
                        ..*old(dest_packet)
                    })
                },
                None => *final(dest_packet) == *old(dest_packet),
            },
        }),
{
    match &frame.network {
        Some(NetworkInfo::V4 { source, destination }) => {
            dest_packet.set_source(ipv4_string(source));
            dest_packet.set_destination(ipv4_string(destination));
        },
        Some(NetworkInfo::V6 { source, destination }) => {
            dest_packet.set_source(to_hex_string(4, bytes_vec(source)));
            dest_packet.set_destination(to_hex_string(4, bytes_vec(destination)));
        },
        None => match &frame.link {
            Some(l) => {
                dest_packet.set_source(to_hex_string(2, bytes_vec(&l.source)));
                dest_packet.set_destination(to_hex_string(2, bytes_vec(&l.destination)));
                let label = ethertype_label(l.ether_type);
                dest_packet.set_protocol(label.clone());
                dest_packet.set_info(label);
            },
            None => (),
        },
    }
}

/// Classifies the transport layer: TCP and UDP store their label and both
/// decimal ports, the ICMP variants store their label alone, an unrecognized
/// transport stores `Unknown` with info `UNKNOWN`, and a frame without a
/// transport header is left untouched.
pub fn fill_protocol_and_ports(frame: &DissectedFrame, dest_packet: &mut Packet)
    ensures
        (match frame.transport {
            Some(TransportInfo::Tcp { source_port, destination_port }) => {
                &&& final(dest_packet).protocol@ == "TCP"@
                &&& opt_view(final(dest_packet).source_port) == Some(dec_chars(source_port as nat))
                &&& opt_view(final(dest_packet).destination_port) == Some(
                    dec_chars(destination_port as nat),
                )
                &&& *final(dest_packet) == (Packet {
                    protocol: final(dest_packet).protocol,
                    source_port: final(dest_packet).source_port,
                    destination_port: final(dest_packet).destination_port,
                    ..*old(dest_packet)
                })
            },
            Some(TransportInfo::Udp { source_port, destination_port }) => {
                &&& final(dest_packet).protocol@ == "UDP"@
                &&& opt_view(final(dest_packet).source_port) == Some(dec_chars(source_port as nat))
                &&& opt_view(final(dest_packet).destination_port) == Some(
                    dec_chars(destination_port as nat),
                )
                &&& *final(dest_packet) == (Packet {
                    protocol: final(dest_packet).protocol,
                    source_port: final(dest_packet).source_port,
                    destination_port: final(dest_packet).destination_port,
                    ..*old(dest_packet)
                })
            },
            Some(TransportInfo::Icmpv4()) => final(dest_packet).protocol@ == "ICMPv4"@
                && *final(dest_packet) == (Packet {
                protocol: final(dest_packet).protocol,
                ..*old(dest_packet)
            }),
            Some(TransportInfo::Icmpv6()) => final(dest_packet).protocol@ == "ICMPv6"@
                && *final(dest_packet) == (Packet {
                protocol: final(dest_packet).protocol,
                ..*old(dest_packet)
            }),
            Some(TransportInfo::Other()) => {
                &&& final(dest_packet).protocol@ == "Unknown"@
                &&& final(dest_packet).info@ == "UNKNOWN"@
                &&& *final(dest_packet) == (Packet {
                    protocol: final(dest_packet).protocol,
                    info: final(dest_packet).info,
                    ..*old(dest_packet)
                })
            },
            None => *final(dest_packet) == *old(dest_packet),
        }),
{
    match &frame.transport {
        Some(TransportInfo::Tcp { source_port, destination_port }) => {
            dest_packet.set_protocol("TCP".to_owned());
            dest_packet.set_source_port(Some(u64_to_dec(*source_port as u64)));
            dest_packet.set_destination_port(Some(u64_to_dec(*destination_port as u64)));
        },
        Some(TransportInfo::Udp { source_port, destination_port }) => {
            dest_packet.set_protocol("UDP".to_owned());
            dest_packet.set_source_port(Some(u64_to_dec(*source_port as u64)));
            dest_packet.set_destination_port(Some(u64_to_dec(*destination_port as u64)));
        },
        Some(TransportInfo::Icmpv4()) => {
            dest_packet.set_protocol("ICMPv4".to_owned());
        },
        Some(TransportInfo::Icmpv6()) => {
            dest_packet.set_protocol("ICMPv6".to_owned());
        },
        Some(TransportInfo::Other()) => {
            dest_packet.set_protocol("Unknown".to_owned());
            dest_packet.set_info("UNKNOWN".to_owned());
        },
        None => (),
    }
}

/// Builds the record of one dissected frame: length and timestamp from the
/// capture metadata, addresses from the deepest header present, protocol,
/// ports and info from the transport classification.
pub fn record_of_frame(frame: &DissectedFrame, meta: &CaptureMeta) -> (p: Packet)
    requires
        meta.wf(),
    ensures
        record_matches(*frame, *meta, p),
{
    let mut result = Packet::new(
        String::new(),
        String::new(),
        String::new(),
        None,
        None,
        String::new(),
        0,
        String::new(),
    );
    fill_timestamp_and_length(meta, &mut result);
    fill_ip_address(frame, &mut result);
    fill_protocol_and_ports(frame, &mut result);
    result
}

/// One unit of work of the worker pool: dissect the frame bytes and, when
/// they parse, merge the record built from the decoded frame into the
/// report; a frame that does not parse is dropped silently and the report
/// is left exactly as it was. The record is existentially quantified only
/// because the hour, minute and second of its timestamp follow the
/// machine's local time zone; every other field is pinned by
/// [`record_matches`].
pub fn process_frame(data: &[u8], meta: &CaptureMeta, report: &mut Report)
    requires
        old(report).wf(),
        meta.wf(),
    ensures
        final(report).wf(),
        frame_of(data@) is None ==> *final(report) == *old(report),
        (frame_of(data@) matches Some(f) ==> exists|p: Packet|
            #[trigger] record_matches(f, *meta, p) && Report::routes(
                *old(report),
                *final(report),
                p,
            )),
{
    match dissect(data) {
        Some(frame) => {
            let record = record_of_frame(&frame, meta);
            let ghost witness = record;
            report.add_packet(record);
            proof {
                assert(record_matches(frame, *meta, witness) && Report::routes(
                    *old(report),
                    *report,
                    witness,
                ));
            }
        },
        None => (),
    }
}

} // verus!
