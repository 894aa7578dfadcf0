//! The normalized record built from one successfully dissected frame.

use vstd::prelude::*;
use vstd::string::StringExecFns;
use crate::text::{dec_chars, push_char, u64_to_dec};

verus! {

/// The character sequence of an optional string, the empty sequence when
/// absent.
pub open spec fn opt_chars(p: Option<String>) -> Seq<char> {
    match p {
        Some(s) => s@,
        None => seq![],
    }
}

/// The view of an optional string.
pub open spec fn opt_view(p: Option<String>) -> Option<Seq<char>> {
    match p {
        Some(s) => Some(s@),
        None => None,
    }
}

/// A two-digit zero-padded decimal rendering of a value below one hundred.
pub open spec fn pad2(n: nat) -> Seq<char> {
    if n < 10 {
        seq!['0'] + dec_chars(n)
    } else {
        dec_chars(n)
    }
}

/// A three-digit zero-padded decimal rendering of a value below one thousand.
pub open spec fn pad3(n: nat) -> Seq<char> {
    if n < 10 {
        seq!['0', '0'] + dec_chars(n)
    } else if n < 100 {
        seq!['0'] + dec_chars(n)
    } else {
        dec_chars(n)
    }
}

/// A wall-clock instant rendered as `HH:MM:SS.mmm`.
pub open spec fn clock_chars(h: nat, m: nat, s: nat, ms: nat) -> Seq<char> {
    pad2(h) + seq![':'] + pad2(m) + seq![':'] + pad2(s) + seq!['.'] + pad3(ms)
}

/// Represents a packet captured by the library.
#[derive(Debug, Clone, PartialEq)]
pub struct Packet {
    /// The time when the packet was captured, rendered as `HH:MM:SS.mmm`.
    pub timestamp: String,
    /// The source address.
    pub source: String,
    /// The destination address.
    pub destination: String,
    /// The source port, absent when the transport layer carries no ports.
    pub source_port: Option<String>,
    /// The destination port, absent when the transport layer carries no ports.
    pub destination_port: Option<String>,
    /// The protocol label of the packet.
    pub protocol: String,
    /// The on-wire length of the packet in bytes.
    pub length: u32,
    /// Additional free-form information.
    pub info: String,
}

/// Relies on chrono: `DateTime::from_timestamp` (documented to return `None`
/// only for seconds more than about 262,000 years from the common era or a
/// nanosecond count of two seconds or more), `DateTime::with_timezone` into
/// the machine's local zone, and the `Timelike` accessors `hour`, `minute`
/// and `second`, documented to return values in `0..24`, `0..60` and `0..60`.
/// The local zone is the machine's; nothing more is assumed of the values.
#[verifier::external_body]
fn local_clock_time(secs: i64, nanos: u32) -> (r: Option<(u32, u32, u32)>)
    ensures
        (r matches Some(t) ==> t.0 < 24 && t.1 < 60 && t.2 < 60),
        0 <= secs < 100_000_000_000i64 && nanos < 1_000_000_000 ==> r is Some,
{
    match chrono::DateTime::from_timestamp(secs, nanos) {
        Some(dt) => {
            let local = dt.with_timezone(&chrono::Local);
            Some((
                chrono::Timelike::hour(&local),
                chrono::Timelike::minute(&local),
                chrono::Timelike::second(&local),
            ))
        },
        None => None,
    }
}

/// Appends the two-digit zero-padded decimal rendering of `n`.
fn append_pad2(r: &mut String, n: u32)
    requires
        n < 100,
    ensures
        final(r)@ == old(r)@ + pad2(n as nat),
{
    if n < 10 {
        push_char(r, '0');
    }
    let d = u64_to_dec(n as u64);
    r.append(d.as_str());
    proof {
        assert(r@ =~= old(r)@ + pad2(n as nat));
    }
}

/// Appends the three-digit zero-padded decimal rendering of `n`.
fn append_pad3(r: &mut String, n: u32)
    requires
        n < 1000,
    ensures
        final(r)@ == old(r)@ + pad3(n as nat),
{
    if n < 10 {
        push_char(r, '0');
        push_char(r, '0');
    } else if n < 100 {
        push_char(r, '0');
    }
    let d = u64_to_dec(n as u64);
    r.append(d.as_str());
    proof {
        assert(r@ =~= old(r)@ + pad3(n as nat));
    }
}

/// Renders a local wall-clock time as `HH:MM:SS.mmm`.
pub fn format_clock(h: u32, m: u32, s: u32, millis: u32) -> (r: String)
    requires
        h < 100,
        m < 100,
        s < 100,
        millis < 1000,
    ensures
        r@ == clock_chars(h as nat, m as nat, s as nat, millis as nat),
{
    let mut r = String::new();
    append_pad2(&mut r, h);
    push_char(&mut r, ':');
    append_pad2(&mut r, m);
    push_char(&mut r, ':');
    append_pad2(&mut r, s);
    push_char(&mut r, '.');
    append_pad3(&mut r, millis);
    proof {
        assert(r@ =~= clock_chars(h as nat, m as nat, s as nat, millis as nat));
    }
    r
}

impl Packet {
    /// Builds a packet record from all of its fields.
    pub fn new(
        timestamp: String,
        source: String,
        destination: String,
        source_port: Option<String>,
        destination_port: Option<String>,
        protocol: String,
        length: u32,
        info: String,
    ) -> (p: Packet)
        ensures
            p == (Packet {
                timestamp,
                source,
                destination,
                source_port,
                destination_port,
                protocol,
                length,
                info,
            }),
    {
        Packet { timestamp, source, destination, source_port, destination_port, protocol, length, info }
    }

    /// Renders the capture instant (seconds and microseconds since the epoch)
    /// as a local wall-clock `HH:MM:SS.mmm` string and stores it. The hour,
    /// minute and second depend on the machine's local time zone; the format
    /// and the millisecond fraction do not.
    pub fn set_timestamp(&mut self, timestamp: i64, timestamp_us: i64)
        requires
            0 <= timestamp < 100_000_000_000i64,
            0 <= timestamp_us < 1_000_000,
        ensures
            exists|h: nat, m: nat, s: nat|
                h < 24 && m < 60 && s < 60 && final(self).timestamp@ == #[trigger] clock_chars(
                    h,
                    m,
                    s,
                    (timestamp_us / 1000) as nat,
                ),
            *final(self) == (Packet { timestamp: final(self).timestamp, ..*old(self) }),
    {
        let nanos: u32 = (timestamp_us * 1000) as u32;
        let clock = local_clock_time(timestamp, nanos);
        let (h, m, s) = clock.unwrap();
        let millis: u32 = (timestamp_us / 1000) as u32;
        let rendered = format_clock(h, m, s, millis);
        self.timestamp = rendered;
        proof {
            assert(millis as nat == (timestamp_us / 1000) as nat);
            assert(self.timestamp@ == clock_chars(
                h as nat,
                m as nat,
                s as nat,
                (timestamp_us / 1000) as nat,
            ));
        }
    }

    /// Sets the source address.
    pub fn set_source(&mut self, source: String)
        ensures
            *final(self) == (Packet { source, ..*old(self) }),
    {
        self.source = source;
    }

    /// Sets the destination address.
    pub fn set_destination(&mut self, destination: String)
        ensures
            *final(self) == (Packet { destination, ..*old(self) }),
    {
        self.destination = destination;
    }

    /// Sets the source port.
    pub fn set_source_port(&mut self, source_port: Option<String>)
        ensures
            *final(self) == (Packet { source_port, ..*old(self) }),
    {
        self.source_port = source_port;
    }

    /// Sets the destination port.
    pub fn set_destination_port(&mut self, destination_port: Option<String>)
        ensures
            *final(self) == (Packet { destination_port, ..*old(self) }),
    {
        self.destination_port = destination_port;
    }

    /// Sets the protocol label.
    pub fn set_protocol(&mut self, protocol: String)
        ensures
            *final(self) == (Packet { protocol, ..*old(self) }),
    {
        self.protocol = protocol;
    }

    /// Sets the on-wire length.
    pub fn set_length(&mut self, length: &u32)
        ensures
            *final(self) == (Packet { length: *length, ..*old(self) }),
    {
        self.length = *length;
    }

    /// Sets the free-form information field.
    pub fn set_info(&mut self, info: String)
        ensures
            *final(self) == (Packet { info, ..*old(self) }),
    {
        self.info = info;
    }

    /// The capture timestamp.
    pub fn get_timestamp(&self) -> (r: &String)
        ensures
            r == &self.timestamp,
    {
        &self.timestamp
    }

    /// The source address.
    pub fn get_source(&self) -> (r: &String)
        ensures
            r == &self.source,
    {
        &self.source
    }

    /// The destination address.
    pub fn get_destination(&self) -> (r: &String)
        ensures
            r == &self.destination,
    {
        &self.destination
    }

    /// The source port, when present.
    pub fn get_source_port(&self) -> (r: &Option<String>)
        ensures
            r == &self.source_port,
    {
        &self.source_port
    }

    /// The destination port, when present.
    pub fn get_destination_port(&self) -> (r: &Option<String>)
        ensures
            r == &self.destination_port,
    {
        &self.destination_port
    }

    /// The protocol label.
    pub fn get_protocol(&self) -> (r: &String)
        ensures
            r == &self.protocol,
    {
        &self.protocol
    }

    /// The on-wire length.
    pub fn get_length(&self) -> (r: &u32)
        ensures
            r == &self.length,
    {
        &self.length
    }

    /// The free-form information field.
    pub fn get_info(&self) -> (r: &String)
        ensures
            r == &self.info,
    {
        &self.info
    }

    /// All fields rendered on one line, space-separated, with an absent port
    /// rendered as nothing.
    pub open spec fn display_chars(self) -> Seq<char> {
        self.timestamp@ + seq![' '] + self.source@ + seq![' '] + self.destination@ + seq![' ']
            + opt_chars(self.source_port) + seq![' '] + opt_chars(self.destination_port)
            + seq![' '] + self.protocol@ + seq![' '] + dec_chars(self.length as nat) + seq![' ']
            + self.info@
    }

    /// Renders the record on one line for display.
    pub fn to_display_string(&self) -> (r: String)
        ensures
            r@ == self.display_chars(),
    {
        let mut r = self.timestamp.clone();
        push_char(&mut r, ' ');
        r.append(self.source.as_str());
        push_char(&mut r, ' ');
        r.append(self.destination.as_str());
        push_char(&mut r, ' ');
        match &self.source_port {
            Some(p) => r.append(p.as_str()),
            None => (),
        }
        push_char(&mut r, ' ');
        match &self.destination_port {
            Some(p) => r.append(p.as_str()),
            None => (),
        }
        push_char(&mut r, ' ');
        r.append(self.protocol.as_str());
        push_char(&mut r, ' ');
        let len_text = u64_to_dec(self.length as u64);
        r.append(len_text.as_str());
        push_char(&mut r, ' ');
        r.append(self.info.as_str());
        proof {
            assert(r@ =~= self.display_chars());
        }
        r
    }
}

} // verus!
