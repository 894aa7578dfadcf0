//! Flow aggregation: one [`ReportLine`] per bidirectional conversation.
//!
//! A conversation key is the unordered pair of endpoint identifiers
//! (`address` or `address:port`), canonicalized so that the lexicographically
//! smaller identifier comes first; traffic in both directions accumulates
//! into the same line. The report keeps exactly one live line per key: it is
//! created on the first matching packet and only mutated afterwards.

use vstd::prelude::*;
use vstd::string::StringExecFns;
use crate::packet::{opt_view, Packet};
use crate::text::{
    lemma_lex_lt_asymmetric, lemma_lex_lt_total, lemma_lex_lt_transitive, lex_lt, lex_max,
    lex_min, push_char, str_lt, u64_to_dec,
};

verus! {

// ---------------------------------------------------------------------------
// Conversation keys
// ---------------------------------------------------------------------------

/// An endpoint identifier: the address, suffixed with `:` and the port when a
/// port is present.
pub open spec fn endpoint_chars(addr: Seq<char>, port: Option<Seq<char>>) -> Seq<char> {
    match port {
        Some(p) => addr + seq![':'] + p,
        None => addr,
    }
}

/// Builds an endpoint identifier string.
pub fn endpoint_string(addr: &String, port: &Option<String>) -> (s: String)
    ensures
        s@ == endpoint_chars(addr@, opt_view(*port)),
{
    let mut s = addr.clone();
    match port {
        Some(p) => {
            push_char(&mut s, ':');
            s.append(p.as_str());
            proof {
                assert(s@ =~= endpoint_chars(addr@, opt_view(*port)));
            }
        },
        None => (),
    }
    s
}

/// The two identifiers ordered so the lexicographically smaller comes first.
pub open spec fn canon_pair(a: Seq<char>, b: Seq<char>) -> (Seq<char>, Seq<char>) {
    if lex_lt(b, a) {
        (b, a)
    } else {
        (a, b)
    }
}

/// The canonical conversation key of a packet.
pub open spec fn packet_key(p: Packet) -> (Seq<char>, Seq<char>) {
    canon_pair(
        endpoint_chars(p.source@, opt_view(p.source_port)),
        endpoint_chars(p.destination@, opt_view(p.destination_port)),
    )
}

/// Ordering the identifiers does not depend on the order they are given in.
pub proof fn lemma_canon_pair_symmetric(a: Seq<char>, b: Seq<char>)
    ensures
        canon_pair(a, b) == canon_pair(b, a),
{
    lemma_lex_lt_total(a, b);
    lemma_lex_lt_asymmetric(a, b);
}

/// Canonicalization symmetry: two packets whose endpoints are the same pair
/// seen in opposite directions carry the same conversation key, so a merge
/// routes both into the same report line.
pub proof fn lemma_conversation_key_symmetric(p: Packet, q: Packet)
    requires
        q.source@ == p.destination@,
        q.destination@ == p.source@,
        opt_view(q.source_port) == opt_view(p.destination_port),
        opt_view(q.destination_port) == opt_view(p.source_port),
    ensures
        packet_key(q) == packet_key(p),
{
    lemma_canon_pair_symmetric(
        endpoint_chars(p.source@, opt_view(p.source_port)),
        endpoint_chars(p.destination@, opt_view(p.destination_port)),
    );
}

// ---------------------------------------------------------------------------
// Report lines
// ---------------------------------------------------------------------------

/// One aggregated conversation: the first and last timestamp observed, the
/// two canonical endpoint identifiers, the distinct protocol labels in
/// first-seen order, and the cumulative byte total.
#[derive(Debug, Clone)]
pub struct ReportLine {
    pub timestamp_first: String,
    pub timestamp_last: String,
    pub source_optional_port: String,
    pub destination_optional_port: String,
    pub protocols: Vec<String>,
    pub bytes_total: u32,
}

/// The views of a protocol label list.
pub open spec fn protocols_view(v: Vec<String>) -> Seq<Seq<char>> {
    v@.map_values(|s: String| s@)
}

/// A protocol list extended by a label: unchanged when the label is already
/// present, appended at the end otherwise.
pub open spec fn merged_protocols(ps: Seq<Seq<char>>, q: Seq<char>) -> Seq<Seq<char>> {
    if ps.contains(q) {
        ps
    } else {
        ps.push(q)
    }
}

impl ReportLine {
    /// A line is well formed when its first timestamp is not above its last
    /// and its protocol labels are distinct.
    pub open spec fn wf(self) -> bool {
        &&& !lex_lt(self.timestamp_last@, self.timestamp_first@)
        &&& protocols_view(self.protocols).no_duplicates()
    }

    /// How one packet merges into a line: endpoints stay, the protocol label
    /// is appended if new, the byte total grows by the packet length
    /// (saturating at `u32::MAX`), the last timestamp moves up to the
    /// packet's when that is later, otherwise the first moves down to it
    /// when it is earlier.
    pub open spec fn merges(pre: ReportLine, post: ReportLine, p: Packet) -> bool {
        &&& post.source_optional_port@ == pre.source_optional_port@
        &&& post.destination_optional_port@ == pre.destination_optional_port@
        &&& protocols_view(post.protocols) == merged_protocols(
            protocols_view(pre.protocols),
            p.protocol@,
        )
        &&& post.bytes_total as int == (if pre.bytes_total + p.length <= u32::MAX {
            pre.bytes_total + p.length
        } else {
            u32::MAX as int
        })
        &&& post.timestamp_last@ == lex_max(pre.timestamp_last@, p.timestamp@)
        &&& post.timestamp_first@ == (if !lex_lt(pre.timestamp_last@, p.timestamp@) && lex_lt(
            p.timestamp@,
            pre.timestamp_first@,
        ) {
            p.timestamp@
        } else {
            pre.timestamp_first@
        })
    }

    /// Builds an empty line.
    pub fn new() -> (r: ReportLine)
        ensures
            r.timestamp_first@ == Seq::<char>::empty(),
            r.timestamp_last@ == Seq::<char>::empty(),
            r.source_optional_port@ == Seq::<char>::empty(),
            r.destination_optional_port@ == Seq::<char>::empty(),
            r.protocols@ == Seq::<String>::empty(),
            r.bytes_total == 0,
    {
        ReportLine {
            timestamp_first: String::new(),
            timestamp_last: String::new(),
            source_optional_port: String::new(),
            destination_optional_port: String::new(),
            protocols: Vec::new(),
            bytes_total: 0,
        }
    }

    /// Sets the first timestamp.
    pub fn set_timestamp_first(&mut self, timestamp_first: String)
        ensures
            *final(self) == (ReportLine { timestamp_first, ..*old(self) }),
    {
        self.timestamp_first = timestamp_first;
    }

    /// Sets the last timestamp.
    pub fn set_timestamp_last(&mut self, timestamp_last: String)
        ensures
            *final(self) == (ReportLine { timestamp_last, ..*old(self) }),
    {
        self.timestamp_last = timestamp_last;
    }

    /// Sets the first endpoint identifier.
    pub fn set_source_optional_port(&mut self, source_optional_port: String)
        ensures
            *final(self) == (ReportLine { source_optional_port, ..*old(self) }),
    {
        self.source_optional_port = source_optional_port;
    }

    /// Sets the second endpoint identifier.
    pub fn set_destination_optional_port(&mut self, destination_optional_port: String)
        ensures
            *final(self) == (ReportLine { destination_optional_port, ..*old(self) }),
    {
        self.destination_optional_port = destination_optional_port;
    }

    /// Appends a protocol label unconditionally; used when a line is first
    /// populated.
    pub fn add_protocol(&mut self, protocol: String)
        ensures
            final(self).protocols@ == old(self).protocols@.push(protocol),
            *final(self) == (ReportLine { protocols: final(self).protocols, ..*old(self) }),
    {
        self.protocols.push(protocol);
    }

    /// Sets the byte total.
    pub fn set_bytes_total(&mut self, bytes_total: u32)
        ensures
            *final(self) == (ReportLine { bytes_total, ..*old(self) }),
    {
        self.bytes_total = bytes_total;
    }

    /// Whether the protocol label is already recorded on this line.
    fn contains_protocol(&self, q: &String) -> (r: bool)
        ensures
            r == protocols_view(self.protocols).contains(q@),
    {
        let n = self.protocols.len();
        let mut i: usize = 0;
        while i < n
            invariant
                i <= n,
                n == self.protocols@.len(),
                forall|j: int| 0 <= j < i ==> protocols_view(self.protocols)[j] != q@,
            decreases n - i,
        {
            if self.protocols[i].eq(q) {
                proof {
                    assert(protocols_view(self.protocols)[i as int] == q@);
                }
                return true;
            }
            i = i + 1;
        }
        false
    }

    /// Merges one packet of the line's conversation into the line.
    pub fn add_packet(&mut self, packet: Packet)
        ensures
            ReportLine::merges(*old(self), *final(self), packet),
    {
        if !self.contains_protocol(&packet.protocol) {
            let ghost pre = self.protocols;
            self.protocols.push(packet.protocol.clone());
            proof {
                assert(protocols_view(self.protocols) =~= protocols_view(pre).push(
                    packet.protocol@,
                ));
            }
        }
        self.bytes_total = self.bytes_total.saturating_add(packet.length);
        if str_lt(self.timestamp_last.as_str(), packet.timestamp.as_str()) {
            self.timestamp_last = packet.timestamp.clone();
        } else if str_lt(packet.timestamp.as_str(), self.timestamp_first.as_str()) {
            self.timestamp_first = packet.timestamp.clone();
        }
    }

    /// The line rendered in the plain space-separated form: both timestamps,
    /// both endpoints, every protocol followed by a comma and a space, and
    /// the byte total.
    pub open spec fn line_chars(self) -> Seq<char> {
        self.timestamp_first@ + seq![' '] + self.timestamp_last@ + seq![' ']
            + self.source_optional_port@ + seq![' '] + self.destination_optional_port@
            + seq![' '] + trailed_protocols(protocols_view(self.protocols)) + crate::text::dec_chars(
            self.bytes_total as nat,
        )
    }

    /// Renders the line in the plain space-separated form.
    pub fn to_string(&self) -> (s: String)
        ensures
            s@ == self.line_chars(),
    {
        proof {
            reveal_strlit(" ");
            reveal_strlit(", ");
            assert(" "@ =~= seq![' ']);
            assert(", "@ =~= seq![',', ' ']);
        }
        let mut s = String::new();
        s.append(self.timestamp_first.as_str());
        s.append(" ");
        s.append(self.timestamp_last.as_str());
        s.append(" ");
        s.append(self.source_optional_port.as_str());
        s.append(" ");
        s.append(self.destination_optional_port.as_str());
        s.append(" ");
        let n = self.protocols.len();
        let mut i: usize = 0;
        let ghost prefix = s@;
        proof {
            assert(protocols_view(self.protocols).take(0) =~= Seq::<Seq<char>>::empty());
            assert(s@ =~= prefix + trailed_protocols(protocols_view(self.protocols).take(0)));
        }
        while i < n
            invariant
                i <= n,
                n == self.protocols@.len(),
                s@ == prefix + trailed_protocols(protocols_view(self.protocols).take(i as int)),
            decreases n - i,
        {
            s.append(self.protocols[i].as_str());
            s.append(", ");
            proof {
                reveal_strlit(", ");
                assert(", "@ =~= seq![',', ' ']);
                let ps = protocols_view(self.protocols);
                assert(ps.take(i as int + 1) =~= ps.take(i as int).push(ps[i as int]));
                lemma_trailed_protocols_push(ps.take(i as int), ps[i as int]);
                assert(ps[i as int] == self.protocols@[i as int]@);
                assert(s@ =~= prefix + trailed_protocols(ps.take(i as int + 1)));
            }
            i = i + 1;
        }
        let total = u64_to_dec(self.bytes_total as u64);
        s.append(total.as_str());
        proof {
            assert(protocols_view(self.protocols).take(n as int) =~= protocols_view(
                self.protocols,
            ));
            assert(s@ =~= self.line_chars());
        }
        s
    }
}

/// Every protocol label followed by `", "`, concatenated in order.
pub open spec fn trailed_protocols(ps: Seq<Seq<char>>) -> Seq<char>
    decreases ps.len(),
{
    if ps.len() == 0 {
        seq![]
    } else {
        trailed_protocols(ps.drop_last()) + ps.last() + seq![',', ' ']
    }
}

proof fn lemma_trailed_protocols_push(ps: Seq<Seq<char>>, q: Seq<char>)
    ensures
        trailed_protocols(ps.push(q)) == trailed_protocols(ps) + q + seq![',', ' '],
{
    assert(ps.push(q).drop_last() =~= ps);
    assert(ps.push(q).last() == q);
}

impl Default for ReportLine {
    /// An empty line: empty strings, no protocols, zero bytes.
    fn default() -> (r: ReportLine)
        ensures
            r.timestamp_first@ == Seq::<char>::empty(),
            r.timestamp_last@ == Seq::<char>::empty(),
            r.source_optional_port@ == Seq::<char>::empty(),
            r.destination_optional_port@ == Seq::<char>::empty(),
            r.protocols@ == Seq::<String>::empty(),
            r.bytes_total == 0,
    {
        ReportLine::new()
    }
}

/// Merging preserves well-formedness, and when the line was well formed the
/// timestamps land exactly on the earliest and latest value observed.
pub proof fn lemma_merge_preserves_wf(pre: ReportLine, post: ReportLine, p: Packet)
    requires
        pre.wf(),
        ReportLine::merges(pre, post, p),
    ensures
        post.wf(),
        post.timestamp_first@ == lex_min(pre.timestamp_first@, p.timestamp@),
        post.timestamp_last@ == lex_max(pre.timestamp_last@, p.timestamp@),
{
    let t = p.timestamp@;
    let first = pre.timestamp_first@;
    let last = pre.timestamp_last@;
    if lex_lt(last, t) {
        // The last timestamp moves up; the first cannot also lie above `t`.
        if lex_lt(t, first) {
            lemma_lex_lt_transitive(last, t, first);
            assert(false);
        }
        lemma_lex_lt_total(first, t);
        lemma_lex_lt_asymmetric(first, t);
    } else {
        lemma_lex_lt_asymmetric(t, first);
    }
    let ps = protocols_view(pre.protocols);
    if !ps.contains(p.protocol@) {
        assert forall|i: int, j: int|
            0 <= i < j < ps.push(p.protocol@).len() implies ps.push(p.protocol@)[i] != ps.push(
            p.protocol@,
        )[j] by {
            if j < ps.len() {
                assert(ps[i] != ps[j]);
            } else {
                assert(ps.push(p.protocol@)[j] == p.protocol@);
                assert(!ps.contains(ps[i]) ==> false);
            }
        }
    }
}

/// The protocol set of a line never contains duplicates, and a merge
/// preserves first-seen order: the labels already recorded stay, in order,
/// as a prefix of the merged list, and the merged list contains the packet's
/// label.
pub proof fn lemma_protocols_distinct_first_seen(pre: ReportLine, post: ReportLine, p: Packet)
    requires
        pre.wf(),
        ReportLine::merges(pre, post, p),
    ensures
        protocols_view(post.protocols).no_duplicates(),
        protocols_view(post.protocols).take(protocols_view(pre.protocols).len() as int)
            == protocols_view(pre.protocols),
        protocols_view(post.protocols).contains(p.protocol@),
{
    lemma_merge_preserves_wf(pre, post, p);
    let ps = protocols_view(pre.protocols);
    let qs = protocols_view(post.protocols);
    assert(qs.take(ps.len() as int) =~= ps);
    if ps.contains(p.protocol@) {
    } else {
        assert(qs[ps.len() as int] == p.protocol@);
        assert(qs.contains(p.protocol@));
    }
}

/// The packet lengths summed, as an unbounded integer.
pub open spec fn sum_lengths(ps: Seq<Packet>) -> int
    decreases ps.len(),
{
    if ps.len() == 0 {
        0
    } else {
        sum_lengths(ps.drop_last()) + ps.last().length
    }
}

pub proof fn lemma_sum_lengths_nonneg(ps: Seq<Packet>)
    ensures
        sum_lengths(ps) >= 0,
    decreases ps.len(),
{
    if ps.len() > 0 {
        lemma_sum_lengths_nonneg(ps.drop_last());
    }
}

/// After merging packets with lengths `L1..Ln` into one line, the byte total
/// is the exact sum `L1 + ... + Ln` over the starting total, provided that
/// sum does not exceed `u32::MAX`; beyond that bound each merge saturates.
/// The states `s0..sn` are the line after each successive merge.
pub proof fn lemma_bytes_total_is_exact_sum(states: Seq<ReportLine>, packets: Seq<Packet>)
    requires
        states.len() == packets.len() + 1,
        forall|i: int|
            0 <= i < packets.len() ==> ReportLine::merges(
                states[i],
                #[trigger] states[i + 1],
                packets[i],
            ),
        states[0].bytes_total + sum_lengths(packets) <= u32::MAX,
    ensures
        states.last().bytes_total == states[0].bytes_total + sum_lengths(packets),
    decreases packets.len(),
{
    if packets.len() > 0 {
        let n = packets.len() as int;
        let shorter = states.drop_last();
        lemma_sum_lengths_nonneg(packets.drop_last());
        assert(sum_lengths(packets) == sum_lengths(packets.drop_last()) + packets.last().length);
        assert forall|i: int| 0 <= i < n - 1 implies ReportLine::merges(
            shorter[i],
            #[trigger] shorter[i + 1],
            packets.drop_last()[i],
        ) by {
            assert(shorter[i] == states[i]);
            assert(shorter[i + 1] == states[i + 1]);
            assert(packets.drop_last()[i] == packets[i]);
        }
        lemma_bytes_total_is_exact_sum(shorter, packets.drop_last());
        assert(shorter.last() == states[n - 1]);
        assert(ReportLine::merges(states[n - 1], states[n], packets[n - 1]));
        assert(packets[n - 1] == packets.last());
    }
}

// ---------------------------------------------------------------------------
// The report
// ---------------------------------------------------------------------------

/// The aggregated conversations of a capture session.
#[derive(Debug, Clone)]
pub struct Report {
    pub report_lines: Vec<ReportLine>,
}

/// The conversation key stored on a line.
pub open spec fn line_key(l: ReportLine) -> (Seq<char>, Seq<char>) {
    (l.source_optional_port@, l.destination_optional_port@)
}

/// The index of the first line carrying key `k`, or `-1` when no line does.
pub open spec fn find_key(lines: Seq<ReportLine>, k: (Seq<char>, Seq<char>)) -> int
    decreases lines.len(),
{
    if lines.len() == 0 {
        -1
    } else if line_key(lines[0]) == k {
        0
    } else if find_key(lines.drop_first(), k) < 0 {
        -1
    } else {
        find_key(lines.drop_first(), k) + 1
    }
}

pub proof fn lemma_find_key_properties(lines: Seq<ReportLine>, k: (Seq<char>, Seq<char>))
    ensures
        find_key(lines, k) < 0 ==> forall|i: int|
            0 <= i < lines.len() ==> line_key(#[trigger] lines[i]) != k,
        find_key(lines, k) >= 0 ==> find_key(lines, k) < lines.len() && line_key(
            lines[find_key(lines, k)],
        ) == k,
    decreases lines.len(),
{
    if lines.len() > 0 && line_key(lines[0]) != k {
        lemma_find_key_properties(lines.drop_first(), k);
        let r = find_key(lines.drop_first(), k);
        if r < 0 {
            assert forall|i: int| 0 <= i < lines.len() implies line_key(#[trigger] lines[i]) != k by {
                if i > 0 {
                    assert(lines[i] == lines.drop_first()[i - 1]);
                }
            }
        } else {
            assert(lines[r + 1] == lines.drop_first()[r]);
        }
    }
}

pub proof fn lemma_find_key_first(lines: Seq<ReportLine>, k: (Seq<char>, Seq<char>), i: int)
    requires
        0 <= i < lines.len(),
        line_key(lines[i]) == k,
        forall|j: int| 0 <= j < i ==> line_key(#[trigger] lines[j]) != k,
    ensures
        find_key(lines, k) == i,
    decreases lines.len(),
{
    if i > 0 {
        assert(line_key(lines[0]) != k);
        assert(lines.drop_first()[i - 1] == lines[i]);
        assert forall|j: int| 0 <= j < i - 1 implies line_key(
            #[trigger] lines.drop_first()[j],
        ) != k by {
            assert(lines.drop_first()[j] == lines[j + 1]);
        }
        lemma_find_key_first(lines.drop_first(), k, i - 1);
    }
}

pub proof fn lemma_find_key_none(lines: Seq<ReportLine>, k: (Seq<char>, Seq<char>))
    requires
        forall|j: int| 0 <= j < lines.len() ==> line_key(#[trigger] lines[j]) != k,
    ensures
        find_key(lines, k) == -1,
    decreases lines.len(),
{
    if lines.len() > 0 {
        assert forall|j: int| 0 <= j < lines.drop_first().len() implies line_key(
            #[trigger] lines.drop_first()[j],
        ) != k by {
            assert(lines.drop_first()[j] == lines[j + 1]);
        }
        lemma_find_key_none(lines.drop_first(), k);
    }
}

/// A fresh line created for packet `p`: both timestamps are the packet's,
/// the endpoints are the canonical key, the protocol list holds exactly the
/// packet's label, and the byte total is the packet's length.
pub open spec fn is_new_line_for(l: ReportLine, p: Packet) -> bool {
    &&& l.timestamp_first@ == p.timestamp@
    &&& l.timestamp_last@ == p.timestamp@
    &&& l.source_optional_port@ == packet_key(p).0
    &&& l.destination_optional_port@ == packet_key(p).1
    &&& protocols_view(l.protocols) == seq![p.protocol@]
    &&& l.bytes_total == p.length
}

impl Report {
    /// The report is well formed when every line is, every line's endpoints
    /// are in canonical order, and no two lines share a key.
    pub open spec fn wf(self) -> bool {
        &&& forall|i: int, j: int|
            0 <= i < j < self.report_lines@.len() ==> line_key(#[trigger] self.report_lines@[i])
                != line_key(#[trigger] self.report_lines@[j])
        &&& forall|i: int|
            0 <= i < self.report_lines@.len() ==> (#[trigger] self.report_lines@[i]).wf()
                && !lex_lt(
                self.report_lines@[i].destination_optional_port@,
                self.report_lines@[i].source_optional_port@,
            )
    }

    /// Builds an empty report.
    pub fn new() -> (r: Report)
        ensures
            r.report_lines@ == Seq::<ReportLine>::empty(),
            r.wf(),
    {
        Report { report_lines: Vec::new() }
    }

    /// The mutable line collection. Callers that mutate it are responsible
    /// for keeping the report well formed.
    pub fn get_report_lines(&mut self) -> (r: &mut Vec<ReportLine>)
        ensures
            *r == old(self).report_lines,
            *final(self) == (Report { report_lines: *final(r) }),
    {
        &mut self.report_lines
    }

    /// The index of the line carrying the canonical key `(a, b)`, if any.
    fn find_line(&self, a: &String, b: &String) -> (r: Option<usize>)
        ensures
            match r {
                Some(i) => i < self.report_lines@.len() && line_key(self.report_lines@[i as int])
                    == (a@, b@) && forall|j: int|
                    0 <= j < i ==> line_key(#[trigger] self.report_lines@[j]) != (a@, b@),
                None => forall|j: int|
                    0 <= j < self.report_lines@.len() ==> line_key(#[trigger] self.report_lines@[j])
                        != (a@, b@),
            },
    {
        let n = self.report_lines.len();
        let mut i: usize = 0;
        while i < n
            invariant
                i <= n,
                n == self.report_lines@.len(),
                forall|j: int| 0 <= j < i ==> line_key(#[trigger] self.report_lines@[j]) != (a@, b@),
            decreases n - i,
        {
            let line = &self.report_lines[i];
            if line.source_optional_port.eq(a) && line.destination_optional_port.eq(b) {
                return Some(i);
            }
            i = i + 1;
        }
        None
    }

    /// How one packet routes into a report: the line carrying the packet's
    /// canonical key is merged with the packet, every other line stays, and
    /// a fresh line is appended when no line carries that key yet.
    pub open spec fn routes(pre: Report, post: Report, p: Packet) -> bool {
        let k = packet_key(p);
        let i = find_key(pre.report_lines@, k);
        if i < 0 {
            &&& post.report_lines@.len() == pre.report_lines@.len() + 1
            &&& post.report_lines@.drop_last() == pre.report_lines@
            &&& is_new_line_for(post.report_lines@.last(), p)
        } else {
            &&& post.report_lines@.len() == pre.report_lines@.len()
            &&& (forall|j: int|
                0 <= j < pre.report_lines@.len() && j != i ==> post.report_lines@[j]
                    == pre.report_lines@[j])
            &&& ReportLine::merges(pre.report_lines@[i], post.report_lines@[i], p)
        }
    }

    /// Routes one packet into the report: the line carrying the packet's
    /// canonical conversation key is merged with the packet, and a fresh
    /// line is appended when no line carries that key yet.
    pub fn add_packet(&mut self, packet: Packet)
        requires
            old(self).wf(),
        ensures
            final(self).wf(),
            Report::routes(*old(self), *final(self), packet),
    {
        let addr1 = endpoint_string(&packet.source, &packet.source_port);
        let addr2 = endpoint_string(&packet.destination, &packet.destination_port);
        let ghost k = packet_key(packet);
        let (a, b) = if str_lt(addr2.as_str(), addr1.as_str()) {
            (addr2, addr1)
        } else {
            (addr1, addr2)
        };
        proof {
            assert((a@, b@) == k);
        }
        match self.find_line(&a, &b) {
            Some(i) => {
                proof {
                    lemma_find_key_first(self.report_lines@, k, i as int);
                }
                let ghost pre_lines = self.report_lines@;
                let line = line_at_mut(&mut self.report_lines, i);
                line.add_packet(packet);
                proof {
                    assert(ReportLine::merges(pre_lines[i as int], self.report_lines@[i as int], packet));
                    lemma_merge_preserves_wf(
                        pre_lines[i as int],
                        self.report_lines@[i as int],
                        packet,
                    );
                    assert(self.wf());
                }
            },
            None => {
                proof {
                    lemma_find_key_none(self.report_lines@, k);
                    lemma_lex_lt_asymmetric(addr1@, addr2@);
                    lemma_lex_lt_asymmetric(packet.timestamp@, packet.timestamp@);
                }
                let mut protocols: Vec<String> = Vec::new();
                protocols.push(packet.protocol.clone());
                let line = ReportLine {
                    timestamp_first: packet.timestamp.clone(),
                    timestamp_last: packet.timestamp.clone(),
                    source_optional_port: a,
                    destination_optional_port: b,
                    protocols,
                    bytes_total: packet.length,
                };
                proof {
                    assert(protocols_view(line.protocols) =~= seq![packet.protocol@]);
                    assert(line.wf());
                }
                let ghost pre_lines = self.report_lines@;
                self.report_lines.push(line);
                proof {
                    assert(self.report_lines@.drop_last() =~= pre_lines);
                    assert(self.wf());
                }
            },
        }
    }
}

/// A mutable reference to one line of the collection.
fn line_at_mut(v: &mut Vec<ReportLine>, i: usize) -> (line: &mut ReportLine)
    requires
        i < old(v)@.len(),
    ensures
        *line == old(v)@[i as int],
        final(v)@ == old(v)@.update(i as int, *final(line)),
{
    &mut v[i]
}

impl Default for Report {
    /// An empty report.
    fn default() -> (r: Report)
        ensures
            r.report_lines@ == Seq::<ReportLine>::empty(),
            r.wf(),
    {
        Report::new()
    }
}

} // verus!
