//! The tabular snapshot of a report, built on prettytable.
//!
//! prettytable owns the cells, rows and tables and the column-aligned
//! rendering; this module declares those types, names their contents, and
//! proves that the snapshot holds exactly the header row followed by one row
//! per report line. The embedding program renders the returned table and
//! writes it to the configured output path.

use vstd::prelude::*;
use crate::report::{protocols_view, Report, ReportLine};
use crate::text::{
    dec_chars, lemma_dec_chars_line_free, lemma_line_free_concat, line_free, str_line_free,
    u64_to_dec,
};

verus! {

#[verifier::external_type_specification]
#[verifier::external_body]
pub struct ExCell(prettytable::Cell);

#[verifier::external_type_specification]
#[verifier::external_body]
pub struct ExRow(prettytable::Row);

#[verifier::external_type_specification]
#[verifier::external_body]
pub struct ExTable(prettytable::Table);

/// The text a table cell holds.
pub uninterp spec fn cell_text(c: prettytable::Cell) -> Seq<char>;

/// The cell texts of a row, in order.
pub uninterp spec fn row_cells(r: prettytable::Row) -> Seq<Seq<char>>;

/// The rows a table holds, in insertion order, each as its cell texts.
pub uninterp spec fn table_rows(t: prettytable::Table) -> Seq<Seq<Seq<char>>>;

/// Relies on `prettytable::Cell::new`: a cell holding the given text.
/// `Cell::new` splits its argument on line breaks into content lines, so a
/// cell holds the text whole only when the text carries no line break; the
/// precondition keeps such texts out.
#[verifier::external_body]
pub(crate) fn cell_new(text: &str) -> (c: prettytable::Cell)
    requires
        line_free(text@),
    ensures
        cell_text(c) == text@,
{
    prettytable::Cell::new(text)
}

/// Relies on `prettytable::Row::new`: a row of the given cells, in order.
#[verifier::external_body]
pub(crate) fn row_new(cells: Vec<prettytable::Cell>) -> (r: prettytable::Row)
    ensures
        row_cells(r) == cells@.map_values(|c: prettytable::Cell| cell_text(c)),
{
    prettytable::Row::new(cells)
}

/// Relies on `prettytable::Table::new`: an empty table.
#[verifier::external_body]
pub(crate) fn table_new() -> (t: prettytable::Table)
    ensures
        table_rows(t) == Seq::<Seq<Seq<char>>>::empty(),
{
    prettytable::Table::new()
}

/// Relies on `prettytable::Table::add_row`: appends the row at the end.
#[verifier::external_body]
pub(crate) fn table_add_row(t: &mut prettytable::Table, row: prettytable::Row)
    ensures
        table_rows(*final(t)) == table_rows(*old(t)).push(row_cells(row)),
{
    t.add_row(row);
}

/// The fixed header row of a report snapshot.
pub open spec fn header_row() -> Seq<Seq<char>> {
    seq![
        "First Timestamp"@,
        "Last Timestamp"@,
        "Address 1"@,
        "Address 2"@,
        "Protocols"@,
        "Bytes Total"@,
    ]
}

/// The comma-joined concatenation of the protocol labels.
pub open spec fn comma_join(ps: Seq<Seq<char>>) -> Seq<char>
    decreases ps.len(),
{
    if ps.len() == 0 {
        seq![]
    } else if ps.len() == 1 {
        ps[0]
    } else {
        comma_join(ps.drop_last()) + seq![','] + ps.last()
    }
}

proof fn lemma_comma_join_push(ps: Seq<Seq<char>>, q: Seq<char>)
    ensures
        comma_join(ps.push(q)) == (if ps.len() == 0 {
            q
        } else {
            comma_join(ps) + seq![','] + q
        }),
{
    assert(ps.push(q).drop_last() =~= ps);
    assert(ps.push(q).last() == q);
    if ps.len() == 0 {
        assert(ps.push(q)[0] == q);
    }
}

/// A comma join of line-break-free labels is line-break-free.
pub proof fn lemma_comma_join_line_free(ps: Seq<Seq<char>>)
    requires
        forall|i: int| 0 <= i < ps.len() ==> line_free(#[trigger] ps[i]),
    ensures
        line_free(comma_join(ps)),
    decreases ps.len(),
{
    if ps.len() > 1 {
        assert forall|i: int| 0 <= i < ps.drop_last().len() implies line_free(
            #[trigger] ps.drop_last()[i],
        ) by {
            assert(ps.drop_last()[i] == ps[i]);
        }
        lemma_comma_join_line_free(ps.drop_last());
        assert(line_free(seq![',']));
        lemma_line_free_concat(comma_join(ps.drop_last()), seq![',']);
        lemma_line_free_concat(comma_join(ps.drop_last()) + seq![','], ps.last());
    }
}

/// Whether every text of one line can stand whole in a table cell: no field
/// and no protocol label carries a line break.
pub open spec fn line_cell_safe(l: ReportLine) -> bool {
    &&& line_free(l.timestamp_first@)
    &&& line_free(l.timestamp_last@)
    &&& line_free(l.source_optional_port@)
    &&& line_free(l.destination_optional_port@)
    &&& forall|i: int|
        0 <= i < protocols_view(l.protocols).len() ==> line_free(
            #[trigger] protocols_view(l.protocols)[i],
        )
}

/// Decides `line_cell_safe` executably.
fn line_cell_ready(l: &ReportLine) -> (r: bool)
    ensures
        r == line_cell_safe(*l),
{
    if !str_line_free(l.timestamp_first.as_str()) {
        return false;
    }
    if !str_line_free(l.timestamp_last.as_str()) {
        return false;
    }
    if !str_line_free(l.source_optional_port.as_str()) {
        return false;
    }
    if !str_line_free(l.destination_optional_port.as_str()) {
        return false;
    }
    let n = l.protocols.len();
    let mut i: usize = 0;
    while i < n
        invariant
            i <= n,
            n == l.protocols@.len(),
            forall|j: int| 0 <= j < i ==> line_free(#[trigger] protocols_view(l.protocols)[j]),
        decreases n - i,
    {
        if !str_line_free(l.protocols[i].as_str()) {
            proof {
                assert(!line_free(protocols_view(l.protocols)[i as int]));
            }
            return false;
        }
        proof {
            assert(line_free(protocols_view(l.protocols)[i as int]));
        }
        i = i + 1;
    }
    true
}

/// Joins the protocol labels of a line with commas.
pub fn join_protocols(v: &Vec<String>) -> (s: String)
    ensures
        s@ == comma_join(protocols_view(*v)),
{
    let mut s = String::new();
    let n = v.len();
    let mut i: usize = 0;
    proof {
        assert(protocols_view(*v).take(0) =~= Seq::<Seq<char>>::empty());
    }
    while i < n
        invariant
            i <= n,
            n == v@.len(),
            s@ == comma_join(protocols_view(*v).take(i as int)),
        decreases n - i,
    {
        if i > 0 {
            crate::text::push_char(&mut s, ',');
        }
        s.append(v[i].as_str());
        proof {
            let ps = protocols_view(*v);
            assert(ps.take(i as int + 1) =~= ps.take(i as int).push(ps[i as int]));
            lemma_comma_join_push(ps.take(i as int), ps[i as int]);
            assert(ps[i as int] == v@[i as int]@);
            assert(s@ =~= comma_join(ps.take(i as int + 1)));
        }
        i = i + 1;
    }
    proof {
        assert(protocols_view(*v).take(n as int) =~= protocols_view(*v));
    }
    s
}

/// The snapshot row of one report line: both timestamps, both endpoints, the
/// comma-joined protocols, and the decimal byte total.
pub open spec fn line_row(l: ReportLine) -> Seq<Seq<char>> {
    seq![
        l.timestamp_first@,
        l.timestamp_last@,
        l.source_optional_port@,
        l.destination_optional_port@,
        comma_join(protocols_view(l.protocols)),
        dec_chars(l.bytes_total as nat),
    ]
}

impl Report {
    /// Whether every text of the report can stand whole in a table cell.
    /// The dissector never produces a line break, so reports built from
    /// dissected frames always satisfy this.
    pub open spec fn snapshot_text_ok(self) -> bool {
        forall|i: int|
            0 <= i < self.report_lines@.len() ==> line_cell_safe(#[trigger] self.report_lines@[i])
    }

    /// Decides `snapshot_text_ok` executably, so a caller can test the
    /// snapshot's precondition on a report whose history it does not know.
    pub fn snapshot_text_ready(&self) -> (r: bool)
        ensures
            r == self.snapshot_text_ok(),
    {
        let n = self.report_lines.len();
        let mut i: usize = 0;
        while i < n
            invariant
                i <= n,
                n == self.report_lines@.len(),
                forall|j: int| 0 <= j < i ==> line_cell_safe(#[trigger] self.report_lines@[j]),
            decreases n - i,
        {
            if !line_cell_ready(&self.report_lines[i]) {
                return false;
            }
            i = i + 1;
        }
        true
    }

    /// A point-in-time snapshot of the report as a table: the fixed header
    /// row, then one row per conversation line, in the report's order. The
    /// caller renders and writes it; merges may continue afterwards. The
    /// texts must be line-break-free, since a table cell cannot carry a
    /// line break whole; [`Report::snapshot_text_ready`] decides that.
    pub fn to_formatted_table(&self) -> (t: prettytable::Table)
        requires
            self.snapshot_text_ok(),
        ensures
            table_rows(t) == seq![header_row()] + self.report_lines@.map_values(
                |l: ReportLine| line_row(l),
            ),
    {
        let mut t = table_new();
        proof {
            reveal_strlit("First Timestamp");
            reveal_strlit("Last Timestamp");
            reveal_strlit("Address 1");
            reveal_strlit("Address 2");
            reveal_strlit("Protocols");
            reveal_strlit("Bytes Total");
            assert(line_free("First Timestamp"@));
            assert(line_free("Last Timestamp"@));
            assert(line_free("Address 1"@));
            assert(line_free("Address 2"@));
            assert(line_free("Protocols"@));
            assert(line_free("Bytes Total"@));
        }
        let mut header: Vec<prettytable::Cell> = Vec::new();
        header.push(cell_new("First Timestamp"));
        header.push(cell_new("Last Timestamp"));
        header.push(cell_new("Address 1"));
        header.push(cell_new("Address 2"));
        header.push(cell_new("Protocols"));
        header.push(cell_new("Bytes Total"));
        let header_cells = row_new(header);
        proof {
            assert(row_cells(header_cells) =~~= header_row());
        }
        table_add_row(&mut t, header_cells);
        let n = self.report_lines.len();
        let mut i: usize = 0;
        proof {
            assert(table_rows(t) =~~= seq![header_row()] + self.report_lines@.take(0).map_values(
                |l: ReportLine| line_row(l),
            ));
        }
        while i < n
            invariant
                i <= n,
                n == self.report_lines@.len(),
                self.snapshot_text_ok(),
                table_rows(t) == seq![header_row()] + self.report_lines@.take(i as int).map_values(
                    |l: ReportLine| line_row(l),
                ),
            decreases n - i,
        {
            let line = &self.report_lines[i];
            proof {
                assert(line_cell_safe(self.report_lines@[i as int]));
                lemma_comma_join_line_free(protocols_view(line.protocols));
                lemma_dec_chars_line_free(line.bytes_total as nat);
            }
            let mut cells: Vec<prettytable::Cell> = Vec::new();
            cells.push(cell_new(line.timestamp_first.as_str()));
            cells.push(cell_new(line.timestamp_last.as_str()));
            cells.push(cell_new(line.source_optional_port.as_str()));
            cells.push(cell_new(line.destination_optional_port.as_str()));
            let joined = join_protocols(&line.protocols);
            cells.push(cell_new(joined.as_str()));
            let total = u64_to_dec(line.bytes_total as u64);
            cells.push(cell_new(total.as_str()));
            let row = row_new(cells);
            proof {
                assert(row_cells(row) =~~= line_row(self.report_lines@[i as int]));
            }
            table_add_row(&mut t, row);
            proof {
                let lines = self.report_lines@;
                let f = |l: ReportLine| line_row(l);
                assert(lines.take(i as int + 1) =~= lines.take(i as int).push(lines[i as int]));
                assert(lines.take(i as int).push(lines[i as int]).map_values(f) =~~= lines.take(
                    i as int,
                ).map_values(f).push(f(lines[i as int])));
                assert(table_rows(t) =~~= seq![header_row()] + lines.take(i as int + 1).map_values(
                    f,
                ));
            }
            i = i + 1;
        }
        proof {
            assert(self.report_lines@.take(n as int) =~= self.report_lines@);
        }
        t
    }
}

} // verus!
