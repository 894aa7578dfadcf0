//! Character-sequence utilities shared by the whole crate: lexicographic
//! ordering of strings (used to canonicalize conversation keys and to compare
//! timestamp strings), and rendering of numbers as decimal or grouped
//! upper-case hexadecimal text.

use vstd::prelude::*;
use vstd::string::StrSliceExecFns;
use vstd::string::StringExecFns;

verus! {

// ---------------------------------------------------------------------------
// Lexicographic order on character sequences
// ---------------------------------------------------------------------------

/// Strict lexicographic order on character sequences, by Unicode scalar value,
/// with a proper prefix ordered before its extensions. This is the order that
/// the report uses for conversation keys and timestamp strings.
pub open spec fn lex_lt(a: Seq<char>, b: Seq<char>) -> bool
    decreases a.len(),
{
    if b.len() == 0 {
        false
    } else if a.len() == 0 {
        true
    } else if (a[0] as u32) < (b[0] as u32) {
        true
    } else if a[0] == b[0] {
        lex_lt(a.drop_first(), b.drop_first())
    } else {
        false
    }
}

/// The lexicographically smaller of two character sequences.
pub open spec fn lex_min(a: Seq<char>, b: Seq<char>) -> Seq<char> {
    if lex_lt(b, a) {
        b
    } else {
        a
    }
}

/// The lexicographically larger of two character sequences.
pub open spec fn lex_max(a: Seq<char>, b: Seq<char>) -> Seq<char> {
    if lex_lt(a, b) {
        b
    } else {
        a
    }
}

/// `lex_lt` is asymmetric: two sequences are never each below the other.
pub proof fn lemma_lex_lt_asymmetric(a: Seq<char>, b: Seq<char>)
    ensures
        !(lex_lt(a, b) && lex_lt(b, a)),
    decreases a.len(),
{
    if a.len() > 0 && b.len() > 0 && a[0] == b[0] {
        lemma_lex_lt_asymmetric(a.drop_first(), b.drop_first());
    }
}

/// `lex_lt` is total: any two sequences are ordered or equal.
pub proof fn lemma_lex_lt_total(a: Seq<char>, b: Seq<char>)
    ensures
        lex_lt(a, b) || lex_lt(b, a) || a == b,
    decreases a.len(),
{
    if a.len() == 0 && b.len() == 0 {
        assert(a =~= b);
    } else if a.len() > 0 && b.len() > 0 {
        if a[0] == b[0] {
            lemma_lex_lt_total(a.drop_first(), b.drop_first());
            if lex_lt(a.drop_first(), b.drop_first()) {
                assert(lex_lt(a, b));
            } else if lex_lt(b.drop_first(), a.drop_first()) {
                assert(lex_lt(b, a));
            } else {
                assert(a.drop_first() =~= b.drop_first());
                assert forall|i: int| 0 <= i < a.len() implies a[i] == b[i] by {
                    if i > 0 {
                        assert(a[i] == a.drop_first()[i - 1]);
                        assert(b[i] == b.drop_first()[i - 1]);
                    }
                }
                assert(a =~= b);
            }
        } else {
            vstd::utf8::char_u32_cast(a[0], a[0] as u32);
            vstd::utf8::char_u32_cast(b[0], b[0] as u32);
            assert((a[0] as u32) != (b[0] as u32));
        }
    }
}

/// `lex_lt` is transitive.
pub proof fn lemma_lex_lt_transitive(a: Seq<char>, b: Seq<char>, c: Seq<char>)
    requires
        lex_lt(a, b),
        lex_lt(b, c),
    ensures
        lex_lt(a, c),
    decreases a.len(),
{
    if a.len() > 0 && b.len() > 0 && c.len() > 0 && a[0] == b[0] && b[0] == c[0] {
        lemma_lex_lt_transitive(a.drop_first(), b.drop_first(), c.drop_first());
    }
}

/// Relies on `String::push`: appends exactly one character at the end.
#[verifier::external_body]
pub(crate) fn push_char(s: &mut String, c: char)
    ensures
        final(s)@ == old(s)@.push(c),
{
    s.push(c);
}

/// Decides `lex_lt(a@, b@)` executably.
pub fn str_lt(a: &str, b: &str) -> (r: bool)
    ensures
        r == lex_lt(a@, b@),
{
    let len_a = a.unicode_len();
    let len_b = b.unicode_len();
    let mut i: usize = 0;
    proof {
        assert(a@.skip(0) =~= a@);
        assert(b@.skip(0) =~= b@);
    }
    loop
        invariant
            i <= len_a,
            i <= len_b,
            len_a == a@.len(),
            len_b == b@.len(),
            lex_lt(a@, b@) == lex_lt(a@.skip(i as int), b@.skip(i as int)),
        decreases len_a - i,
    {
        if i >= len_b {
            return false;
        }
        if i >= len_a {
            return true;
        }
        let ca = a.get_char(i);
        let cb = b.get_char(i);
        if (ca as u32) < (cb as u32) {
            return true;
        }
        if (ca as u32) > (cb as u32) {
            return false;
        }
        proof {
            assert(a@.skip(i as int)[0] == a@[i as int]);
            assert(b@.skip(i as int)[0] == b@[i as int]);
            assert(a@.skip(i as int).drop_first() =~= a@.skip(i as int + 1));
            assert(b@.skip(i as int).drop_first() =~= b@.skip(i as int + 1));
        }
        i = i + 1;
    }
}

// ---------------------------------------------------------------------------
// Line-break-free text
// ---------------------------------------------------------------------------

/// No line break anywhere in the sequence: the texts that a table cell can
/// carry whole, since the table layer splits its cell text on line breaks.
pub open spec fn line_free(s: Seq<char>) -> bool {
    forall|i: int| 0 <= i < s.len() ==> s[i] != '\n' && s[i] != '\r'
}

pub proof fn lemma_line_free_concat(a: Seq<char>, b: Seq<char>)
    requires
        line_free(a),
        line_free(b),
    ensures
        line_free(a + b),
{
    assert forall|i: int| 0 <= i < (a + b).len() implies (a + b)[i] != '\n' && (a + b)[i]
        != '\r' by {
        if i < a.len() {
            assert((a + b)[i] == a[i]);
        } else {
            assert((a + b)[i] == b[i - a.len()]);
        }
    }
}

/// Decides `line_free(s@)` executably.
pub fn str_line_free(s: &str) -> (r: bool)
    ensures
        r == line_free(s@),
{
    let n = s.unicode_len();
    let mut i: usize = 0;
    while i < n
        invariant
            i <= n,
            n == s@.len(),
            forall|j: int| 0 <= j < i ==> s@[j] != '\n' && s@[j] != '\r',
        decreases n - i,
    {
        let c = s.get_char(i);
        if c == '\n' || c == '\r' {
            proof {
                assert(s@[i as int] == '\n' || s@[i as int] == '\r');
            }
            return false;
        }
        i = i + 1;
    }
    true
}

// ---------------------------------------------------------------------------
// Decimal rendering
// ---------------------------------------------------------------------------

/// The decimal digit character for a value below ten.
pub open spec fn dec_digit(d: nat) -> char {
    if d == 0 {
        '0'
    } else if d == 1 {
        '1'
    } else if d == 2 {
        '2'
    } else if d == 3 {
        '3'
    } else if d == 4 {
        '4'
    } else if d == 5 {
        '5'
    } else if d == 6 {
        '6'
    } else if d == 7 {
        '7'
    } else if d == 8 {
        '8'
    } else {
        '9'
    }
}

/// The usual decimal rendering of a natural number, without leading zeroes
/// (a single `'0'` for zero).
pub open spec fn dec_chars(n: nat) -> Seq<char>
    decreases n,
{
    if n < 10 {
        seq![dec_digit(n)]
    } else {
        dec_chars(n / 10).push(dec_digit(n % 10))
    }
}

fn dec_digit_char(d: u64) -> (c: char)
    requires
        d < 10,
    ensures
        c == dec_digit(d as nat),
{
    if d == 0 {
        '0'
    } else if d == 1 {
        '1'
    } else if d == 2 {
        '2'
    } else if d == 3 {
        '3'
    } else if d == 4 {
        '4'
    } else if d == 5 {
        '5'
    } else if d == 6 {
        '6'
    } else if d == 7 {
        '7'
    } else if d == 8 {
        '8'
    } else {
        '9'
    }
}

/// Renders a number in decimal.
pub fn u64_to_dec(n: u64) -> (s: String)
    ensures
        s@ == dec_chars(n as nat),
    decreases n,
{
    if n < 10 {
        let mut s = String::new();
        push_char(&mut s, dec_digit_char(n));
        proof {
            assert(s@ =~= dec_chars(n as nat));
        }
        s
    } else {
        let mut s = u64_to_dec(n / 10);
        push_char(&mut s, dec_digit_char(n % 10));
        s
    }
}

/// Decimal renderings consist of digit characters alone, so they carry no
/// line break.
pub proof fn lemma_dec_chars_line_free(n: nat)
    ensures
        line_free(dec_chars(n)),
    decreases n,
{
    if n < 10 {
        assert(line_free(seq![dec_digit(n)]));
    } else {
        lemma_dec_chars_line_free(n / 10);
        assert(line_free(seq![dec_digit(n % 10)]));
        lemma_line_free_concat(dec_chars(n / 10), seq![dec_digit(n % 10)]);
        assert(dec_chars(n / 10).push(dec_digit(n % 10)) =~= dec_chars(n / 10) + seq![
            dec_digit(n % 10),
        ]);
    }
}

// ---------------------------------------------------------------------------
// Upper-case hexadecimal rendering, grouped with ':' separators
// ---------------------------------------------------------------------------

/// The upper-case hexadecimal digit character for a value below sixteen.
pub open spec fn hex_digit(d: nat) -> char {
    if d < 10 {
        dec_digit(d)
    } else if d == 10 {
        'A'
    } else if d == 11 {
        'B'
    } else if d == 12 {
        'C'
    } else if d == 13 {
        'D'
    } else if d == 14 {
        'E'
    } else {
        'F'
    }
}

/// The two upper-case hexadecimal digits of one byte.
pub open spec fn hex_pair(b: u8) -> Seq<char> {
    seq![hex_digit((b / 16) as nat), hex_digit((b % 16) as nat)]
}

/// The upper-case hexadecimal rendering of a byte sequence, two digits per
/// byte, no separators.
pub open spec fn hex_chars(bs: Seq<u8>) -> Seq<char>
    decreases bs.len(),
{
    if bs.len() == 0 {
        seq![]
    } else {
        hex_pair(bs[0]) + hex_chars(bs.drop_first())
    }
}

/// A character sequence cut into chunks of `g` characters (the last chunk may
/// be shorter), joined with `':'`.
pub open spec fn chunk_join(s: Seq<char>, g: int) -> Seq<char>
    recommends
        g > 0,
    decreases s.len(),
{
    if s.len() <= g || g <= 0 {
        s
    } else {
        s.take(g) + seq![':'] + chunk_join(s.skip(g), g)
    }
}

pub proof fn lemma_hex_chars_len(bs: Seq<u8>)
    ensures
        hex_chars(bs).len() == 2 * bs.len(),
    decreases bs.len(),
{
    if bs.len() > 0 {
        lemma_hex_chars_len(bs.drop_first());
    }
}

pub proof fn lemma_hex_chars_concat(a: Seq<u8>, b: Seq<u8>)
    ensures
        hex_chars(a + b) == hex_chars(a) + hex_chars(b),
    decreases a.len(),
{
    if a.len() == 0 {
        assert(a + b =~= b);
        assert(hex_chars(a) + hex_chars(b) =~= hex_chars(b));
    } else {
        lemma_hex_chars_concat(a.drop_first(), b);
        assert((a + b).drop_first() =~= a.drop_first() + b);
        assert(hex_chars(a + b) =~= hex_chars(a) + hex_chars(b));
    }
}

fn hex_digit_char(d: u8) -> (c: char)
    requires
        d < 16,
    ensures
        c == hex_digit(d as nat),
{
    if d == 0 {
        '0'
    } else if d == 1 {
        '1'
    } else if d == 2 {
        '2'
    } else if d == 3 {
        '3'
    } else if d == 4 {
        '4'
    } else if d == 5 {
        '5'
    } else if d == 6 {
        '6'
    } else if d == 7 {
        '7'
    } else if d == 8 {
        '8'
    } else if d == 9 {
        '9'
    } else if d == 10 {
        'A'
    } else if d == 11 {
        'B'
    } else if d == 12 {
        'C'
    } else if d == 13 {
        'D'
    } else if d == 14 {
        'E'
    } else {
        'F'
    }
}

/// Appends the two hexadecimal digits of each byte of `address[start..end]`
/// to `s`, with no separators.
fn append_hex_run(s: &mut String, address: &Vec<u8>, start: usize, end: usize)
    requires
        start <= end <= address@.len(),
    ensures
        final(s)@ == old(s)@ + hex_chars(address@.subrange(start as int, end as int)),
{
    let mut i = start;
    proof {
        assert(address@.subrange(start as int, start as int) =~= Seq::<u8>::empty());
        assert(old(s)@ + hex_chars(address@.subrange(start as int, start as int)) =~= old(s)@);
    }
    while i < end
        invariant
            start <= i <= end <= address@.len(),
            s@ == old(s)@ + hex_chars(address@.subrange(start as int, i as int)),
        decreases end - i,
    {
        let b = address[i];
        push_char(s, hex_digit_char(b / 16));
        push_char(s, hex_digit_char(b % 16));
        proof {
            let pre = address@.subrange(start as int, i as int);
            let post = address@.subrange(start as int, i as int + 1);
            assert(post =~= pre + seq![address@[i as int]]);
            lemma_hex_chars_concat(pre, seq![address@[i as int]]);
            assert(seq![address@[i as int]].drop_first() =~= Seq::<u8>::empty());
            assert(hex_chars(Seq::<u8>::empty()) == Seq::<char>::empty());
            assert(hex_chars(seq![address@[i as int]]) =~= hex_pair(address@[i as int]));
            assert(s@ =~= old(s)@ + hex_chars(post));
        }
        i = i + 1;
    }
}

/// Renders a byte sequence as upper-case hexadecimal, cut into groups of
/// `group_size` hexadecimal digits joined with `':'` — the notation used for
/// hardware addresses (`group_size` 2) and IPv6 addresses (`group_size` 4).
pub fn to_hex_string(group_size: usize, address: Vec<u8>) -> (s: String)
    requires
        group_size == 2 || group_size == 4,
    ensures
        s@ == chunk_join(hex_chars(address@), group_size as int),
{
    let mut s = String::new();
    hex_tail(&mut s, &address, 0, group_size / 2);
    proof {
        assert(address@.subrange(0, address@.len() as int) =~= address@);
        assert(s@ =~= chunk_join(hex_chars(address@), group_size as int));
    }
    s
}

/// Appends `chunk_join(hex_chars(address[start..]), 2 * bytes_per_group)`
/// to `s`.
fn hex_tail(s: &mut String, address: &Vec<u8>, start: usize, bytes_per_group: usize)
    requires
        bytes_per_group == 1 || bytes_per_group == 2,
        start <= address@.len(),
    ensures
        final(s)@ == old(s)@ + chunk_join(
            hex_chars(address@.subrange(start as int, address@.len() as int)),
            2 * bytes_per_group,
        ),
    decreases address@.len() - start,
{
    let n = address.len();
    let ghost rest = address@.subrange(start as int, n as int);
    proof {
        lemma_hex_chars_len(rest);
    }
    if n - start <= bytes_per_group {
        append_hex_run(s, address, start, n);
    } else {
        let mid = start + bytes_per_group;
        append_hex_run(s, address, start, mid);
        push_char(s, ':');
        hex_tail(s, address, mid, bytes_per_group);
        proof {
            let head = address@.subrange(start as int, mid as int);
            let tail = address@.subrange(mid as int, n as int);
            assert(rest =~= head + tail);
            lemma_hex_chars_concat(head, tail);
            lemma_hex_chars_len(head);
            let g = 2 * bytes_per_group;
            assert(hex_chars(rest).take(g as int) =~= hex_chars(head));
            assert(hex_chars(rest).skip(g as int) =~= hex_chars(tail));
            assert(s@ =~= old(s)@ + chunk_join(hex_chars(rest), g as int));
        }
    }
}

} // verus!
