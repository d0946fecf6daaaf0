//! Splitting text into lines and whitespace-separated fields.
//!
//! The spec-level model: `split_ws` gives the whitespace-separated fields of
//! a line (runs of whitespace collapse, no empty fields), and `split_lines`
//! gives the segments of a text between newline characters.

use vstd::prelude::*;

verus! {

/// Whitespace for the purpose of field splitting: the ASCII whitespace
/// characters (space, tab, line feed, carriage return, vertical tab and
/// form feed).
pub open spec fn is_ws_char(c: char) -> bool {
    c == ' ' || c == '\t' || c == '\n' || c == '\r' || c == '\u{b}' || c == '\u{c}'
}

/// Runtime test for `is_ws_char`.
fn is_ws(c: char) -> (r: bool)
    ensures
        r == is_ws_char(c),
{
    c == ' ' || c == '\t' || c == '\n' || c == '\r' || c == '\u{b}' || c == '\u{c}'
}

/// Length of the maximal whitespace-free prefix of `s`.
pub open spec fn token_len(s: Seq<char>) -> nat
    decreases s.len(),
{
    if s.len() == 0 || is_ws_char(s[0]) {
        0
    } else {
        1 + token_len(s.drop_first())
    }
}

/// The whitespace-separated fields of `s`, in order. Runs of whitespace
/// separate fields; no empty field is produced.
pub open spec fn split_ws(s: Seq<char>) -> Seq<Seq<char>>
    decreases s.len(),
    via split_ws_decreases
{
    if s.len() == 0 {
        Seq::empty()
    } else if is_ws_char(s[0]) {
        split_ws(s.drop_first())
    } else {
        seq![s.take(token_len(s) as int)] + split_ws(s.skip(token_len(s) as int))
    }
}

#[via_fn]
proof fn split_ws_decreases(s: Seq<char>) {
    if s.len() > 0 && !is_ws_char(s[0]) {
        assert(token_len(s) == 1 + token_len(s.drop_first()));
        lemma_token_len_le(s);
    }
}

/// The whitespace-free prefix never extends past the end of the sequence.
proof fn lemma_token_len_le(s: Seq<char>)
    ensures
        token_len(s) <= s.len(),
    decreases s.len(),
{
    if s.len() > 0 && !is_ws_char(s[0]) {
        lemma_token_len_le(s.drop_first());
    }
}

/// The views of a sequence of owned strings.
pub open spec fn views_of(v: Seq<String>) -> Seq<Seq<char>> {
    v.map_values(|s: String| s@)
}

/// Length of the maximal prefix of `s` free of line feeds.
pub open spec fn line_len(s: Seq<char>) -> nat
    decreases s.len(),
{
    if s.len() == 0 || s[0] == '\n' {
        0
    } else {
        1 + line_len(s.drop_first())
    }
}

/// The segments of `s` between line feed characters, in order. A line feed
/// ends a segment; a trailing line feed does not open a final empty segment,
/// but two adjacent line feeds do enclose an empty one.
pub open spec fn split_lines(s: Seq<char>) -> Seq<Seq<char>>
    decreases s.len(),
    via split_lines_decreases
{
    if s.len() == 0 {
        Seq::empty()
    } else if line_len(s) == s.len() {
        seq![s]
    } else {
        seq![s.take(line_len(s) as int)] + split_lines(s.skip(line_len(s) as int + 1))
    }
}

#[via_fn]
proof fn split_lines_decreases(s: Seq<char>) {
    if s.len() > 0 {
        lemma_line_len_le(s);
    }
}

/// The line-feed-free prefix never extends past the end of the sequence.
proof fn lemma_line_len_le(s: Seq<char>)
    ensures
        line_len(s) <= s.len(),
    decreases s.len(),
{
    if s.len() > 0 && s[0] != '\n' {
        lemma_line_len_le(s.drop_first());
    }
}

/// A scan that stops at the first line feed (or the end) has measured
/// exactly the maximal line-feed-free prefix.
proof fn lemma_line_len_scan(s: Seq<char>, j: int)
    requires
        0 <= j <= s.len(),
        forall|k: int| 0 <= k < j ==> #[trigger] s[k] != '\n',
        j == s.len() || s[j] == '\n',
    ensures
        line_len(s) == j,
    decreases j,
{
    if j > 0 {
        let t = s.drop_first();
        assert(forall|k: int| 0 <= k < j - 1 ==> #[trigger] t[k] != '\n');
        lemma_line_len_scan(t, j - 1);
    }
}

/// A scan that stops at the first whitespace character (or the end)
/// has measured exactly the maximal whitespace-free prefix.
proof fn lemma_token_len_scan(s: Seq<char>, j: int)
    requires
        0 <= j <= s.len(),
        forall|k: int| 0 <= k < j ==> !is_ws_char(#[trigger] s[k]),
        j == s.len() || is_ws_char(s[j]),
    ensures
        token_len(s) == j,
    decreases j,
{
    if j == 0 {
    } else {
        assert(!is_ws_char(s[0]));
        let t = s.drop_first();
        assert(forall|k: int| 0 <= k < j - 1 ==> !is_ws_char(#[trigger] t[k]));
        lemma_token_len_scan(t, j - 1);
    }
}

/// Verified equality of two string slices, character by character.
pub fn str_eq(a: &str, b: &str) -> (r: bool)
    ensures
        r == (a@ == b@),
{
    let na = a.unicode_len();
    let nb = b.unicode_len();
    if na != nb {
        return false;
    }
    let mut i: usize = 0;
    while i < na
        invariant
            0 <= i <= na,
            na == a@.len(),
            nb == b@.len(),
            na == nb,
            forall|k: int| 0 <= k < i ==> a@[k] == b@[k],
        decreases na - i,
    {
        if a.get_char(i) != b.get_char(i) {
            return false;
        }
        i += 1;
    }
    proof {
        assert(a@ =~= b@);
    }
    true
}

/// Index of the end of the whitespace-free run starting at `start`:
/// the first position at or after `start` holding whitespace, or the end.
fn scan_token_end(s: &str, start: usize, n: usize) -> (j: usize)
    requires
        n == s@.len(),
        start <= n,
    ensures
        start <= j <= n,
        forall|k: int| start <= k < j ==> !is_ws_char(#[trigger] s@[k]),
        j == n || is_ws_char(s@[j as int]),
{
    let mut j: usize = start;
    while j < n
        invariant_except_break
            start <= j <= n,
            n == s@.len(),
            forall|k: int| start <= k < j ==> !is_ws_char(#[trigger] s@[k]),
        ensures
            start <= j <= n,
            forall|k: int| start <= k < j ==> !is_ws_char(#[trigger] s@[k]),
            j == n || is_ws_char(s@[j as int]),
        decreases n - j,
    {
        if is_ws(s.get_char(j)) {
            break ;
        }
        j += 1;
    }
    j
}

/// Splits a line into its whitespace-separated fields, exactly as the
/// spec-level `split_ws` describes.
pub fn split_fields(line: &str) -> (fields: Vec<String>)
    ensures
        views_of(fields@) == split_ws(line@),
{
    let n = line.unicode_len();
    let mut fields: Vec<String> = Vec::new();
    let mut i: usize = 0;
    proof {
        assert(line@.skip(0) =~= line@);
        assert(views_of(fields@) + split_ws(line@) =~= split_ws(line@));
    }
    while i < n
        invariant
            0 <= i <= n,
            n == line@.len(),
            split_ws(line@) == views_of(fields@) + split_ws(line@.skip(i as int)),
        decreases n - i,
    {
        if is_ws(line.get_char(i)) {
            proof {
                assert(line@.skip(i as int).drop_first() =~= line@.skip(i + 1));
            }
            i += 1;
        } else {
            let j = scan_token_end(line, i, n);
            let tok = line.substring_char(i, j);
            let ghost before = fields@;
            fields.push(String::from_str(tok));
            proof {
                let rest = line@.skip(i as int);
                assert(forall|k: int| 0 <= k < j - i ==> rest[k] == line@[k + i]);
                lemma_token_len_scan(rest, j - i);
                assert(rest.take(j - i) =~= line@.subrange(i as int, j as int));
                assert(rest.skip(j - i) =~= line@.skip(j as int));
                assert(views_of(fields@) =~= views_of(before).push(tok@));
                assert(views_of(before).push(tok@) =~= views_of(before) + seq![tok@]);
            }
            i = j;
        }
    }
    proof {
        assert(line@.skip(n as int) =~= Seq::<char>::empty());
        assert(views_of(fields@) + split_ws(line@.skip(n as int)) =~= views_of(fields@));
    }
    fields
}

/// Index of the end of the current line: the first position at or after
/// `start` holding a line feed, or the end of the text.
fn scan_line_end(s: &str, start: usize, n: usize) -> (j: usize)
    requires
        n == s@.len(),
        start <= n,
    ensures
        start <= j <= n,
        forall|k: int| start <= k < j ==> #[trigger] s@[k] != '\n',
        j == n || s@[j as int] == '\n',
{
    let mut j: usize = start;
    while j < n
        invariant_except_break
            start <= j <= n,
            n == s@.len(),
            forall|k: int| start <= k < j ==> #[trigger] s@[k] != '\n',
        ensures
            start <= j <= n,
            forall|k: int| start <= k < j ==> #[trigger] s@[k] != '\n',
            j == n || s@[j as int] == '\n',
        decreases n - j,
    {
        if s.get_char(j) == '\n' {
            break ;
        }
        j += 1;
    }
    j
}

/// Splits a text into its lines, exactly as the spec-level `split_lines`
/// describes.
pub fn split_into_lines(text: &str) -> (lines: Vec<String>)
    ensures
        views_of(lines@) == split_lines(text@),
{
    let n = text.unicode_len();
    let mut lines: Vec<String> = Vec::new();
    let mut i: usize = 0;
    proof {
        assert(text@.skip(0) =~= text@);
        assert(views_of(lines@) + split_lines(text@) =~= split_lines(text@));
    }
    while i < n
        invariant
            0 <= i <= n,
            n == text@.len(),
            split_lines(text@) == views_of(lines@) + split_lines(text@.skip(i as int)),
        decreases n - i,
    {
        let j = scan_line_end(text, i, n);
        let l = text.substring_char(i, j);
        let ghost before = lines@;
        lines.push(String::from_str(l));
        let next: usize = if j == n {
            n
        } else {
            j + 1
        };
        proof {
            let rest = text@.skip(i as int);
            assert(forall|k: int| 0 <= k < j - i ==> rest[k] == text@[k + i]);
            lemma_line_len_scan(rest, j - i);
            assert(views_of(lines@) =~= views_of(before) + seq![l@]);
            if j == n {
                assert(rest =~= text@.subrange(i as int, j as int));
                assert(split_lines(rest) =~= seq![l@]);
                assert(text@.skip(n as int) =~= Seq::<char>::empty());
                assert(views_of(lines@) + split_lines(text@.skip(n as int)) =~= views_of(lines@));
            } else {
                assert(rest.take(j - i) =~= text@.subrange(i as int, j as int));
                assert(rest.skip(j - i + 1) =~= text@.skip(j + 1));
                assert(views_of(before) + (seq![l@] + split_lines(text@.skip(j + 1))) =~= (
                views_of(before) + seq![l@]) + split_lines(text@.skip(j + 1)));
            }
        }
        i = next;
    }
    proof {
        assert(text@.skip(n as int) =~= Seq::<char>::empty());
        assert(views_of(lines@) + split_lines(text@.skip(n as int)) =~= views_of(lines@));
    }
    lines
}

} // verus!
