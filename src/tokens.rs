//! Splitting one input line into the command name and its arguments.
use vstd::prelude::*;
use vstd::string::*;

verus! {

broadcast use vstd::string::group_string_axioms;

/// The characters that Unicode gives the White_Space property, which is
/// what `char::is_whitespace` tests.
pub open spec fn is_space_char(c: char) -> bool {
    ('\u{9}' <= c && c <= '\u{d}') || c == ' ' || c == '\u{85}' || c == '\u{a0}'
        || c == '\u{1680}' || ('\u{2000}' <= c && c <= '\u{200a}') || c == '\u{2028}'
        || c == '\u{2029}' || c == '\u{202f}' || c == '\u{205f}' || c == '\u{3000}'
}

/// The line without its trailing white space (the line break among it).
pub open spec fn trim_end(s: Seq<char>) -> Seq<char>
    decreases s.len(),
{
    if s.len() > 0 && is_space_char(s.last()) {
        trim_end(s.drop_last())
    } else {
        s
    }
}

/// The pieces of `s` between single spaces, empty pieces kept: `"a  b"`
/// gives `a`, the empty string and `b`, and the empty string gives one
/// empty piece.
pub open spec fn split_spaces(s: Seq<char>) -> Seq<Seq<char>>
    decreases s.len(),
{
    if s.len() == 0 {
        seq![Seq::empty()]
    } else if s.last() == ' ' {
        split_spaces(s.drop_last()).push(Seq::empty())
    } else {
        let parts = split_spaces(s.drop_last());
        parts.update(parts.len() - 1, parts.last().push(s.last()))
    }
}

/// The tokens of an input line: none for a blank line, otherwise the pieces
/// of the line, trailing white space removed, between single spaces.
pub open spec fn tokens_of(line: Seq<char>) -> Seq<Seq<char>> {
    if trim_end(line).len() == 0 {
        Seq::empty()
    } else {
        split_spaces(trim_end(line))
    }
}

/// The views of a sequence of strings.
pub open spec fn views(v: Seq<String>) -> Seq<Seq<char>> {
    v.map_values(|s: String| s@)
}

fn is_space(c: char) -> (r: bool)
    ensures
        r == is_space_char(c),
{
    ('\u{9}' <= c && c <= '\u{d}') || c == ' ' || c == '\u{85}' || c == '\u{a0}'
        || c == '\u{1680}' || ('\u{2000}' <= c && c <= '\u{200a}') || c == '\u{2028}'
        || c == '\u{2029}' || c == '\u{202f}' || c == '\u{205f}' || c == '\u{3000}'
}

/// The number of characters of `line` that remain once trailing white space
/// is removed.
fn trimmed_len(line: &str) -> (r: usize)
    ensures
        r <= line@.len(),
        trim_end(line@) == line@.subrange(0, r as int),
{
    let mut end: usize = line.unicode_len();
    assert(line@.subrange(0, end as int) =~= line@);
    while end > 0 && is_space(line.get_char(end - 1))
        invariant
            end <= line@.len(),
            trim_end(line@) == trim_end(line@.subrange(0, end as int)),
        decreases end,
    {
        assert(line@.subrange(0, end as int).drop_last() =~= line@.subrange(0, end - 1));
        end = end - 1;
    }
    proof {
        lemma_trim_stops(line@.subrange(0, end as int));
    }
    end
}

proof fn lemma_trim_stops(s: Seq<char>)
    requires
        !(s.len() > 0 && is_space_char(s.last())),
    ensures
        trim_end(s) == s,
{
}

/// Splits an input line into tokens: trailing white space is dropped, a
/// blank line gives no token, and the rest is cut at every single space.
pub fn parse_line(line: &str) -> (r: Vec<String>)
    ensures
        views(r@) == tokens_of(line@),
{
    let end = trimmed_len(line);
    let mut toks: Vec<String> = Vec::new();
    if end == 0 {
        assert(views(toks@) =~= tokens_of(line@));
        return toks;
    }
    let ghost s = line@.subrange(0, end as int);
    let mut start: usize = 0;
    let mut i: usize = 0;
    assert(s.subrange(0, 0) =~= Seq::<char>::empty());
    while i < end
        invariant
            s == line@.subrange(0, end as int),
            end <= line@.len(),
            start <= i <= end,
            views(toks@).push(s.subrange(start as int, i as int)) == split_spaces(
                s.subrange(0, i as int),
            ),
        decreases end - i,
    {
        let c = line.get_char(i);
        let ghost before = toks@;
        assert(s.subrange(0, i + 1).drop_last() =~= s.subrange(0, i as int));
        assert(s.subrange(0, i + 1).last() == c);
        if c == ' ' {
            let piece = line.substring_char(start, i).to_string();
            assert(piece@ == s.subrange(start as int, i as int));
            toks.push(piece);
            assert(views(toks@) =~= views(before).push(piece@));
            start = i + 1;
            assert(s.subrange(start as int, i + 1) =~= Seq::<char>::empty());
        } else {
            assert(s.subrange(start as int, i + 1) =~= s.subrange(start as int, i as int).push(c));
        }
        i = i + 1;
    }
    let last = line.substring_char(start, end).to_string();
    let ghost before = toks@;
    toks.push(last);
    assert(views(toks@) =~= views(before).push(last@));
    assert(s.subrange(0, end as int) =~= s);
    assert(s.subrange(start as int, end as int) =~= line@.subrange(start as int, end as int));
    toks
}

} // verus!
