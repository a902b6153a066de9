//! Splitting text into lines and white-space separated fields, and joining
//! pieces back together.

use crate::text::{append_chars, is_space, is_whitespace, lemma_skip_spaces, skip_spaces, slice_of};
use vstd::prelude::*;

verus! {

/// The character sequences held by a vector of texts.
pub open spec fn rows(v: Seq<Vec<char>>) -> Seq<Seq<char>> {
    v.map_values(|l: Vec<char>| l@)
}

/// The index of the first line feed at or after `i`, or `s.len()`.
pub open spec fn line_end(s: Seq<char>, i: int) -> int
    decreases s.len() - i,
{
    if 0 <= i < s.len() && s[i] != '\n' {
        line_end(s, i + 1)
    } else {
        i
    }
}

/// `l` without one trailing carriage return.
pub open spec fn strip_cr(l: Seq<char>) -> Seq<char> {
    if l.len() > 0 && l.last() == '\r' {
        l.drop_last()
    } else {
        l
    }
}

/// The lines of `s` that start at or after index `i`.
///
/// A line ends at a line feed; the line feed, and a carriage return directly
/// before it, are not part of the line. A last line without a line feed is
/// kept as it stands, and an empty rest yields no line.
pub open spec fn lines_from(s: Seq<char>, i: int) -> Seq<Seq<char>>
    decreases s.len() - i,
    via lines_from_decreases
{
    if i < 0 || i >= s.len() {
        Seq::empty()
    } else {
        let e = line_end(s, i);
        if e >= s.len() {
            seq![s.subrange(i, s.len() as int)]
        } else {
            seq![strip_cr(s.subrange(i, e))] + lines_from(s, e + 1)
        }
    }
}

#[via_fn]
proof fn lines_from_decreases(s: Seq<char>, i: int) {
    if 0 <= i < s.len() {
        lemma_line_end(s, i);
    }
}

/// The lines of `s`.
pub open spec fn lines(s: Seq<char>) -> Seq<Seq<char>> {
    lines_from(s, 0)
}

/// What `line_end` returns is the first line feed at or after `i`, or the
/// end of the text.
pub proof fn lemma_line_end(s: Seq<char>, i: int)
    requires
        0 <= i <= s.len(),
    ensures
        i <= line_end(s, i) <= s.len(),
        line_end(s, i) < s.len() ==> s[line_end(s, i)] == '\n',
        forall|k: int| i <= k < line_end(s, i) ==> s[k] != '\n',
    decreases s.len() - i,
{
    if i < s.len() && s[i] != '\n' {
        lemma_line_end(s, i + 1);
    }
}

/// The index after the run of non-white-space characters that starts at `i`.
pub open spec fn token_end(s: Seq<char>, i: int) -> int
    decreases s.len() - i,
{
    if 0 <= i < s.len() && !is_space(s[i]) {
        token_end(s, i + 1)
    } else {
        i
    }
}

/// What `token_end` returns is the end of the run of characters other than
/// white space that starts at `i`.
pub proof fn lemma_token_end(s: Seq<char>, i: int)
    requires
        0 <= i <= s.len(),
    ensures
        i <= token_end(s, i) <= s.len(),
        i < s.len() && !is_space(s[i]) ==> i < token_end(s, i),
        token_end(s, i) < s.len() ==> is_space(s[token_end(s, i)]),
        forall|k: int| i <= k < token_end(s, i) ==> !is_space(s[k]),
    decreases s.len() - i,
{
    if i < s.len() && !is_space(s[i]) {
        lemma_token_end(s, i + 1);
    }
}

/// The white-space separated fields of `s` that start at or after index `i`.
pub open spec fn fields_from(s: Seq<char>, i: int) -> Seq<Seq<char>>
    decreases s.len() - i,
    via fields_from_decreases
{
    let a = skip_spaces(s, i);
    if i < 0 || a >= s.len() {
        Seq::empty()
    } else {
        seq![s.subrange(a, token_end(s, a))] + fields_from(s, token_end(s, a))
    }
}

#[via_fn]
proof fn fields_from_decreases(s: Seq<char>, i: int) {
    if 0 <= i <= s.len() {
        lemma_skip_spaces(s, i);
        let a = skip_spaces(s, i);
        if a < s.len() {
            lemma_token_end(s, a);
        }
    }
}

/// The maximal runs of non-white-space characters of `s`, in order.
pub open spec fn fields(s: Seq<char>) -> Seq<Seq<char>> {
    fields_from(s, 0)
}

/// The pieces written one after the other, with `sep` between neighbours.
pub open spec fn join(parts: Seq<Seq<char>>, sep: Seq<char>) -> Seq<char>
    decreases parts.len(),
{
    if parts.len() == 0 {
        Seq::empty()
    } else if parts.len() == 1 {
        parts[0]
    } else {
        join(parts.drop_last(), sep) + sep + parts.last()
    }
}

/// The lines of `s`, each as a text of its own.
pub fn split_lines(s: &Vec<char>) -> (out: Vec<Vec<char>>)
    ensures
        rows(out@) == lines(s@),
{
    let mut out: Vec<Vec<char>> = Vec::new();
    let mut i: usize = 0;
    while i < s.len()
        invariant
            i <= s@.len() + 1,
            s@.len() == s.len(),
            rows(out@) + lines_from(s@, i as int) == lines(s@),
        decreases s@.len() + 1 - i,
    {
        let mut e: usize = i;
        while e < s.len() && s[e] != '\n'
            invariant
                i <= e <= s@.len(),
                line_end(s@, i as int) == line_end(s@, e as int),
            decreases s@.len() - e,
        {
            e = e + 1;
        }
        if e >= s.len() {
            let line = slice_of(s, i, s.len());
            out.push(line);
            i = s.len();
        } else {
            let stop: usize = if e > i && s[e - 1] == '\r' {
                e - 1
            } else {
                e
            };
            let line = slice_of(s, i, stop);
            assert(line@ =~= strip_cr(s@.subrange(i as int, e as int)));
            out.push(line);
            i = e + 1;
        }
    }
    out
}

/// The white-space separated fields of `s`, each as a text of its own.
pub fn split_fields(s: &Vec<char>) -> (out: Vec<Vec<char>>)
    ensures
        rows(out@) == fields(s@),
{
    let mut out: Vec<Vec<char>> = Vec::new();
    let mut i: usize = 0;
    loop
        invariant
            i <= s@.len(),
            s@.len() == s.len(),
            rows(out@) + fields_from(s@, i as int) == fields(s@),
        ensures
            rows(out@) == fields(s@),
        decreases s@.len() - i,
    {
        let mut a: usize = i;
        while a < s.len() && is_whitespace(s[a])
            invariant
                i <= a <= s@.len(),
                skip_spaces(s@, i as int) == skip_spaces(s@, a as int),
            decreases s@.len() - a,
        {
            a = a + 1;
        }
        if a >= s.len() {
            break ;
        }
        let mut e: usize = a;
        while e < s.len() && !is_whitespace(s[e])
            invariant
                a <= e <= s@.len(),
                token_end(s@, a as int) == token_end(s@, e as int),
            decreases s@.len() - e,
        {
            e = e + 1;
        }
        proof {
            lemma_token_end(s@, a as int);
        }
        let field = slice_of(s, a, e);
        out.push(field);
        i = e;
    }
    out
}

/// The pieces written one after the other, with `sep` between neighbours.
pub fn join_with(parts: &Vec<Vec<char>>, sep: &Vec<char>) -> (out: Vec<char>)
    ensures
        out@ == join(rows(parts@), sep@),
{
    let mut out: Vec<char> = Vec::new();
    let mut i: usize = 0;
    while i < parts.len()
        invariant
            i <= parts@.len(),
            out@ == join(rows(parts@).take(i as int), sep@),
        decreases parts@.len() - i,
    {
        let ghost prefix = rows(parts@).take(i as int);
        let ghost next = rows(parts@).take(i + 1);
        assert(next.drop_last() =~= prefix);
        if i > 0 {
            append_chars(&mut out, sep);
        }
        append_chars(&mut out, &parts[i]);
        i = i + 1;
    }
    assert(rows(parts@).take(parts@.len() as int) =~= rows(parts@));
    out
}

} // verus!
