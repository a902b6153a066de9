//! Character-level text primitives: searching, trimming, splitting.
//!
//! Tool output is handled as a sequence of Unicode scalar values. Every
//! executable function here is specified against a spec function over
//! `Seq<char>`, so parsers built on top can state exactly what they accept.

use vstd::prelude::*;

verus! {

/// The characters that Unicode gives the `White_Space` property.
pub open spec fn is_space(c: char) -> bool {
    let u = c as u32;
    (0x09 <= u && u <= 0x0D) || u == 0x20 || u == 0x85 || u == 0xA0 || u == 0x1680 || (0x2000 <= u
        && u <= 0x200A) || u == 0x2028 || u == 0x2029 || u == 0x202F || u == 0x205F || u == 0x3000
}

/// `pat` occurs in `s` starting at index `i`.
pub open spec fn matches_at(s: Seq<char>, pat: Seq<char>, i: int) -> bool {
    0 <= i && i + pat.len() <= s.len() && s.subrange(i, i + pat.len()) =~= pat
}

/// The least index `>= from` at which `pat` occurs in `s`.
pub open spec fn find_from(s: Seq<char>, pat: Seq<char>, from: int) -> Option<int>
    decreases s.len() - from,
{
    if from < 0 || from + pat.len() > s.len() {
        None
    } else if matches_at(s, pat, from) {
        Some(from)
    } else {
        find_from(s, pat, from + 1)
    }
}

/// The index of the first occurrence of `pat` in `s`.
pub open spec fn find(s: Seq<char>, pat: Seq<char>) -> Option<int> {
    find_from(s, pat, 0)
}

/// The greatest index `<= upto` at which `pat` occurs in `s`.
pub open spec fn rfind_upto(s: Seq<char>, pat: Seq<char>, upto: int) -> Option<int>
    decreases upto + 1,
{
    if upto < 0 {
        None
    } else if matches_at(s, pat, upto) {
        Some(upto)
    } else {
        rfind_upto(s, pat, upto - 1)
    }
}

/// The index of the last occurrence of `pat` in `s`.
pub open spec fn rfind(s: Seq<char>, pat: Seq<char>) -> Option<int> {
    rfind_upto(s, pat, s.len() - pat.len())
}

/// `pat` occurs somewhere in `s`.
pub open spec fn contains(s: Seq<char>, pat: Seq<char>) -> bool {
    exists|i: int| matches_at(s, pat, i)
}

/// `s` begins with `pat`.
pub open spec fn starts_with(s: Seq<char>, pat: Seq<char>) -> bool {
    matches_at(s, pat, 0)
}

/// The first index `>= i` that holds no white space (or `s.len()`).
pub open spec fn skip_spaces(s: Seq<char>, i: int) -> int
    decreases s.len() - i,
{
    if 0 <= i < s.len() && is_space(s[i]) {
        skip_spaces(s, i + 1)
    } else {
        i
    }
}

/// The least `j' <= j`, not below `lo`, such that `s[j'..j]` is all white space.
pub open spec fn skip_spaces_back(s: Seq<char>, lo: int, j: int) -> int
    decreases j,
{
    if lo < j <= s.len() && 0 < j && is_space(s[j - 1]) {
        skip_spaces_back(s, lo, j - 1)
    } else {
        j
    }
}

/// `s` without leading and trailing white space.
pub open spec fn trim(s: Seq<char>) -> Seq<char> {
    let a = skip_spaces(s, 0);
    let b = skip_spaces_back(s, a, s.len() as int);
    s.subrange(a, b)
}

/// What `find_from` returns is the least match at or after `from`.
pub proof fn lemma_find_from(s: Seq<char>, pat: Seq<char>, from: int)
    requires
        0 <= from,
    ensures
        match find_from(s, pat, from) {
            Some(i) => from <= i && matches_at(s, pat, i) && forall|j: int|
                from <= j < i ==> !matches_at(s, pat, j),
            None => forall|j: int| from <= j ==> !matches_at(s, pat, j),
        },
    decreases s.len() - from,
{
    if from + pat.len() <= s.len() && !matches_at(s, pat, from) {
        lemma_find_from(s, pat, from + 1);
    }
}

/// What `rfind_upto` returns is the greatest match at or before `upto`.
pub proof fn lemma_rfind_upto(s: Seq<char>, pat: Seq<char>, upto: int)
    ensures
        match rfind_upto(s, pat, upto) {
            Some(i) => 0 <= i <= upto && matches_at(s, pat, i) && forall|j: int|
                i < j <= upto ==> !matches_at(s, pat, j),
            None => forall|j: int| j <= upto ==> !matches_at(s, pat, j),
        },
    decreases upto + 1,
{
    if upto >= 0 && !matches_at(s, pat, upto) {
        lemma_rfind_upto(s, pat, upto - 1);
    }
}

/// `find` answers `Some` exactly when the pattern occurs, with the first
/// occurrence; `rfind` likewise with the last.
pub proof fn lemma_find_contains(s: Seq<char>, pat: Seq<char>)
    ensures
        contains(s, pat) <==> find(s, pat) is Some,
        contains(s, pat) <==> rfind(s, pat) is Some,
        find(s, pat) matches Some(i) ==> matches_at(s, pat, i) && forall|j: int|
            j < i ==> !matches_at(s, pat, j),
        rfind(s, pat) matches Some(i) ==> matches_at(s, pat, i) && forall|j: int|
            i < j ==> !matches_at(s, pat, j),
{
    lemma_find_from(s, pat, 0);
    lemma_rfind_upto(s, pat, s.len() - pat.len());
}

/// The bounds of `trim`: nothing but white space is cut, and what is left
/// neither starts nor ends with white space.
pub proof fn lemma_trim_bounds(s: Seq<char>)
    ensures
        0 <= skip_spaces(s, 0) <= skip_spaces_back(s, skip_spaces(s, 0), s.len() as int) <= s.len(),
        forall|k: int| 0 <= k < skip_spaces(s, 0) ==> is_space(s[k]),
        forall|k: int|
            skip_spaces_back(s, skip_spaces(s, 0), s.len() as int) <= k < s.len() ==> is_space(
                s[k],
            ),
        trim(s).len() > 0 ==> !is_space(trim(s).first()) && !is_space(trim(s).last()),
{
    lemma_skip_spaces(s, 0);
    let a = skip_spaces(s, 0);
    lemma_skip_spaces_back(s, a, s.len() as int);
}

/// What `skip_spaces` returns is the first character at or after `i` that
/// is no white space, or the end of the text.
pub proof fn lemma_skip_spaces(s: Seq<char>, i: int)
    requires
        0 <= i <= s.len(),
    ensures
        i <= skip_spaces(s, i) <= s.len(),
        forall|k: int| i <= k < skip_spaces(s, i) ==> is_space(s[k]),
        skip_spaces(s, i) < s.len() ==> !is_space(s[skip_spaces(s, i)]),
    decreases s.len() - i,
{
    if i < s.len() && is_space(s[i]) {
        lemma_skip_spaces(s, i + 1);
    }
}

/// What `skip_spaces_back` returns is the end of the text before `j` once
/// trailing white space is cut, but not less than `lo`.
pub proof fn lemma_skip_spaces_back(s: Seq<char>, lo: int, j: int)
    requires
        0 <= lo <= j <= s.len(),
    ensures
        lo <= skip_spaces_back(s, lo, j) <= j,
        forall|k: int| skip_spaces_back(s, lo, j) <= k < j ==> is_space(s[k]),
        skip_spaces_back(s, lo, j) > lo ==> !is_space(s[skip_spaces_back(s, lo, j) - 1]),
    decreases j,
{
    if lo < j && is_space(s[j - 1]) {
        lemma_skip_spaces_back(s, lo, j - 1);
    }
}

/// The scalar values of a string slice, in order.
pub fn chars_of(s: &str) -> (v: Vec<char>)
    ensures
        v@ == s@,
{
    let mut v: Vec<char> = Vec::new();
    for c in it: s.chars()
        invariant
            v@ == it.seq().take(it.index() as int),
            it.seq() == s@,
    {
        v.push(c);
    }
    v
}

/// Builds a `String` with `String::from_iter` over the characters of `chars`.
/// The contract claims that the new string holds exactly those characters, in
/// the same order.
#[verifier::external_body]
pub(crate) fn string_from_chars(chars: &Vec<char>) -> (s: String)
    ensures
        s@ == chars@,
{
    String::from_iter(chars)
}

/// Whether `c` is white space.
pub fn is_whitespace(c: char) -> (r: bool)
    ensures
        r == is_space(c),
{
    let u: u32 = c as u32;
    (0x09 <= u && u <= 0x0D) || u == 0x20 || u == 0x85 || u == 0xA0 || u == 0x1680 || (0x2000 <= u
        && u <= 0x200A) || u == 0x2028 || u == 0x2029 || u == 0x202F || u == 0x205F || u == 0x3000
}

/// Whether `pat` occurs in `s` at index `i`.
pub fn matches_at_index(s: &Vec<char>, pat: &Vec<char>, i: usize) -> (r: bool)
    ensures
        r == matches_at(s@, pat@, i as int),
{
    if pat.len() > s.len() || i > s.len() - pat.len() {
        return false;
    }
    let mut k: usize = 0;
    while k < pat.len()
        invariant
            k <= pat@.len(),
            i + pat@.len() <= s@.len() == s.len(),
            forall|j: int| 0 <= j < k ==> s@[i + j] == pat@[j],
        decreases pat@.len() - k,
    {
        if s[i + k] != pat[k] {
            return false;
        }
        k = k + 1;
    }
    true
}

/// The first occurrence of `pat` in `s` at or after `from`.
pub fn find_at_or_after(s: &Vec<char>, pat: &Vec<char>, from: usize) -> (r: Option<usize>)
    ensures
        r is Some == find_from(s@, pat@, from as int) is Some,
        r matches Some(i) ==> find_from(s@, pat@, from as int) == Some(i as int),
{
    let mut i: usize = from;
    while pat.len() <= s.len() && i <= s.len() - pat.len()
        invariant
            from <= i,
            s@.len() == s.len(),
            pat@.len() == pat.len(),
            find_from(s@, pat@, from as int) == find_from(s@, pat@, i as int),
        decreases s@.len() - i,
    {
        if matches_at_index(s, pat, i) {
            return Some(i);
        }
        i = i + 1;
    }
    None
}

/// The first occurrence of `pat` in `s`.
pub fn find_first(s: &Vec<char>, pat: &Vec<char>) -> (r: Option<usize>)
    ensures
        r is Some == find(s@, pat@) is Some,
        r matches Some(i) ==> find(s@, pat@) == Some(i as int),
{
    find_at_or_after(s, pat, 0)
}

/// The last occurrence of `pat` in `s`.
pub fn find_last(s: &Vec<char>, pat: &Vec<char>) -> (r: Option<usize>)
    ensures
        r is Some == rfind(s@, pat@) is Some,
        r matches Some(i) ==> rfind(s@, pat@) == Some(i as int),
{
    if pat.len() > s.len() {
        return None;
    }
    let mut i: usize = s.len() - pat.len();
    loop
        invariant
            i + pat@.len() <= s@.len(),
            rfind(s@, pat@) == rfind_upto(s@, pat@, i as int),
        decreases i,
    {
        if matches_at_index(s, pat, i) {
            return Some(i);
        }
        if i == 0 {
            assert(rfind_upto(s@, pat@, -1) is None);
            return None;
        }
        i = i - 1;
    }
}

/// Whether `pat` occurs in `s`.
pub fn contains_pattern(s: &Vec<char>, pat: &Vec<char>) -> (r: bool)
    ensures
        r == contains(s@, pat@),
{
    proof {
        lemma_find_contains(s@, pat@);
    }
    find_first(s, pat).is_some()
}

/// Whether `s` begins with `pat`.
pub fn has_prefix(s: &Vec<char>, pat: &Vec<char>) -> (r: bool)
    ensures
        r == starts_with(s@, pat@),
{
    matches_at_index(s, pat, 0)
}

/// A copy of `s[from..to]`.
pub fn slice_of(s: &Vec<char>, from: usize, to: usize) -> (r: Vec<char>)
    requires
        from <= to <= s@.len(),
    ensures
        r@ == s@.subrange(from as int, to as int),
{
    let mut r: Vec<char> = Vec::new();
    let mut i: usize = from;
    while i < to
        invariant
            from <= i <= to <= s@.len(),
            r@ == s@.subrange(from as int, i as int),
        decreases to - i,
    {
        r.push(s[i]);
        i = i + 1;
    }
    r
}

/// A copy of `s` without leading and trailing white space.
pub fn trimmed(s: &Vec<char>) -> (r: Vec<char>)
    ensures
        r@ == trim(s@),
{
    let mut a: usize = 0;
    while a < s.len() && is_whitespace(s[a])
        invariant
            a <= s@.len(),
            skip_spaces(s@, 0) == skip_spaces(s@, a as int),
        decreases s@.len() - a,
    {
        a = a + 1;
    }
    let mut b: usize = s.len();
    while a < b && is_whitespace(s[b - 1])
        invariant
            a <= b <= s@.len(),
            skip_spaces_back(s@, a as int, s@.len() as int) == skip_spaces_back(
                s@,
                a as int,
                b as int,
            ),
        decreases b,
    {
        b = b - 1;
    }
    slice_of(s, a, b)
}

/// Appends the characters of `src` to `dst`.
pub fn append_chars(dst: &mut Vec<char>, src: &Vec<char>)
    ensures
        final(dst)@ == old(dst)@ + src@,
{
    let mut i: usize = 0;
    while i < src.len()
        invariant
            i <= src@.len(),
            dst@ == old(dst)@ + src@.subrange(0, i as int),
        decreases src@.len() - i,
    {
        dst.push(src[i]);
        i = i + 1;
    }
}

/// Whether two texts hold the same characters.
pub fn same_chars(a: &Vec<char>, b: &Vec<char>) -> (r: bool)
    ensures
        r == (a@ == b@),
{
    if a.len() != b.len() {
        return false;
    }
    let mut i: usize = 0;
    while i < a.len()
        invariant
            i <= a@.len(),
            a@.len() == b@.len(),
            forall|j: int| 0 <= j < i ==> a@[j] == b@[j],
        decreases a@.len() - i,
    {
        if a[i] != b[i] {
            return false;
        }
        i = i + 1;
    }
    assert(a@ =~= b@);
    true
}

} // verus!
