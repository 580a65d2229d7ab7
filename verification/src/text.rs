//! Character-level text utilities shared by the format handlers: conversion
//! between strings and character vectors, whitespace trimming, substring
//! search, and unescaping of the common backslash escapes.
use vstd::prelude::*;

verus! {

broadcast use vstd::string::group_string_axioms;

/// Whitespace, by the Unicode White_Space property: the ASCII whitespace
/// characters and the Unicode space, line and paragraph separators.
pub open spec fn is_space(c: char) -> bool {
    ||| c == ' '
    ||| ('\u{9}' <= c && c <= '\u{d}')
    ||| c == '\u{85}'
    ||| c == '\u{a0}'
    ||| c == '\u{1680}'
    ||| ('\u{2000}' <= c && c <= '\u{200a}')
    ||| c == '\u{2028}'
    ||| c == '\u{2029}'
    ||| c == '\u{202f}'
    ||| c == '\u{205f}'
    ||| c == '\u{3000}'
}

/// The characters of `s`, in order, as a vector.
pub fn str_chars(s: &str) -> (v: Vec<char>)
    ensures
        v@ == s@,
{
    let mut v: Vec<char> = Vec::new();
    for c in it: s.chars()
        invariant
            it.seq() == s@,
            v@.len() == it.index(),
            forall|j: int| 0 <= j < v@.len() ==> v@[j] == it.seq()[j],
    {
        v.push(c);
    }
    proof {
        assert(v@ =~= s@);
    }
    v
}

/// A string holding exactly the characters of `v`.
///
/// Relies on `String`'s `FromIterator` impl of std: collecting characters
/// yields the string of those characters in order.
#[verifier::external_body]
pub fn chars_to_string(v: &Vec<char>) -> (s: String)
    ensures
        s@ == v@,
{
    v.iter().collect()
}

/// Index of the first character at or after `from` that is not whitespace;
/// the length of `s` if all of them are.
pub open spec fn first_non_space(s: Seq<char>, from: int) -> int
    decreases s.len() - from,
{
    if from < 0 || from >= s.len() {
        s.len() as int
    } else if is_space(s[from]) {
        first_non_space(s, from + 1)
    } else {
        from
    }
}

/// Index of the first occurrence of `c` at or after `from`; the length of `s`
/// if there is none.
pub open spec fn first_pos_from(s: Seq<char>, from: int, c: char) -> int
    decreases s.len() - from,
{
    if from < 0 || from >= s.len() {
        s.len() as int
    } else if s[from] == c {
        from
    } else {
        first_pos_from(s, from + 1, c)
    }
}

/// One past the last character of `s` that is not whitespace; 0 if every
/// character is whitespace.
pub open spec fn last_non_space_end(s: Seq<char>) -> int
    decreases s.len(),
{
    if s.len() == 0 {
        0
    } else if is_space(s[s.len() - 1]) {
        last_non_space_end(s.drop_last())
    } else {
        s.len() as int
    }
}

/// `s` with leading and trailing whitespace removed.
pub open spec fn spec_trim(s: Seq<char>) -> Seq<char> {
    let a = first_non_space(s, 0);
    let b = last_non_space_end(s);
    if a < b {
        s.subrange(a, b)
    } else {
        Seq::empty()
    }
}

pub open spec fn is_escape_code(c: char) -> bool {
    c == 'n' || c == 'r' || c == 't' || c == '\\'
}

pub open spec fn escaped_char(c: char) -> char {
    if c == 'n' {
        '\n'
    } else if c == 'r' {
        '\r'
    } else if c == 't' {
        '\t'
    } else {
        '\\'
    }
}

/// `s` with each of the two-character sequences `\n`, `\r`, `\t`, `\\`
/// replaced by the character it denotes, scanning left to right.
pub open spec fn spec_unescape(s: Seq<char>) -> Seq<char>
    decreases s.len(),
{
    if s.len() == 0 {
        Seq::empty()
    } else if s[0] == '\\' && s.len() >= 2 && is_escape_code(s[1]) {
        seq![escaped_char(s[1])] + spec_unescape(s.subrange(2, s.len() as int))
    } else {
        seq![s[0]] + spec_unescape(s.subrange(1, s.len() as int))
    }
}

/// The view of an optional string.
pub open spec fn opt_str_view(o: Option<String>) -> Option<Seq<char>> {
    match o {
        Some(s) => Some(s@),
        None => None,
    }
}

/// A single-line addition to a report: one line for `Some`, none for `None`.
pub open spec fn item_opt_seq(o: Option<Seq<char>>) -> Seq<Seq<char>> {
    match o {
        Some(x) => seq![x],
        None => Seq::empty(),
    }
}

/// The pattern `pat` occurs in `s` at position `i`.
pub open spec fn matches_at(s: Seq<char>, pat: Seq<char>, i: int) -> bool {
    0 <= i && i + pat.len() <= s.len() && s.subrange(i, i + pat.len() as int) == pat
}

/// `i` is the first position where `pat` occurs in `s`.
pub open spec fn is_first_match(s: Seq<char>, pat: Seq<char>, i: int) -> bool {
    matches_at(s, pat, i) && (forall|j: int| 0 <= j < i ==> !matches_at(s, pat, j))
}

pub open spec fn has_match(s: Seq<char>, pat: Seq<char>) -> bool {
    exists|i: int| is_first_match(s, pat, i)
}

/// Two first-match positions coincide.
pub proof fn lemma_first_match_unique(s: Seq<char>, pat: Seq<char>, i: int, j: int)
    requires
        is_first_match(s, pat, i),
        is_first_match(s, pat, j),
    ensures
        i == j,
{
    if i < j {
        assert(!matches_at(s, pat, i));
    } else if j < i {
        assert(!matches_at(s, pat, j));
    }
}

/// Position of the first occurrence of `pat` in `s`, if any.
pub fn find_first(s: &Vec<char>, pat: &Vec<char>) -> (r: Option<usize>)
    requires
        pat@.len() >= 1,
    ensures
        match r {
            Some(i) => is_first_match(s@, pat@, i as int),
            None => forall|j: int| !matches_at(s@, pat@, j),
        },
{
    if pat.len() > s.len() {
        return None;
    }
    let mut i: usize = 0;
    let bound = s.len() - pat.len();
    while i <= bound
        invariant
            pat@.len() >= 1,
            pat@.len() <= s@.len(),
            s@.len() <= usize::MAX,
            bound == s@.len() - pat@.len(),
            0 <= i <= bound + 1,
            forall|j: int| 0 <= j < i ==> !matches_at(s@, pat@, j),
        decreases bound + 1 - i,
    {
        let mut k: usize = 0;
        let mut hit = true;
        while k < pat.len()
            invariant_except_break
                i + pat@.len() <= s@.len(),
                s@.len() <= usize::MAX,
                0 <= k <= pat@.len(),
                hit,
                forall|m: int| 0 <= m < k ==> s@[i + m] == pat@[m],
            ensures
                hit ==> forall|m: int| 0 <= m < pat@.len() ==> s@[i + m] == pat@[m],
                !hit ==> !matches_at(s@, pat@, i as int),
            decreases pat@.len() - k,
        {
            if s[i + k] != pat[k] {
                hit = false;
                proof {
                    if matches_at(s@, pat@, i as int) {
                        let ki = k as int;
                        assert(s@.subrange(i as int, i + pat@.len() as int)[ki] == pat@[ki]);
                    }
                }
                break ;
            }
            k = k + 1;
        }
        if hit {
            proof {
                assert(s@.subrange(i as int, i + pat@.len() as int) =~= pat@);
            }
            return Some(i);
        }
        proof {
            assert(!matches_at(s@, pat@, i as int));
        }
        i = i + 1;
    }
    proof {
        assert forall|j: int| !matches_at(s@, pat@, j) by {
            if matches_at(s@, pat@, j) {
                assert(0 <= j <= s@.len() - pat@.len());
            }
        }
    }
    None
}

/// Index of the first non-whitespace character at or after `from`.
pub fn skip_spaces(s: &Vec<char>, from: usize) -> (r: usize)
    requires
        from <= s@.len(),
    ensures
        r == first_non_space(s@, from as int),
        from <= r <= s@.len(),
{
    let mut i = from;
    while i < s.len() && is_space_exec(s[i])
        invariant
            from <= i <= s@.len(),
            first_non_space(s@, from as int) == first_non_space(s@, i as int),
        decreases s@.len() - i,
    {
        i = i + 1;
    }
    i
}

fn is_space_exec(c: char) -> (r: bool)
    ensures
        r == is_space(c),
{
    c == ' ' || ('\u{9}' <= c && c <= '\u{d}') || c == '\u{85}' || c == '\u{a0}' || c
        == '\u{1680}' || ('\u{2000}' <= c && c <= '\u{200a}') || c == '\u{2028}' || c
        == '\u{2029}' || c == '\u{202f}' || c == '\u{205f}' || c == '\u{3000}'
}

/// `v` with leading and trailing whitespace removed.
pub fn trim_chars(v: &Vec<char>) -> (r: Vec<char>)
    ensures
        r@ == spec_trim(v@),
{
    let a = skip_spaces(v, 0);
    let mut b = v.len();
    proof {
        assert(v@.take(v@.len() as int) =~= v@);
    }
    while b > 0 && is_space_exec(v[b - 1])
        invariant
            0 <= b <= v@.len(),
            last_non_space_end(v@) == last_non_space_end(v@.take(b as int)),
        decreases b,
    {
        proof {
            assert(v@.take(b as int).drop_last() =~= v@.take(b - 1));
        }
        b = b - 1;
    }
    proof {
        if b > 0 {
            assert(last_non_space_end(v@.take(b as int)) == b as int);
        }
        assert(v@.take(b as int).len() == b as int);
        assert(last_non_space_end(v@) == b as int);
    }
    if a < b {
        let mut r: Vec<char> = Vec::new();
        let mut i = a;
        while i < b
            invariant
                a <= i <= b <= v@.len(),
                r@ == v@.subrange(a as int, i as int),
            decreases b - i,
        {
            let c = v[i];
            r.push(c);
            i = i + 1;
            proof {
                assert(r@ =~= v@.subrange(a as int, i as int));
            }
        }
        r
    } else {
        Vec::new()
    }
}

/// `v` with the four backslash escapes replaced, scanning left to right.
pub fn unescape_chars(v: &Vec<char>) -> (r: Vec<char>)
    ensures
        r@ == spec_unescape(v@),
{
    let mut r: Vec<char> = Vec::new();
    let mut i: usize = 0;
    let n = v.len();
    proof {
        assert(v@.subrange(0, v@.len() as int) =~= v@);
    }
    while i < n
        invariant
            0 <= i <= n == v@.len(),
            spec_unescape(v@) == r@ + spec_unescape(v@.subrange(i as int, v@.len() as int)),
        decreases n - i,
    {
        let ghost pre = v@.subrange(i as int, v@.len() as int);
        if v[i] == '\\' && i + 1 < n && is_escape_code_exec(v[i + 1]) {
            r.push(escaped_char_exec(v[i + 1]));
            proof {
                assert(pre.subrange(2, pre.len() as int) =~= v@.subrange(
                    i + 2,
                    v@.len() as int,
                ));
            }
            i = i + 2;
        } else {
            let c = v[i];
            r.push(c);
            proof {
                if pre[0] == '\\' && pre.len() >= 2 && is_escape_code(pre[1]) {
                    assert(false);
                }
                assert(pre.subrange(1, pre.len() as int) =~= v@.subrange(
                    i + 1,
                    v@.len() as int,
                ));
            }
            i = i + 1;
        }
    }
    proof {
        assert(v@.subrange(i as int, v@.len() as int) =~= Seq::<char>::empty());
        assert(r@ =~= spec_unescape(v@));
    }
    r
}

fn is_escape_code_exec(c: char) -> (r: bool)
    ensures
        r == is_escape_code(c),
{
    c == 'n' || c == 'r' || c == 't' || c == '\\'
}

fn escaped_char_exec(c: char) -> (r: char)
    ensures
        r == escaped_char(c),
{
    if c == 'n' {
        '\n'
    } else if c == 'r' {
        '\r'
    } else if c == 't' {
        '\t'
    } else {
        '\\'
    }
}

/// The characters of `v` from `from` (inclusive) to `to` (exclusive).
pub fn sub_chars(v: &Vec<char>, from: usize, to: usize) -> (r: Vec<char>)
    requires
        from <= to <= v@.len(),
    ensures
        r@ == v@.subrange(from as int, to as int),
{
    let mut r: Vec<char> = Vec::new();
    let mut i = from;
    while i < to
        invariant
            from <= i <= to <= v@.len(),
            r@ == v@.subrange(from as int, i as int),
        decreases to - i,
    {
        let c = v[i];
        r.push(c);
        i = i + 1;
        proof {
            assert(r@ =~= v@.subrange(from as int, i as int));
        }
    }
    r
}

/// The decimal digit character for `d`.
pub open spec fn digit_char(d: nat) -> char {
    if d == 0 {
        '0'
    } else if d == 1 {
        '1'
    } else if d == 2 {
        '2'
    } else if d == 3 {
        '3'
    } else if d == 4 {
        '4'
    } else if d == 5 {
        '5'
    } else if d == 6 {
        '6'
    } else if d == 7 {
        '7'
    } else if d == 8 {
        '8'
    } else {
        '9'
    }
}

/// The decimal digits of `n`, most significant first.
pub open spec fn spec_digits(n: nat) -> Seq<char>
    decreases n,
{
    if n < 10 {
        seq![digit_char(n)]
    } else {
        spec_digits(n / 10) + seq![digit_char(n % 10)]
    }
}

pub fn digit_char_exec(d: u64) -> (c: char)
    requires
        d < 10,
    ensures
        c == digit_char(d as nat),
{
    if d == 0 {
        '0'
    } else if d == 1 {
        '1'
    } else if d == 2 {
        '2'
    } else if d == 3 {
        '3'
    } else if d == 4 {
        '4'
    } else if d == 5 {
        '5'
    } else if d == 6 {
        '6'
    } else if d == 7 {
        '7'
    } else if d == 8 {
        '8'
    } else {
        '9'
    }
}

/// Appends the decimal digits of `n`, most significant first.
pub fn push_digits(n: u64, out: &mut Vec<char>)
    ensures
        final(out)@ == old(out)@ + spec_digits(n as nat),
    decreases n,
{
    if n < 10 {
        out.push(digit_char_exec(n));
        proof {
            assert(out@ =~= old(out)@ + spec_digits(n as nat));
        }
    } else {
        push_digits(n / 10, out);
        out.push(digit_char_exec(n % 10));
        proof {
            assert(out@ =~= old(out)@ + spec_digits(n as nat));
        }
    }
}

/// Appends the characters of `src`.
pub fn append_chars(dst: &mut Vec<char>, src: &Vec<char>)
    ensures
        final(dst)@ == old(dst)@ + src@,
{
    let mut i: usize = 0;
    while i < src.len()
        invariant
            0 <= i <= src@.len(),
            dst@ == old(dst)@ + src@.take(i as int),
        decreases src@.len() - i,
    {
        let c = src[i];
        dst.push(c);
        i = i + 1;
        proof {
            assert(dst@ =~= old(dst)@ + src@.take(i as int));
        }
    }
    proof {
        assert(dst@ =~= old(dst)@ + src@);
    }
}

/// A report line for one labelled optional value.
pub open spec fn item_opt_labeled(label: Seq<char>, v: Option<String>) -> Seq<Seq<char>> {
    match v {
        Some(s) => seq![label + s@],
        None => Seq::empty(),
    }
}

/// Appends `<label><value>` when the value is present.
pub fn push_labeled(out: &mut Vec<String>, label: &str, value: &Option<String>)
    ensures
        final(out).deep_view() == old(out).deep_view() + item_opt_labeled(label@, *value),
{
    match value {
        Some(v) => {
            let mut s = label.to_owned();
            s.append(v.as_str());
            out.push(s);
            proof {
                assert(out.deep_view() =~= old(out).deep_view() + item_opt_labeled(
                    label@,
                    *value,
                ));
            }
        },
        None => {
            proof {
                assert(out.deep_view() =~= old(out).deep_view() + item_opt_labeled(
                    label@,
                    *value,
                ));
            }
        },
    }
}

/// Appends every line of `src`.
#[verifier::loop_isolation(false)]
pub fn append_report(dst: &mut Vec<String>, src: Vec<String>)
    ensures
        final(dst).deep_view() == old(dst).deep_view() + src.deep_view(),
{
    let ghost base = dst.deep_view();
    let mut i: usize = 0;
    while i < src.len()
        invariant
            0 <= i <= src@.len(),
            dst.deep_view() == base + src.deep_view().take(i as int),
        decreases src@.len() - i,
    {
        let elem = src[i].clone();
        proof {
            assert(elem@ == src@[i as int]@);
            assert(src.deep_view().take(i + 1) =~= src.deep_view().take(i as int).push(elem@));
        }
        let ghost pre_deep = dst.deep_view();
        dst.push(elem);
        i = i + 1;
        proof {
            assert(dst.deep_view() =~= pre_deep.push(elem@));
            assert(dst.deep_view() =~= base + src.deep_view().take(i as int));
        }
    }
    proof {
        assert(dst.deep_view() =~= base + src.deep_view());
        assert(base == old(dst).deep_view());
    }
}

} // verus!
