//! PDF metadata handling. Extraction is a tolerant, non-parsing heuristic:
//! the document text is scanned for the well-known info-dictionary keys, and
//! each value is read out of the surrounding syntax (parenthesis-delimited
//! with nesting, or name-delimited up to the next `/`). True structural
//! removal would mean rewriting the document's object graph, which is out of
//! scope: stripping degrades, deliberately, to a byte-for-byte copy, so
//! metadata is reported but not removed.
use vstd::prelude::*;

use crate::text::{
    chars_to_string, find_first, first_non_space, first_pos_from, has_match, is_first_match,
    item_opt_seq, lemma_first_match_unique, matches_at, spec_trim, spec_unescape, str_chars,
    skip_spaces, sub_chars, trim_chars, unescape_chars,
};

verus! {

use vstd::string::StringExecFns;

broadcast use vstd::string::group_string_axioms;

/// Where a parenthesis-delimited value that starts at `i` with `depth` open
/// parentheses ends: the index of the parenthesis that closes the value, or
/// the end of the text when the value is unterminated.
pub open spec fn paren_end(c: Seq<char>, i: int, depth: int) -> int
    decreases c.len() - i,
{
    if i < 0 || i >= c.len() {
        c.len() as int
    } else if c[i] == '(' {
        paren_end(c, i + 1, depth + 1)
    } else if c[i] == ')' {
        if depth <= 1 {
            i
        } else {
            paren_end(c, i + 1, depth - 1)
        }
    } else {
        paren_end(c, i + 1, depth)
    }
}

pub proof fn lemma_paren_end_bounds(c: Seq<char>, i: int, depth: int)
    requires
        0 <= i <= c.len(),
    ensures
        i <= paren_end(c, i, depth) <= c.len(),
    decreases c.len() - i,
{
    if i < c.len() {
        if c[i] == '(' {
            lemma_paren_end_bounds(c, i + 1, depth + 1);
        } else if c[i] == ')' {
            if depth > 1 {
                lemma_paren_end_bounds(c, i + 1, depth - 1);
            }
        } else {
            lemma_paren_end_bounds(c, i + 1, depth);
        }
    }
}

pub proof fn lemma_first_pos_bounds(c: Seq<char>, from: int, ch: char)
    requires
        0 <= from <= c.len(),
    ensures
        from <= first_pos_from(c, from, ch) <= c.len(),
    decreases c.len() - from,
{
    if from < c.len() && c[from] != ch {
        lemma_first_pos_bounds(c, from + 1, ch);
    }
}

/// The raw (untrimmed, still escaped) value that follows a metadata key
/// ending at `start`: after any whitespace, either the inside of a
/// parenthesis-delimited string (nested parentheses tracked by depth), the
/// empty value when a `/` name delimiter follows at once, or everything up to
/// the next `/`.
pub open spec fn spec_value_after(c: Seq<char>, start: int) -> Seq<char> {
    let v = first_non_space(c, start);
    if v >= c.len() {
        Seq::empty()
    } else if c[v] == '(' {
        c.subrange(v + 1, paren_end(c, v + 1, 1))
    } else if c[v] == '/' {
        Seq::empty()
    } else {
        c.subrange(v, first_pos_from(c, v + 1, '/'))
    }
}

/// The report line for one metadata key, if the key occurs in the text and
/// its value, once trimmed, is not empty: `<display>: <value>`, with the
/// value unescaped.
pub open spec fn spec_field_item(c: Seq<char>, key: Seq<char>, display: Seq<char>) -> Option<
    Seq<char>,
> {
    if has_match(c, key) {
        let pos = choose|i: int| is_first_match(c, key, i);
        let trimmed = spec_trim(spec_value_after(c, pos + key.len()));
        if trimmed.len() > 0 {
            Some(display + ": "@ + spec_unescape(trimmed))
        } else {
            None
        }
    } else {
        None
    }
}

/// Index of the first occurrence of `ch` at or after `from`.
fn find_char_from(c: &Vec<char>, from: usize, ch: char) -> (r: usize)
    requires
        from <= c@.len(),
    ensures
        r == first_pos_from(c@, from as int, ch),
        from <= r <= c@.len(),
{
    let mut i = from;
    while i < c.len() && c[i] != ch
        invariant
            from <= i <= c@.len(),
            first_pos_from(c@, from as int, ch) == first_pos_from(c@, i as int, ch),
        decreases c@.len() - i,
    {
        i = i + 1;
    }
    i
}

/// Index of the parenthesis closing a value that starts at `from` with one
/// open parenthesis, or the end of the text.
fn paren_scan(c: &Vec<char>, from: usize) -> (end: usize)
    requires
        from <= c@.len(),
    ensures
        end == paren_end(c@, from as int, 1),
        from <= end <= c@.len(),
{
    let mut i = from;
    let mut depth: u128 = 1;
    let n = c.len();
    while i < n
        invariant
            from <= i <= n == c@.len(),
            n <= usize::MAX,
            1 <= depth <= i - from + 1,
            paren_end(c@, from as int, 1) == paren_end(c@, i as int, depth as int),
        decreases n - i,
    {
        if c[i] == '(' {
            depth = depth + 1;
        } else if c[i] == ')' {
            if depth == 1 {
                return i;
            }
            depth = depth - 1;
        }
        i = i + 1;
    }
    i
}

/// Searches `content` for `field_name` and, when the key is present with a
/// non-empty value, appends `<display_name>: <value>` to `metadata`; the
/// value is read by the delimiter rules above, trimmed and unescaped. When
/// the key is absent or its value empty, `metadata` is left unchanged.
pub fn extract_metadata_field(
    content: &Vec<char>,
    field_name: &str,
    metadata: &mut Vec<String>,
    display_name: &str,
)
    requires
        field_name@.len() >= 1,
    ensures
        final(metadata).deep_view() == old(metadata).deep_view() + item_opt_seq(
            spec_field_item(content@, field_name@, display_name@),
        ),
{
    let ghost pre = metadata.deep_view();
    let pat = str_chars(field_name);
    let n = content.len();
    let found = find_first(content, &pat);
    match found {
        Some(pos) => {
            proof {
                let w = choose|i: int| is_first_match(content@, field_name@, i);
                lemma_first_match_unique(content@, field_name@, w, pos as int);
            }
            let start = pos + pat.len();
            let v = skip_spaces(content, start);
            let raw: Vec<char> = if v >= n {
                Vec::new()
            } else if content[v] == '(' {
                proof {
                    lemma_paren_end_bounds(content@, v + 1, 1);
                }
                let end = paren_scan(content, v + 1);
                sub_chars(content, v + 1, end)
            } else if content[v] == '/' {
                Vec::new()
            } else {
                proof {
                    lemma_first_pos_bounds(content@, v + 1, '/');
                }
                let end = find_char_from(content, v + 1, '/');
                sub_chars(content, v, end)
            };
            proof {
                assert(raw@ =~= spec_value_after(content@, start as int));
            }
            let trimmed = trim_chars(&raw);
            if trimmed.len() > 0 {
                let unescaped = unescape_chars(&trimmed);
                let value = chars_to_string(&unescaped);
                let mut item = display_name.to_owned();
                item.append(": ");
                item.append(value.as_str());
                metadata.push(item);
                proof {
                    assert(metadata.deep_view() =~= pre + item_opt_seq(
                        spec_field_item(content@, field_name@, display_name@),
                    ));
                }
            } else {
                proof {
                    assert(metadata.deep_view() =~= pre + item_opt_seq(
                        spec_field_item(content@, field_name@, display_name@),
                    ));
                }
            }
        },
        None => {
            proof {
                if has_match(content@, field_name@) {
                    let w = choose|i: int| is_first_match(content@, field_name@, i);
                    assert(matches_at(content@, field_name@, w));
                }
                assert(metadata.deep_view() =~= pre + item_opt_seq(
                    spec_field_item(content@, field_name@, display_name@),
                ));
            }
        },
    }
}

/// The report lines for the eight well-known info-dictionary keys, in their
/// fixed scan order.
pub open spec fn spec_pdf_items(c: Seq<char>) -> Seq<Seq<char>> {
    item_opt_seq(spec_field_item(c, "/Title"@, "Title"@)) + item_opt_seq(
        spec_field_item(c, "/Author"@, "Author"@),
    ) + item_opt_seq(spec_field_item(c, "/Subject"@, "Subject"@)) + item_opt_seq(
        spec_field_item(c, "/Keywords"@, "Keywords"@),
    ) + item_opt_seq(spec_field_item(c, "/Creator"@, "Creator"@)) + item_opt_seq(
        spec_field_item(c, "/Producer"@, "Producer"@),
    ) + item_opt_seq(spec_field_item(c, "/CreationDate"@, "Creation Date"@)) + item_opt_seq(
        spec_field_item(c, "/ModDate"@, "Modification Date"@),
    )
}

/// Scans the text of a PDF for the eight well-known metadata keys and
/// returns one report line per key found with a non-empty value.
pub fn extract_pdf_metadata_simple(content: &Vec<char>) -> (metadata: Vec<String>)
    ensures
        metadata.deep_view() == spec_pdf_items(content@),
{
    let mut metadata: Vec<String> = Vec::new();
    proof {
        assert(metadata.deep_view() =~= Seq::<Seq<char>>::empty());
        reveal_strlit("/Title");
        reveal_strlit("/Author");
        reveal_strlit("/Subject");
        reveal_strlit("/Keywords");
        reveal_strlit("/Creator");
        reveal_strlit("/Producer");
        reveal_strlit("/CreationDate");
        reveal_strlit("/ModDate");
    }
    extract_metadata_field(content, "/Title", &mut metadata, "Title");
    extract_metadata_field(content, "/Author", &mut metadata, "Author");
    extract_metadata_field(content, "/Subject", &mut metadata, "Subject");
    extract_metadata_field(content, "/Keywords", &mut metadata, "Keywords");
    extract_metadata_field(content, "/Creator", &mut metadata, "Creator");
    extract_metadata_field(content, "/Producer", &mut metadata, "Producer");
    extract_metadata_field(content, "/CreationDate", &mut metadata, "Creation Date");
    extract_metadata_field(content, "/ModDate", &mut metadata, "Modification Date");
    proof {
        assert(metadata.deep_view() =~= spec_pdf_items(content@));
    }
    metadata
}

/// The generic placeholder lines reported when no key is found.
pub open spec fn spec_pdf_fallback() -> Seq<Seq<char>> {
    seq![
        "Author (if present)"@,
        "Creator (if present)"@,
        "Producer (if present)"@,
        "CreationDate (if present)"@,
        "ModDate (if present)"@,
        "Title (if present)"@,
        "Subject (if present)"@,
        "Keywords (if present)"@,
    ]
}

fn pdf_fallback_items() -> (r: Vec<String>)
    ensures
        r.deep_view() == spec_pdf_fallback(),
{
    let mut v: Vec<String> = Vec::new();
    v.push("Author (if present)".to_owned());
    v.push("Creator (if present)".to_owned());
    v.push("Producer (if present)".to_owned());
    v.push("CreationDate (if present)".to_owned());
    v.push("ModDate (if present)".to_owned());
    v.push("Title (if present)".to_owned());
    v.push("Subject (if present)".to_owned());
    v.push("Keywords (if present)".to_owned());
    proof {
        assert(v.deep_view() =~= spec_pdf_fallback());
    }
    v
}

/// The characters that `String::from_utf8_lossy` of std decodes from the
/// given bytes; a pure function of the bytes alone.
pub uninterp spec fn lossy_utf8(b: Seq<u8>) -> Seq<char>;

/// Relies on `String::from_utf8_lossy` of std: decodes the bytes as UTF-8,
/// substituting the replacement character for invalid sequences; the result
/// depends on the bytes alone.
#[verifier::external_body]
fn lossy_decode(b: &Vec<u8>) -> (s: String)
    ensures
        s@ == lossy_utf8(b@),
{
    String::from_utf8_lossy(b).into_owned()
}

/// The full report for a PDF: the lines for the keys found, or the generic
/// placeholder lines when none is found.
pub open spec fn spec_pdf_report(c: Seq<char>) -> Seq<Seq<char>> {
    if spec_pdf_items(c).len() == 0 {
        spec_pdf_fallback()
    } else {
        spec_pdf_items(c)
    }
}

fn copy_bytes(b: &Vec<u8>) -> (r: Vec<u8>)
    ensures
        r@ == b@,
{
    let mut r: Vec<u8> = Vec::new();
    let mut i: usize = 0;
    while i < b.len()
        invariant
            0 <= i <= b@.len(),
            r@ == b@.take(i as int),
        decreases b@.len() - i,
    {
        r.push(b[i]);
        i = i + 1;
        proof {
            assert(r@ =~= b@.take(i as int));
        }
    }
    proof {
        assert(r@ =~= b@);
    }
    r
}

/// Reports the metadata found in a PDF's bytes and produces the output
/// bytes. Structural removal of the info dictionary is out of scope for the
/// heuristic approach, so the output is a byte-for-byte copy of the input:
/// metadata is reported, not removed.
pub fn strip_pdf_metadata(input: &Vec<u8>) -> (r: (Vec<u8>, Vec<String>))
    ensures
        r.0@ == input@,
        r.1.deep_view() == spec_pdf_report(lossy_utf8(input@)),
{
    let text = lossy_decode(input);
    let chars = str_chars(text.as_str());
    let mut report = extract_pdf_metadata_simple(&chars);
    if report.len() == 0 {
        proof {
            assert(report.deep_view().len() == 0);
        }
        report = pdf_fallback_items();
    }
    let output = copy_bytes(input);
    (output, report)
}

} // verus!
