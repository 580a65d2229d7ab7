//! Classification of input files into the coarse format categories that drive
//! handler dispatch. The category is a pure function of the path's extension,
//! compared case-insensitively (ASCII).
use vstd::prelude::*;

use crate::text::str_chars;

verus! {

broadcast use vstd::string::group_string_axioms;

/// The coarse format category of an input file.
#[derive(Debug, Clone, Copy, PartialEq, Eq, Structural)]
pub enum FileType {
    Image,
    Video,
    PDF,
    Unknown,
}

/// `c` equals the expected character `l`, ignoring case: when `l` is a
/// lower-case ASCII letter, `c` may also be its upper-case form, 32 code
/// points below; any other `l` (a digit, say) must match exactly.
pub open spec fn eq_lower(c: char, l: char) -> bool {
    c == l || ('a' <= l && l <= 'z' && c as u32 == l as u32 - 32)
}

/// `i` is the position of the last occurrence of `c` in `s`.
pub open spec fn is_last_pos(s: Seq<char>, c: char, i: int) -> bool {
    &&& 0 <= i < s.len()
    &&& s[i] == c
    &&& forall|j: int| i < j < s.len() ==> s[j] != c
}

/// Index where the file name begins: right after the last path separator,
/// or 0 when the path holds none.
pub open spec fn name_start(p: Seq<char>) -> int {
    if exists|i: int| is_last_pos(p, '/', i) {
        (choose|i: int| is_last_pos(p, '/', i)) + 1
    } else {
        0
    }
}

/// The path has an extension: a '.' strictly inside the file name, so that
/// the part of the name before it is not empty.
pub open spec fn has_extension(p: Seq<char>) -> bool {
    exists|i: int| is_last_pos(p, '.', i) && i > name_start(p)
}

/// The characters after the last '.' of the file name.
pub open spec fn extension_of(p: Seq<char>) -> Seq<char>
    recommends
        has_extension(p),
{
    let i = choose|i: int| is_last_pos(p, '.', i) && i > name_start(p);
    p.subrange(i + 1, p.len() as int)
}

pub open spec fn is_image_ext(e: Seq<char>) -> bool {
    ||| (e.len() == 3 && eq_lower(e[0], 'j') && eq_lower(e[1], 'p') && eq_lower(e[2], 'g'))
    ||| (e.len() == 4 && eq_lower(e[0], 'j') && eq_lower(e[1], 'p') && eq_lower(e[2], 'e')
        && eq_lower(e[3], 'g'))
    ||| (e.len() == 3 && eq_lower(e[0], 'p') && eq_lower(e[1], 'n') && eq_lower(e[2], 'g'))
    ||| (e.len() == 3 && eq_lower(e[0], 'g') && eq_lower(e[1], 'i') && eq_lower(e[2], 'f'))
    ||| (e.len() == 3 && eq_lower(e[0], 'b') && eq_lower(e[1], 'm') && eq_lower(e[2], 'p'))
    ||| (e.len() == 4 && eq_lower(e[0], 't') && eq_lower(e[1], 'i') && eq_lower(e[2], 'f')
        && eq_lower(e[3], 'f'))
}

pub open spec fn is_video_ext(e: Seq<char>) -> bool {
    ||| (e.len() == 3 && eq_lower(e[0], 'm') && eq_lower(e[1], 'p') && eq_lower(e[2], '4'))
    ||| (e.len() == 3 && eq_lower(e[0], 'm') && eq_lower(e[1], 'o') && eq_lower(e[2], 'v'))
    ||| (e.len() == 3 && eq_lower(e[0], 'a') && eq_lower(e[1], 'v') && eq_lower(e[2], 'i'))
    ||| (e.len() == 3 && eq_lower(e[0], 'm') && eq_lower(e[1], 'k') && eq_lower(e[2], 'v'))
}

pub open spec fn is_pdf_ext(e: Seq<char>) -> bool {
    e.len() == 3 && eq_lower(e[0], 'p') && eq_lower(e[1], 'd') && eq_lower(e[2], 'f')
}

/// The category of a path: decided by its extension alone, with no error
/// path — a path without a recognized extension is `Unknown`.
pub open spec fn spec_classify(p: Seq<char>) -> FileType {
    if has_extension(p) {
        let e = extension_of(p);
        if is_image_ext(e) {
            FileType::Image
        } else if is_video_ext(e) {
            FileType::Video
        } else if is_pdf_ext(e) {
            FileType::PDF
        } else {
            FileType::Unknown
        }
    } else {
        FileType::Unknown
    }
}

/// Two positions that are both the last occurrence of `c` coincide.
pub proof fn lemma_last_pos_unique(s: Seq<char>, c: char, i: int, j: int)
    requires
        is_last_pos(s, c, i),
        is_last_pos(s, c, j),
    ensures
        i == j,
{
    if i < j {
        assert(s[j] != c);
    } else if j < i {
        assert(s[i] != c);
    }
}

/// The classifier is a pure, total function of the path: every path is mapped
/// to exactly one category, and equal paths are always mapped to the same one.
pub proof fn lemma_classify_deterministic(p1: Seq<char>, p2: Seq<char>)
    requires
        p1 == p2,
    ensures
        spec_classify(p1) == spec_classify(p2),
        spec_classify(p1) is Image || spec_classify(p1) is Video || spec_classify(p1) is PDF
            || spec_classify(p1) is Unknown,
{
}

/// Position of the last occurrence of `c` in `v`, if any.
fn find_last(v: &Vec<char>, c: char) -> (r: Option<usize>)
    ensures
        match r {
            Some(i) => is_last_pos(v@, c, i as int),
            None => forall|j: int| 0 <= j < v@.len() ==> v@[j] != c,
        },
{
    let mut i: usize = v.len();
    while i > 0
        invariant
            i <= v@.len(),
            forall|j: int| i <= j < v@.len() ==> v@[j] != c,
        decreases i,
    {
        i = i - 1;
        if v[i] == c {
            return Some(i);
        }
    }
    None
}

pub(crate) fn eq_lower_exec(c: char, l: char) -> (r: bool)
    ensures
        r == eq_lower(c, l),
{
    c == l || ('a' <= l && l <= 'z' && c as u32 == l as u32 - 32)
}

/// The characters of `v` from position `from` to the end.
fn tail_chars(v: &Vec<char>, from: usize) -> (r: Vec<char>)
    requires
        from <= v@.len(),
    ensures
        r@ == v@.subrange(from as int, v@.len() as int),
{
    let mut r: Vec<char> = Vec::new();
    let mut i: usize = from;
    while i < v.len()
        invariant
            from <= i <= v@.len(),
            r@ == v@.subrange(from as int, i as int),
        decreases v@.len() - i,
    {
        let c = v[i];
        r.push(c);
        i = i + 1;
        proof {
            assert(r@ =~= v@.subrange(from as int, i as int));
        }
    }
    r
}

fn is_image_ext_exec(e: &Vec<char>) -> (r: bool)
    ensures
        r == is_image_ext(e@),
{
    if e.len() == 3 {
        (eq_lower_exec(e[0], 'j') && eq_lower_exec(e[1], 'p') && eq_lower_exec(e[2], 'g'))
            || (eq_lower_exec(e[0], 'p') && eq_lower_exec(e[1], 'n') && eq_lower_exec(e[2], 'g'))
            || (eq_lower_exec(e[0], 'g') && eq_lower_exec(e[1], 'i') && eq_lower_exec(e[2], 'f'))
            || (eq_lower_exec(e[0], 'b') && eq_lower_exec(e[1], 'm') && eq_lower_exec(e[2], 'p'))
    } else if e.len() == 4 {
        (eq_lower_exec(e[0], 'j') && eq_lower_exec(e[1], 'p') && eq_lower_exec(e[2], 'e')
            && eq_lower_exec(e[3], 'g')) || (eq_lower_exec(e[0], 't') && eq_lower_exec(e[1], 'i')
            && eq_lower_exec(e[2], 'f') && eq_lower_exec(e[3], 'f'))
    } else {
        false
    }
}

fn is_video_ext_exec(e: &Vec<char>) -> (r: bool)
    ensures
        r == is_video_ext(e@),
{
    e.len() == 3 && ((eq_lower_exec(e[0], 'm') && eq_lower_exec(e[1], 'p') && eq_lower_exec(
        e[2],
        '4',
    )) || (eq_lower_exec(e[0], 'm') && eq_lower_exec(e[1], 'o') && eq_lower_exec(e[2], 'v')) || (
    eq_lower_exec(e[0], 'a') && eq_lower_exec(e[1], 'v') && eq_lower_exec(e[2], 'i')) || (
    eq_lower_exec(e[0], 'm') && eq_lower_exec(e[1], 'k') && eq_lower_exec(e[2], 'v')))
}

fn is_pdf_ext_exec(e: &Vec<char>) -> (r: bool)
    ensures
        r == is_pdf_ext(e@),
{
    e.len() == 3 && eq_lower_exec(e[0], 'p') && eq_lower_exec(e[1], 'd') && eq_lower_exec(
        e[2],
        'f',
    )
}

/// Index where the file name begins in a path's characters.
pub(crate) fn name_start_of(chars: &Vec<char>) -> (start: usize)
    ensures
        start as int == name_start(chars@),
        start <= chars@.len(),
{
    let n = chars.len();
    let slash = find_last(chars, '/');
    let start: usize = match slash {
        Some(i) => i + 1,
        None => 0,
    };
    proof {
        match slash {
            Some(i) => {
                let w = choose|k: int| is_last_pos(chars@, '/', k);
                lemma_last_pos_unique(chars@, '/', w, i as int);
            },
            None => {
                if exists|k: int| is_last_pos(chars@, '/', k) {
                    let w = choose|k: int| is_last_pos(chars@, '/', k);
                    assert(chars@[w] == '/');
                }
            },
        }
        assert(start as int == name_start(chars@));
    }
    start
}

/// The extension of the path's file name: the characters after the last '.'
/// that lies strictly inside the name, if there is one.
pub fn path_extension(path: &str) -> (r: Option<Vec<char>>)
    ensures
        match r {
            Some(e) => has_extension(path@) && e@ == extension_of(path@),
            None => !has_extension(path@),
        },
{
    let chars = str_chars(path);
    let n = chars.len();
    let start = name_start_of(&chars);
    let dot = find_last(&chars, '.');
    if let Some(d) = dot {
        if d > start {
            // the last '.' lies strictly inside the file name: the part of
            // the name before it is not empty, so an extension follows it
            proof {
                assert(d < n);
                assert(is_last_pos(path@, '.', d as int) && d as int > name_start(path@));
                let w = choose|k: int| is_last_pos(path@, '.', k) && k > name_start(path@);
                lemma_last_pos_unique(path@, '.', w, d as int);
            }
            let e = tail_chars(&chars, d + 1);
            return Some(e);
        }
    }
    proof {
        if exists|k: int| is_last_pos(path@, '.', k) && k > name_start(path@) {
            let w = choose|k: int| is_last_pos(path@, '.', k) && k > name_start(path@);
            match dot {
                Some(d) => {
                    lemma_last_pos_unique(path@, '.', w, d as int);
                },
                None => {
                    assert(path@[w] == '.');
                },
            }
        }
        assert(!has_extension(path@));
    }
    None
}

/// Maps a file path to its format category by extension, case-insensitively.
/// Pure and total: no I/O, no error path; a path without a recognized
/// extension yields `Unknown`.
pub fn determine_file_type(path: &str) -> (t: FileType)
    ensures
        t == spec_classify(path@),
{
    match path_extension(path) {
        Some(e) => {
            if is_image_ext_exec(&e) {
                FileType::Image
            } else if is_video_ext_exec(&e) {
                FileType::Video
            } else if is_pdf_ext_exec(&e) {
                FileType::PDF
            } else {
                FileType::Unknown
            }
        },
        None => FileType::Unknown,
    }
}

/// The spec-level name of a category, as shown in reports.
pub open spec fn spec_type_name(t: FileType) -> Seq<char> {
    match t {
        FileType::Image => "Image"@,
        FileType::Video => "Video"@,
        FileType::PDF => "PDF"@,
        FileType::Unknown => "Unknown"@,
    }
}

/// The human-readable name of a format category.
pub fn file_type_to_string(t: &FileType) -> (s: &'static str)
    ensures
        s@ == spec_type_name(*t),
{
    match t {
        FileType::Image => "Image",
        FileType::Video => "Video",
        FileType::PDF => "PDF",
        FileType::Unknown => "Unknown",
    }
}

} // verus!
