//! The batch orchestrator's decisions: which files a type filter admits,
//! where a file's output goes, what one file's outcome is from the gathered
//! per-file facts, and the index-preserving processing of a whole batch.
//! Every file yields exactly one outcome; one file's failure never changes
//! another file's result.
use vstd::prelude::*;

use crate::classify::{FileType, name_start, name_start_of};
use crate::image::{exif_fields_match, spec_exif_report, spec_image_fallback, spec_image_kind,
    ExifFields, exif_parses, image_decodes, image_reencoded, image_reencodes,
    strip_image_metadata};
use crate::pdf::{lossy_utf8, spec_pdf_report, strip_pdf_metadata};
use crate::report::ProcessingError;
use crate::text::{chars_to_string, opt_str_view, str_chars, sub_chars};
use crate::video::{spec_probe_report, video_strip_outcome};

verus! {

broadcast use vstd::string::group_string_axioms;

/// One classified input file: its path and its format category, fixed at
/// classification and never changed afterwards.
#[derive(Debug, Clone)]
pub struct FileDescriptor {
    pub path: String,
    pub file_type: FileType,
}

/// The read-only configuration of one batch run.
#[derive(Debug, Clone)]
pub struct Config {
    pub overwrite: bool,
    pub output_dir: Option<String>,
    pub backup: bool,
    pub dry_run: bool,
    pub only_images: bool,
    pub only_videos: bool,
    pub only_pdfs: bool,
}

/// Whether the run's type filter admits a file of this category: with a
/// filter set, only that category; otherwise every supported category.
pub open spec fn spec_should_process(t: FileType, c: Config) -> bool {
    if c.only_images {
        t is Image
    } else if c.only_videos {
        t is Video
    } else if c.only_pdfs {
        t is PDF
    } else {
        !(t is Unknown)
    }
}

/// Decides whether the configured type filter admits this file category.
pub fn should_process_file_type(t: &FileType, c: &Config) -> (r: bool)
    ensures
        r == spec_should_process(*t, *c),
{
    if c.only_images {
        *t == FileType::Image
    } else if c.only_videos {
        *t == FileType::Video
    } else if c.only_pdfs {
        *t == FileType::PDF
    } else {
        !(*t == FileType::Unknown)
    }
}

/// The file-name part of a path: everything after the last separator.
pub open spec fn file_name_of(p: Seq<char>) -> Seq<char> {
    p.subrange(name_start(p), p.len() as int)
}

/// The directory part of a path: everything before the last separator, or
/// nothing when the path has none.
pub open spec fn parent_of(p: Seq<char>) -> Seq<char> {
    if name_start(p) > 0 {
        p.subrange(0, name_start(p) - 1)
    } else {
        Seq::empty()
    }
}

/// A directory joined with a file name: the two with one separator between
/// them; an empty directory contributes nothing.
pub open spec fn join_path(dir: Seq<char>, name: Seq<char>) -> Seq<char> {
    if dir.len() == 0 {
        name
    } else if dir.last() == '/' {
        dir + name
    } else {
        dir + seq!['/'] + name
    }
}

/// Where the cleaned file goes: over the original when overwriting,
/// otherwise under the configured output directory, or beside the input when
/// none is configured.
pub open spec fn spec_output_path(path: Seq<char>, c: Config) -> Seq<char> {
    if c.overwrite {
        path
    } else {
        let dir = match c.output_dir {
            Some(d) => d@,
            None => parent_of(path),
        };
        join_path(dir, file_name_of(path))
    }
}

/// Computes the output path for one input file under the configuration.
pub fn output_path_for(path: &str, c: &Config) -> (r: String)
    ensures
        r@ == spec_output_path(path@, *c),
{
    if c.overwrite {
        return path.to_owned();
    }
    let chars = str_chars(path);
    let start = name_start_of(&chars);
    let name = sub_chars(&chars, start, chars.len());
    let dir: Vec<char> = match &c.output_dir {
        Some(d) => str_chars(d.as_str()),
        None => {
            if start > 0 {
                sub_chars(&chars, 0, start - 1)
            } else {
                Vec::new()
            }
        },
    };
    let mut out: Vec<char> = Vec::new();
    if dir.len() == 0 {
        proof {
            assert(name@ =~= join_path(dir@, name@));
        }
        return chars_to_string(&name);
    }
    let mut i: usize = 0;
    while i < dir.len()
        invariant
            0 <= i <= dir@.len(),
            out@ == dir@.take(i as int),
        decreases dir@.len() - i,
    {
        let ch = dir[i];
        out.push(ch);
        i = i + 1;
        proof {
            assert(out@ =~= dir@.take(i as int));
        }
    }
    proof {
        assert(out@ =~= dir@);
    }
    if dir[dir.len() - 1] != '/' {
        out.push('/');
    }
    let mut j: usize = 0;
    let ghost base = out@;
    while j < name.len()
        invariant
            0 <= j <= name@.len(),
            out@ == base + name@.take(j as int),
        decreases name@.len() - j,
    {
        let ch = name[j];
        out.push(ch);
        j = j + 1;
        proof {
            assert(out@ =~= base + name@.take(j as int));
        }
    }
    proof {
        assert(out@ =~= base + name@);
        assert(out@ =~= join_path(dir@, name@));
    }
    chars_to_string(&out)
}

/// The per-file facts gathered for one unit of work, handed to the decision
/// step: an image's or PDF's raw bytes, a video's tool and rewrite facts, or
/// nothing for an unsupported file.
#[derive(Debug, Clone)]
pub enum FileData {
    Image { path: String, content: Vec<u8> },
    Video {
        tool_available: bool,
        probe_output: Option<String>,
        transcode_ok: bool,
        transcode_diagnostic: String,
    },
    Pdf { content: Vec<u8> },
    Unknown,
}

/// The contract of one file's result. In a dry run nothing is produced and
/// the outcome marks a simulated pass; otherwise each format's rules apply,
/// and output bytes exist only for a successful image or PDF strip.
pub open spec fn spec_outcome_ok(
    data: FileData,
    dry_run: bool,
    outcome: Result<Vec<String>, ProcessingError>,
    output: Option<Vec<u8>>,
) -> bool {
    if dry_run {
        &&& output is None
        &&& (outcome matches Ok(items) && items.deep_view() == seq![
            "Dry run - no metadata removed"@,
        ])
    } else {
        match data {
            FileData::Unknown => {
                &&& output is None
                &&& (outcome matches Ok(items) && items.deep_view() == seq![
                    "Unsupported file type - no metadata removed"@,
                ])
            },
            FileData::Pdf { content } => {
                &&& (outcome matches Ok(items) && items.deep_view() == spec_pdf_report(
                    lossy_utf8(content@),
                ))
                &&& (output matches Some(b) && b@ == content@)
            },
            FileData::Image { path, content } => {
                &&& ((outcome matches Err(e) && e is DecodeError) <==> !image_decodes(content@))
                &&& (image_decodes(content@) ==> ((outcome matches Err(e)
                    && e is UnsupportedFormat) <==> spec_image_kind(path@) is None))
                &&& (image_decodes(content@) ==> (spec_image_kind(path@) matches Some(k)
                    ==> (outcome is Ok <==> image_reencodes(content@, k))))
                &&& (outcome is Ok ==> (spec_image_kind(path@) matches Some(k) && (
                output matches Some(b) && b@ == image_reencoded(content@, k))))
                &&& (outcome is Ok <==> output is Some)
                &&& (outcome matches Ok(items) ==> items@.len() >= 1)
                &&& (outcome matches Ok(items) ==> (if exif_parses(content@) {
                    exists|f: ExifFields|
                        f.wf() && exif_fields_match(f, content@) && items.deep_view()
                            == spec_exif_report(f)
                } else {
                    items.deep_view() == spec_image_fallback()
                }))
            },
            FileData::Video { tool_available, probe_output, transcode_ok, transcode_diagnostic } => {
                &&& output is None
                &&& (outcome is Ok <==> (tool_available && transcode_ok))
                &&& (!tool_available ==> (outcome matches Err(e) && e is ToolUnavailable))
                &&& ((tool_available && !transcode_ok) ==> (outcome matches Err(e) && (e matches
                    ProcessingError::ToolExecutionError(d)
                    && d@ == transcode_diagnostic@)))
                &&& (outcome matches Ok(items) ==> items@.len() >= 1 && spec_probe_report(
                    opt_str_view(probe_output),
                    items.deep_view(),
                ))
            },
        }
    }
}

/// In a dry run no input yields output bytes, and every file's outcome is
/// the simulated, non-destructive pass.
pub proof fn lemma_dry_run_non_destructive(
    data: FileData,
    outcome: Result<Vec<String>, ProcessingError>,
    output: Option<Vec<u8>>,
)
    requires
        spec_outcome_ok(data, true, outcome, output),
    ensures
        output is None,
        outcome matches Ok(items) && items.deep_view() == seq!["Dry run - no metadata removed"@],
{
}

/// A video unit whose external tool is missing resolves to `ToolUnavailable`
/// and yields no output bytes, whatever else was gathered.
pub proof fn lemma_missing_tool_untouched(
    probe_output: Option<String>,
    transcode_ok: bool,
    transcode_diagnostic: String,
    outcome: Result<Vec<String>, ProcessingError>,
    output: Option<Vec<u8>>,
)
    requires
        spec_outcome_ok(
            FileData::Video {
                tool_available: false,
                probe_output,
                transcode_ok,
                transcode_diagnostic,
            },
            false,
            outcome,
            output,
        ),
    ensures
        output is None,
        outcome matches Err(e) && e is ToolUnavailable,
{
}

/// The simulated outcome of a dry run: nothing is written for any input.
fn dry_run_outcome() -> (r: Vec<String>)
    ensures
        r.deep_view() == seq!["Dry run - no metadata removed"@],
{
    let mut v: Vec<String> = Vec::new();
    v.push("Dry run - no metadata removed".to_owned());
    proof {
        assert(v.deep_view() =~= seq!["Dry run - no metadata removed"@]);
    }
    v
}

/// The outcome for a file of an unsupported category: reported, never an
/// error.
fn unsupported_outcome() -> (r: Vec<String>)
    ensures
        r.deep_view() == seq!["Unsupported file type - no metadata removed"@],
{
    let mut v: Vec<String> = Vec::new();
    v.push("Unsupported file type - no metadata removed".to_owned());
    proof {
        assert(v.deep_view() =~= seq!["Unsupported file type - no metadata removed"@]);
    }
    v
}

/// Decides one file's outcome from its gathered facts. A dry run touches
/// nothing and reports a simulated pass; otherwise the file's format handler
/// rules decide, and the returned bytes (for an image or PDF) are what the
/// caller may write to the output path.
pub fn process_one(data: &FileData, dry_run: bool) -> (r: (
    Result<Vec<String>, ProcessingError>,
    Option<Vec<u8>>,
))
    ensures
        spec_outcome_ok(*data, dry_run, r.0, r.1),
{
    if dry_run {
        return (Ok(dry_run_outcome()), None);
    }
    match data {
        FileData::Unknown => (Ok(unsupported_outcome()), None),
        FileData::Pdf { content } => {
            let (bytes, items) = strip_pdf_metadata(content);
            (Ok(items), Some(bytes))
        },
        FileData::Image { path, content } => {
            match strip_image_metadata(path.as_str(), content) {
                Ok(p) => (Ok(p.1), Some(p.0)),
                Err(e) => (Err(e), None),
            }
        },
        FileData::Video { tool_available, probe_output, transcode_ok, transcode_diagnostic } => {
            let outcome = video_strip_outcome(
                *tool_available,
                probe_output,
                *transcode_ok,
                transcode_diagnostic.as_str(),
            );
            (outcome, None)
        },
    }
}

/// Processes a whole batch of gathered per-file facts: exactly one outcome
/// per input, at the input's own index, each decided by that input alone —
/// one file's failure cannot cancel or change another file's result.
pub fn process_batch(inputs: &Vec<FileData>, dry_run: bool) -> (r: Vec<
    (Result<Vec<String>, ProcessingError>, Option<Vec<u8>>),
>)
    ensures
        r@.len() == inputs@.len(),
        forall|i: int|
            0 <= i < inputs@.len() ==> spec_outcome_ok(
                inputs@[i],
                dry_run,
                #[trigger] r@[i].0,
                r@[i].1,
            ),
{
    let mut out: Vec<(Result<Vec<String>, ProcessingError>, Option<Vec<u8>>)> = Vec::new();
    let mut i: usize = 0;
    while i < inputs.len()
        invariant
            0 <= i <= inputs@.len(),
            out@.len() == i,
            forall|j: int|
                0 <= j < i ==> spec_outcome_ok(
                    inputs@[j],
                    dry_run,
                    #[trigger] out@[j].0,
                    out@[j].1,
                ),
        decreases inputs@.len() - i,
    {
        let one = process_one(&inputs[i], dry_run);
        out.push(one);
        i = i + 1;
    }
    out
}

} // verus!
