//! The report and statistics model: the error taxonomy shared by all format
//! handlers, the per-file outcome, and the aggregate counters derived from a
//! finished batch by a single pure fold.
use vstd::prelude::*;

use crate::classify::FileType;

verus! {

use vstd::string::StringExecFns;

/// Why one file could not be processed. Errors are captured per file and
/// never abort the surrounding batch. The variants carry no file path: the
/// report layer owns the pairing of each path with its error text, so the
/// same value serves every file.
#[derive(Debug, Clone, PartialEq, Eq)]
pub enum ProcessingError {
    /// The extension or category is not handled.
    UnsupportedFormat,
    /// The input of a recognized type could not be decoded.
    DecodeError,
    /// The input of a recognized type could not be parsed.
    ParseError,
    /// A required external tool is missing.
    ToolUnavailable,
    /// The external tool ran and failed; carries its diagnostic text.
    ToolExecutionError(String),
    /// A filesystem read, write or rename failed; carries the description.
    IoError(String),
}

impl ProcessingError {
    /// The user-visible description of the error.
    pub open spec fn spec_message(self) -> Seq<char> {
        match self {
            ProcessingError::UnsupportedFormat => "Unsupported file format"@,
            ProcessingError::DecodeError => "Failed to decode input"@,
            ProcessingError::ParseError => "Failed to parse input"@,
            ProcessingError::ToolUnavailable =>
                "ffmpeg is not installed. Please install ffmpeg to process video files."@,
            ProcessingError::ToolExecutionError(d) => "ffmpeg failed: "@ + d@,
            ProcessingError::IoError(d) => d@,
        }
    }

    /// Renders the error for the final report.
    pub fn message(&self) -> (s: String)
        ensures
            s@ == self.spec_message(),
    {
        match self {
            ProcessingError::UnsupportedFormat => "Unsupported file format".to_owned(),
            ProcessingError::DecodeError => "Failed to decode input".to_owned(),
            ProcessingError::ParseError => "Failed to parse input".to_owned(),
            ProcessingError::ToolUnavailable =>
                "ffmpeg is not installed. Please install ffmpeg to process video files."
                .to_owned(),
            ProcessingError::ToolExecutionError(d) => {
                let mut s = "ffmpeg failed: ".to_owned();
                s.append(d.as_str());
                s
            },
            ProcessingError::IoError(d) => d.clone(),
        }
    }
}

/// The aggregate counters of one batch run: derived purely from the outcome
/// sequence, never maintained by hand.
#[derive(Debug, Clone, Copy, PartialEq, Eq, Structural)]
pub struct ProcessingStats {
    pub files_processed: usize,
    pub files_failed: usize,
    pub metadata_items_removed: u64,
    pub images: usize,
    pub videos: usize,
    pub pdfs: usize,
    pub unknown: usize,
}

impl ProcessingStats {
    pub open spec fn spec_zero() -> ProcessingStats {
        ProcessingStats {
            files_processed: 0,
            files_failed: 0,
            metadata_items_removed: 0,
            images: 0,
            videos: 0,
            pdfs: 0,
            unknown: 0,
        }
    }

    /// All-zero counters, the fold's starting point.
    pub fn zero() -> (r: ProcessingStats)
        ensures
            r == ProcessingStats::spec_zero(),
    {
        ProcessingStats {
            files_processed: 0,
            files_failed: 0,
            metadata_items_removed: 0,
            images: 0,
            videos: 0,
            pdfs: 0,
            unknown: 0,
        }
    }
}

/// `a + b`, capped at the largest representable count.
pub open spec fn sat_add_u64(a: u64, b: nat) -> u64 {
    if a + b > u64::MAX {
        u64::MAX
    } else {
        (a + b) as u64
    }
}

/// The counters after accounting one more file: its category count rises by
/// one, a successful outcome counts as processed and contributes its number
/// of removed items, a failed outcome counts as failed.
pub open spec fn spec_stats_step(
    st: ProcessingStats,
    t: FileType,
    outcome: Result<Vec<String>, ProcessingError>,
) -> ProcessingStats
    recommends
        st.files_processed + st.files_failed < usize::MAX,
        st.images + st.videos + st.pdfs + st.unknown < usize::MAX,
{
    let st1 = match t {
        FileType::Image => ProcessingStats { images: (st.images + 1) as usize, ..st },
        FileType::Video => ProcessingStats { videos: (st.videos + 1) as usize, ..st },
        FileType::PDF => ProcessingStats { pdfs: (st.pdfs + 1) as usize, ..st },
        FileType::Unknown => ProcessingStats { unknown: (st.unknown + 1) as usize, ..st },
    };
    match outcome {
        Ok(items) => ProcessingStats {
            files_processed: (st1.files_processed + 1) as usize,
            metadata_items_removed: sat_add_u64(st1.metadata_items_removed, items@.len()),
            ..st1
        },
        Err(_) => ProcessingStats { files_failed: (st1.files_failed + 1) as usize, ..st1 },
    }
}

/// The counters of a whole outcome sequence: a fold of `spec_stats_step`
/// over it, in order, starting from zero.
pub open spec fn spec_stats(s: Seq<(FileType, Result<Vec<String>, ProcessingError>)>)
    -> ProcessingStats
    decreases s.len(),
{
    if s.len() == 0 {
        ProcessingStats::spec_zero()
    } else {
        spec_stats_step(spec_stats(s.drop_last()), s.last().0, s.last().1)
    }
}

/// Every file is counted exactly once: the processed and failed counts sum
/// to the number of outcomes, and so do the per-category counts.
pub proof fn lemma_stats_counts(s: Seq<(FileType, Result<Vec<String>, ProcessingError>)>)
    requires
        s.len() <= usize::MAX,
    ensures
        spec_stats(s).files_processed + spec_stats(s).files_failed == s.len(),
        spec_stats(s).images + spec_stats(s).videos + spec_stats(s).pdfs + spec_stats(
            s,
        ).unknown == s.len(),
    decreases s.len(),
{
    if s.len() > 0 {
        lemma_stats_counts(s.drop_last());
    }
}

/// Stats derivation is idempotent: the counters are a pure function of the
/// outcome sequence, so recomputing them from the same sequence yields
/// identical values.
pub proof fn lemma_stats_deterministic(
    s1: Seq<(FileType, Result<Vec<String>, ProcessingError>)>,
    s2: Seq<(FileType, Result<Vec<String>, ProcessingError>)>,
)
    requires
        s1 == s2,
    ensures
        spec_stats(s1) == spec_stats(s2),
{
}

/// Folds the outcome sequence of a finished batch into its aggregate
/// counters, exactly once, after all processing is done.
pub fn aggregate_stats(results: &Vec<(FileType, Result<Vec<String>, ProcessingError>)>) -> (st:
    ProcessingStats)
    ensures
        st == spec_stats(results@),
{
    let mut st = ProcessingStats::zero();
    let n = results.len();
    let mut i: usize = 0;
    proof {
        assert(results@.take(0) =~= Seq::empty());
    }
    while i < n
        invariant
            0 <= i <= n == results@.len(),
            st == spec_stats(results@.take(i as int)),
        decreases n - i,
    {
        proof {
            lemma_stats_counts(results@.take(i as int));
            assert(results@.take(i + 1).drop_last() =~= results@.take(i as int));
            assert(results@.take(i + 1).last() == results@[i as int]);
        }
        let entry = &results[i];
        match &entry.0 {
            FileType::Image => {
                st.images = st.images + 1;
            },
            FileType::Video => {
                st.videos = st.videos + 1;
            },
            FileType::PDF => {
                st.pdfs = st.pdfs + 1;
            },
            FileType::Unknown => {
                st.unknown = st.unknown + 1;
            },
        }
        match &entry.1 {
            Ok(items) => {
                st.files_processed = st.files_processed + 1;
                let extra = items.len() as u64;
                if u64::MAX - st.metadata_items_removed <= extra {
                    st.metadata_items_removed = u64::MAX;
                } else {
                    st.metadata_items_removed = st.metadata_items_removed + extra;
                }
            },
            Err(_) => {
                st.files_failed = st.files_failed + 1;
            },
        }
        i = i + 1;
    }
    proof {
        assert(results@.take(n as int) =~= results@);
    }
    st
}

} // verus!
