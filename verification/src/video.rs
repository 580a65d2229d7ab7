//! Video metadata handling. The external media tools do the probing and the
//! container rewrite; this module holds the verified parts: walking the
//! structured probe report into plain values, building the human-readable
//! report from them, and the decisions of the strip operation (the tool
//! gate, the degraded fallback report, and the outcome of the rewrite).
use vstd::prelude::*;

use crate::report::ProcessingError;
use crate::text::{
    append_report, chars_to_string, item_opt_labeled, opt_str_view, push_digits, push_labeled,
    spec_digits, str_chars,
};

verus! {

use vstd::string::StringExecFns;

broadcast use vstd::string::group_string_axioms;

/// The plain values read for one stream of the probe report.
#[derive(Debug, Clone)]
pub struct StreamProbe {
    pub codec_type: Option<String>,
    pub codec_name: Option<String>,
    pub width: Option<u64>,
    pub height: Option<u64>,
    pub r_frame_rate: Option<String>,
    pub sample_rate: Option<String>,
    pub channels: Option<u64>,
    pub tags: Vec<(String, String)>,
}

/// The plain values read out of the structured probe report: the container's
/// string-valued tags in report order, the container format name and
/// duration, and the streams.
#[derive(Debug, Clone)]
pub struct VideoProbe {
    pub format_tags: Vec<(String, String)>,
    pub format_name: Option<String>,
    pub duration: Option<String>,
    pub streams: Vec<StreamProbe>,
}

/// `i` is the position of the first tag named `k`.
pub open spec fn is_first_tag(tags: Seq<(String, String)>, k: Seq<char>, i: int) -> bool {
    &&& 0 <= i < tags.len()
    &&& tags[i].0@ == k
    &&& forall|j: int| 0 <= j < i ==> tags[j].0@ != k
}

/// The report line for one container tag: present when the tag exists with a
/// non-empty value.
pub open spec fn spec_tag_item(tags: Seq<(String, String)>, k: Seq<char>, display: Seq<char>)
    -> Seq<Seq<char>> {
    if exists|i: int| is_first_tag(tags, k, i) {
        let i = choose|i: int| is_first_tag(tags, k, i);
        if tags[i].1@.len() > 0 {
            seq![display + ": "@ + tags[i].1@]
        } else {
            Seq::empty()
        }
    } else {
        Seq::empty()
    }
}

/// Two first-tag positions coincide.
pub proof fn lemma_first_tag_unique(tags: Seq<(String, String)>, k: Seq<char>, i: int, j: int)
    requires
        is_first_tag(tags, k, i),
        is_first_tag(tags, k, j),
    ensures
        i == j,
{
    if i < j {
        assert(tags[i].0@ != k);
    } else if j < i {
        assert(tags[j].0@ != k);
    }
}

/// Position of the first tag named `key`, if any.
fn find_tag(tags: &Vec<(String, String)>, key: &String) -> (r: Option<usize>)
    ensures
        match r {
            Some(i) => is_first_tag(tags@, key@, i as int),
            None => forall|j: int| 0 <= j < tags@.len() ==> tags@[j].0@ != key@,
        },
{
    let mut i: usize = 0;
    while i < tags.len()
        invariant
            0 <= i <= tags@.len(),
            forall|j: int| 0 <= j < i ==> tags@[j].0@ != key@,
        decreases tags@.len() - i,
    {
        if tags[i].0 == *key {
            return Some(i);
        }
        i = i + 1;
    }
    None
}

/// Appends `<display>: <value>` when the tag named `key` exists with a
/// non-empty value, as the probe walk does for each conventional tag.
fn push_tag_item(tags: &Vec<(String, String)>, key: &str, display: &str, out: &mut Vec<String>)
    ensures
        final(out).deep_view() == old(out).deep_view() + spec_tag_item(tags@, key@, display@),
{
    let keystr = key.to_owned();
    let found = find_tag(tags, &keystr);
    match found {
        Some(i) => {
            proof {
                let w = choose|n: int| is_first_tag(tags@, key@, n);
                lemma_first_tag_unique(tags@, key@, w, i as int);
            }
            if !tags[i].1.as_str().is_empty() {
                let mut s = display.to_owned();
                s.append(": ");
                s.append(tags[i].1.as_str());
                out.push(s);
                proof {
                    assert(out.deep_view() =~= old(out).deep_view() + spec_tag_item(
                        tags@,
                        key@,
                        display@,
                    ));
                }
            } else {
                proof {
                    assert(out.deep_view() =~= old(out).deep_view() + spec_tag_item(
                        tags@,
                        key@,
                        display@,
                    ));
                }
            }
        },
        None => {
            proof {
                if exists|n: int| is_first_tag(tags@, key@, n) {
                    let w = choose|n: int| is_first_tag(tags@, key@, n);
                    assert(tags@[w].0@ == key@);
                }
                assert(out.deep_view() =~= old(out).deep_view() + spec_tag_item(
                    tags@,
                    key@,
                    display@,
                ));
            }
        },
    }
}

/// The container tag names that the walk reports under conventional display
/// names; any other tag is reported verbatim.
pub open spec fn is_known_tag_key(k: Seq<char>) -> bool {
    ||| k == "title"@
    ||| k == "artist"@
    ||| k == "album"@
    ||| k == "date"@
    ||| k == "creation_time"@
    ||| k == "encoder"@
    ||| k == "handler_name"@
    ||| k == "make"@
    ||| k == "model"@
    ||| k == "location"@
    ||| k == "location-eng"@
    ||| k == "com.apple.quicktime.location.ISO6709"@
}

fn is_known_tag_key_exec(k: &String) -> (r: bool)
    ensures
        r == is_known_tag_key(k@),
{
    *k == "title".to_owned() || *k == "artist".to_owned() || *k == "album".to_owned() || *k
        == "date".to_owned() || *k == "creation_time".to_owned() || *k == "encoder".to_owned()
        || *k == "handler_name".to_owned() || *k == "make".to_owned() || *k
        == "model".to_owned() || *k == "location".to_owned() || *k == "location-eng".to_owned()
        || *k == "com.apple.quicktime.location.ISO6709".to_owned()
}

/// The verbatim lines for the container tags outside the conventional list,
/// in report order.
pub open spec fn spec_extra_items(tags: Seq<(String, String)>) -> Seq<Seq<char>>
    decreases tags.len(),
{
    if tags.len() == 0 {
        Seq::empty()
    } else {
        spec_extra_items(tags.drop_last()) + (if !is_known_tag_key(tags.last().0@) {
            seq![tags.last().0@ + ": "@ + tags.last().1@]
        } else {
            Seq::empty()
        })
    }
}

/// The verbatim lines for the unconventional container tags.
fn extra_tag_items(tags: &Vec<(String, String)>) -> (r: Vec<String>)
    ensures
        r.deep_view() == spec_extra_items(tags@),
{
    let mut out: Vec<String> = Vec::new();
    let mut i: usize = 0;
    proof {
        assert(tags@.take(0) =~= Seq::<(String, String)>::empty());
        assert(out.deep_view() =~= Seq::<Seq<char>>::empty());
        assert(out.deep_view() =~= spec_extra_items(tags@.take(0)));
    }
    while i < tags.len()
        invariant
            0 <= i <= tags@.len(),
            out.deep_view() == spec_extra_items(tags@.take(i as int)),
        decreases tags@.len() - i,
    {
        proof {
            assert(tags@.take(i + 1).drop_last() =~= tags@.take(i as int));
            assert(tags@.take(i + 1).last() == tags@[i as int]);
        }
        if !is_known_tag_key_exec(&tags[i].0) {
            let mut s = tags[i].0.clone();
            s.append(": ");
            s.append(tags[i].1.as_str());
            out.push(s);
            proof {
                assert(out.deep_view() =~= spec_extra_items(tags@.take(i + 1)));
            }
        } else {
            proof {
                assert(out.deep_view() =~= spec_extra_items(tags@.take(i + 1)));
            }
        }
        i = i + 1;
    }
    proof {
        assert(tags@.take(tags@.len() as int) =~= tags@);
    }
    out
}

/// The container-level format lines: format name and duration.
pub open spec fn spec_format_info_items(p: VideoProbe) -> Seq<Seq<char>> {
    item_opt_labeled("Format: "@, p.format_name) + (match p.duration {
        Some(d) => seq!["Duration: "@ + d@ + " seconds"@],
        None => Seq::empty(),
    })
}

fn format_info_items(p: &VideoProbe) -> (r: Vec<String>)
    ensures
        r.deep_view() == spec_format_info_items(*p),
{
    let mut out: Vec<String> = Vec::new();
    proof {
        assert(out.deep_view() =~= Seq::<Seq<char>>::empty());
        assert(Seq::<Seq<char>>::empty() + item_opt_labeled("Format: "@, p.format_name)
            =~= item_opt_labeled("Format: "@, p.format_name));
    }
    push_labeled(&mut out, "Format: ", &p.format_name);
    match &p.duration {
        Some(d) => {
            let mut s = "Duration: ".to_owned();
            s.append(d.as_str());
            s.append(" seconds");
            out.push(s);
        },
        None => {},
    }
    proof {
        assert(out.deep_view() =~= spec_format_info_items(*p));
    }
    out
}

/// The conventional container tag lines, in their fixed order.
pub open spec fn spec_format_tag_items(tags: Seq<(String, String)>) -> Seq<Seq<char>> {
    spec_tag_item(tags, "title"@, "Title"@) + spec_tag_item(tags, "artist"@, "Artist"@)
        + spec_tag_item(tags, "album"@, "Album"@) + spec_tag_item(tags, "date"@, "Date"@)
        + spec_tag_item(tags, "creation_time"@, "Creation Time"@) + spec_tag_item(
        tags,
        "encoder"@,
        "Encoder"@,
    ) + spec_tag_item(tags, "handler_name"@, "Handler"@) + spec_tag_item(
        tags,
        "make"@,
        "Device Make"@,
    ) + spec_tag_item(tags, "model"@, "Device Model"@) + spec_tag_item(
        tags,
        "location"@,
        "Location"@,
    ) + spec_tag_item(tags, "location-eng"@, "Location"@) + spec_tag_item(
        tags,
        "com.apple.quicktime.location.ISO6709"@,
        "GPS Location"@,
    )
}

fn format_tag_items(tags: &Vec<(String, String)>) -> (r: Vec<String>)
    ensures
        r.deep_view() == spec_format_tag_items(tags@),
{
    let mut out: Vec<String> = Vec::new();
    proof {
        assert(out.deep_view() =~= Seq::<Seq<char>>::empty());
        assert(Seq::<Seq<char>>::empty() + spec_tag_item(tags@, "title"@, "Title"@)
            =~= spec_tag_item(tags@, "title"@, "Title"@));
    }
    push_tag_item(tags, "title", "Title", &mut out);
    push_tag_item(tags, "artist", "Artist", &mut out);
    push_tag_item(tags, "album", "Album", &mut out);
    push_tag_item(tags, "date", "Date", &mut out);
    push_tag_item(tags, "creation_time", "Creation Time", &mut out);
    push_tag_item(tags, "encoder", "Encoder", &mut out);
    push_tag_item(tags, "handler_name", "Handler", &mut out);
    push_tag_item(tags, "make", "Device Make", &mut out);
    push_tag_item(tags, "model", "Device Model", &mut out);
    push_tag_item(tags, "location", "Location", &mut out);
    push_tag_item(tags, "location-eng", "Location", &mut out);
    push_tag_item(tags, "com.apple.quicktime.location.ISO6709", "GPS Location", &mut out);
    out
}

/// The stream has the given codec type.
pub open spec fn stream_is(s: StreamProbe, kind: Seq<char>) -> bool {
    s.codec_type matches Some(t) && t@ == kind
}

/// `i` is the position of the first stream of the given codec type.
pub open spec fn is_first_stream(streams: Seq<StreamProbe>, kind: Seq<char>, i: int) -> bool {
    &&& 0 <= i < streams.len()
    &&& stream_is(streams[i], kind)
    &&& forall|j: int| 0 <= j < i ==> !stream_is(streams[j], kind)
}

pub proof fn lemma_first_stream_unique(streams: Seq<StreamProbe>, kind: Seq<char>, i: int, j: int)
    requires
        is_first_stream(streams, kind, i),
        is_first_stream(streams, kind, j),
    ensures
        i == j,
{
    if i < j {
        assert(!stream_is(streams[i], kind));
    } else if j < i {
        assert(!stream_is(streams[j], kind));
    }
}

/// The report lines for the first video stream: codec, resolution, frame
/// rate, and its conventional stream tags.
pub open spec fn spec_video_stream_items(s: StreamProbe) -> Seq<Seq<char>> {
    item_opt_labeled("Video Codec: "@, s.codec_name) + (if s.width is Some && s.height is Some {
        seq![
            "Resolution: "@ + spec_digits(s.width.unwrap() as nat) + seq!['x'] + spec_digits(
                s.height.unwrap() as nat,
            ),
        ]
    } else {
        Seq::empty()
    }) + item_opt_labeled("Frame Rate: "@, s.r_frame_rate) + spec_tag_item(
        s.tags@,
        "creation_time"@,
        "Video Creation Time"@,
    ) + spec_tag_item(s.tags@, "language"@, "Video Language"@) + spec_tag_item(
        s.tags@,
        "handler_name"@,
        "Video Handler"@,
    )
}

/// The report lines for the first audio stream: codec, sample rate, channel
/// count, and its conventional stream tags.
pub open spec fn spec_audio_stream_items(s: StreamProbe) -> Seq<Seq<char>> {
    item_opt_labeled("Audio Codec: "@, s.codec_name) + (match s.sample_rate {
        Some(sr) => seq!["Audio Sample Rate: "@ + sr@ + " Hz"@],
        None => Seq::empty(),
    }) + (match s.channels {
        Some(ch) => seq!["Audio Channels: "@ + spec_digits(ch as nat)],
        None => Seq::empty(),
    }) + spec_tag_item(s.tags@, "creation_time"@, "Audio Creation Time"@) + spec_tag_item(
        s.tags@,
        "language"@,
        "Audio Language"@,
    ) + spec_tag_item(s.tags@, "handler_name"@, "Audio Handler"@)
}

fn video_stream_items(s: &StreamProbe) -> (r: Vec<String>)
    ensures
        r.deep_view() == spec_video_stream_items(*s),
{
    let mut out: Vec<String> = Vec::new();
    proof {
        assert(out.deep_view() =~= Seq::<Seq<char>>::empty());
        assert(Seq::<Seq<char>>::empty() + item_opt_labeled("Video Codec: "@, s.codec_name)
            =~= item_opt_labeled("Video Codec: "@, s.codec_name));
    }
    push_labeled(&mut out, "Video Codec: ", &s.codec_name);
    match (&s.width, &s.height) {
        (Some(w), Some(h)) => {
            let mut line = str_chars("Resolution: ");
            push_digits(*w, &mut line);
            line.push('x');
            push_digits(*h, &mut line);
            proof {
                assert(line@ =~= "Resolution: "@ + spec_digits(s.width.unwrap() as nat)
                    + seq!['x'] + spec_digits(s.height.unwrap() as nat));
            }
            out.push(chars_to_string(&line));
        },
        _ => {},
    }
    push_labeled(&mut out, "Frame Rate: ", &s.r_frame_rate);
    push_tag_item(&s.tags, "creation_time", "Video Creation Time", &mut out);
    push_tag_item(&s.tags, "language", "Video Language", &mut out);
    push_tag_item(&s.tags, "handler_name", "Video Handler", &mut out);
    proof {
        assert(out.deep_view() =~= spec_video_stream_items(*s));
    }
    out
}

fn audio_stream_items(s: &StreamProbe) -> (r: Vec<String>)
    ensures
        r.deep_view() == spec_audio_stream_items(*s),
{
    let mut out: Vec<String> = Vec::new();
    proof {
        assert(out.deep_view() =~= Seq::<Seq<char>>::empty());
        assert(Seq::<Seq<char>>::empty() + item_opt_labeled("Audio Codec: "@, s.codec_name)
            =~= item_opt_labeled("Audio Codec: "@, s.codec_name));
    }
    push_labeled(&mut out, "Audio Codec: ", &s.codec_name);
    match &s.sample_rate {
        Some(sr) => {
            let mut line = "Audio Sample Rate: ".to_owned();
            line.append(sr.as_str());
            line.append(" Hz");
            out.push(line);
        },
        None => {},
    }
    match &s.channels {
        Some(ch) => {
            let mut line = str_chars("Audio Channels: ");
            push_digits(*ch, &mut line);
            out.push(chars_to_string(&line));
        },
        None => {},
    }
    push_tag_item(&s.tags, "creation_time", "Audio Creation Time", &mut out);
    push_tag_item(&s.tags, "language", "Audio Language", &mut out);
    push_tag_item(&s.tags, "handler_name", "Audio Handler", &mut out);
    proof {
        assert(out.deep_view() =~= spec_audio_stream_items(*s));
    }
    out
}

/// The stream-level report lines: those of the first video stream, then
/// those of the first audio stream.
pub open spec fn spec_streams_items(streams: Seq<StreamProbe>) -> Seq<Seq<char>> {
    (if exists|i: int| is_first_stream(streams, "video"@, i) {
        spec_video_stream_items(streams[choose|i: int| is_first_stream(streams, "video"@, i)])
    } else {
        Seq::empty()
    }) + (if exists|i: int| is_first_stream(streams, "audio"@, i) {
        spec_audio_stream_items(streams[choose|i: int| is_first_stream(streams, "audio"@, i)])
    } else {
        Seq::empty()
    })
}

/// Position of the first stream of the given codec type, if any.
fn find_stream(streams: &Vec<StreamProbe>, kind: &str) -> (r: Option<usize>)
    ensures
        match r {
            Some(i) => is_first_stream(streams@, kind@, i as int),
            None => forall|j: int| 0 <= j < streams@.len() ==> !stream_is(streams@[j], kind@),
        },
{
    let kindstr = kind.to_owned();
    let mut i: usize = 0;
    while i < streams.len()
        invariant
            kindstr@ == kind@,
            0 <= i <= streams@.len(),
            forall|j: int| 0 <= j < i ==> !stream_is(streams@[j], kind@),
        decreases streams@.len() - i,
    {
        let hit = match &streams[i].codec_type {
            Some(t) => *t == kindstr,
            None => false,
        };
        if hit {
            return Some(i);
        }
        i = i + 1;
    }
    None
}

fn streams_items(streams: &Vec<StreamProbe>) -> (r: Vec<String>)
    ensures
        r.deep_view() == spec_streams_items(streams@),
{
    let mut out: Vec<String> = Vec::new();
    let ghost video_part = if exists|i: int| is_first_stream(streams@, "video"@, i) {
        spec_video_stream_items(
            streams@[choose|i: int| is_first_stream(streams@, "video"@, i)],
        )
    } else {
        Seq::<Seq<char>>::empty()
    };
    match find_stream(streams, "video") {
        Some(i) => {
            proof {
                let w = choose|n: int| is_first_stream(streams@, "video"@, n);
                lemma_first_stream_unique(streams@, "video"@, w, i as int);
            }
            let items = video_stream_items(&streams[i]);
            append_report(&mut out, items);
        },
        None => {
            proof {
                if exists|n: int| is_first_stream(streams@, "video"@, n) {
                    let w = choose|n: int| is_first_stream(streams@, "video"@, n);
                    assert(stream_is(streams@[w], "video"@));
                }
            }
        },
    }
    proof {
        assert(out.deep_view() =~= video_part);
    }
    match find_stream(streams, "audio") {
        Some(i) => {
            proof {
                let w = choose|n: int| is_first_stream(streams@, "audio"@, n);
                lemma_first_stream_unique(streams@, "audio"@, w, i as int);
            }
            let items = audio_stream_items(&streams[i]);
            append_report(&mut out, items);
        },
        None => {
            proof {
                if exists|n: int| is_first_stream(streams@, "audio"@, n) {
                    let w = choose|n: int| is_first_stream(streams@, "audio"@, n);
                    assert(stream_is(streams@[w], "audio"@));
                }
            }
        },
    }
    proof {
        assert(out.deep_view() =~= spec_streams_items(streams@));
    }
    out
}

/// All report lines of one probe, in walk order: the conventional container
/// tags, the remaining tags verbatim, the format information, then the
/// stream-level lines.
pub open spec fn spec_video_items(p: VideoProbe) -> Seq<Seq<char>> {
    spec_format_tag_items(p.format_tags@) + spec_extra_items(p.format_tags@)
        + spec_format_info_items(p) + spec_streams_items(p.streams@)
}

/// The report for one probe: its lines, or a single sentinel line when the
/// probe yielded nothing readable.
pub open spec fn spec_video_report(p: VideoProbe) -> Seq<Seq<char>> {
    if spec_video_items(p).len() == 0 {
        seq!["No readable metadata found in the video file"@]
    } else {
        spec_video_items(p)
    }
}

/// Builds the human-readable report for one structured probe.
pub fn video_report(p: &VideoProbe) -> (r: Vec<String>)
    ensures
        r.deep_view() == spec_video_report(*p),
        r@.len() >= 1,
{
    let mut out = format_tag_items(&p.format_tags);
    let extras = extra_tag_items(&p.format_tags);
    append_report(&mut out, extras);
    let info = format_info_items(p);
    append_report(&mut out, info);
    let streams = streams_items(&p.streams);
    append_report(&mut out, streams);
    proof {
        assert(out.deep_view() =~= spec_video_items(*p));
    }
    if out.len() == 0 {
        proof {
            assert(out.deep_view().len() == 0);
        }
        out.push("No readable metadata found in the video file".to_owned());
        proof {
            assert(out.deep_view() =~= spec_video_report(*p));
        }
    }
    out
}


#[verifier::external_type_specification]
#[verifier::external_body]
pub struct ExJsonValue(serde_json::Value);

/// Whether `serde_json::from_str` parses the text as a JSON value; a pure
/// function of the text alone.
pub uninterp spec fn json_parses(s: Seq<char>) -> bool;

/// Relies on serde_json::from_str: parses text into a JSON value; whether it
/// succeeds depends on the text alone.
#[verifier::external_body]
fn json_parse(s: &str) -> (r: Option<serde_json::Value>)
    ensures
        r is Some <==> json_parses(s@),
{
    serde_json::from_str::<serde_json::Value>(s).ok()
}

/// Relies on serde_json::Value::as_object: the entries of a JSON object in
/// its iteration order; no entries for any other kind of value.
#[verifier::external_body]
fn json_object_entries(v: &serde_json::Value) -> (r: Vec<(String, serde_json::Value)>) {
    match v.as_object() {
        Some(m) => m.iter().map(|(k, val)| (k.clone(), val.clone())).collect(),
        None => Vec::new(),
    }
}

/// Relies on serde_json::Value::as_str: the content of a JSON string.
#[verifier::external_body]
fn json_as_string(v: &serde_json::Value) -> (r: Option<String>) {
    v.as_str().map(|s| s.to_string())
}

/// Relies on serde_json::Value::as_u64: the value of a JSON unsigned integer.
#[verifier::external_body]
fn json_as_u64(v: &serde_json::Value) -> (r: Option<u64>) {
    v.as_u64()
}

/// Relies on serde_json::Value::as_array: the elements of a JSON array.
#[verifier::external_body]
fn json_as_array<'a>(v: &'a serde_json::Value) -> (r: Option<&'a Vec<serde_json::Value>>) {
    v.as_array()
}

/// The value of the first entry named `key`, if any.
fn entry_value<'a>(entries: &'a Vec<(String, serde_json::Value)>, key: &str) -> (r: Option<
    &'a serde_json::Value,
>) {
    let keystr = key.to_owned();
    let mut i: usize = 0;
    while i < entries.len()
        invariant
            0 <= i <= entries@.len(),
        decreases entries@.len() - i,
    {
        if entries[i].0 == keystr {
            return Some(&entries[i].1);
        }
        i = i + 1;
    }
    None
}

/// The string value of the entry named `key`, if there is one.
fn entry_string(entries: &Vec<(String, serde_json::Value)>, key: &str) -> (r: Option<String>) {
    match entry_value(entries, key) {
        Some(v) => json_as_string(v),
        None => None,
    }
}

/// The unsigned integer value of the entry named `key`, if there is one.
fn entry_u64(entries: &Vec<(String, serde_json::Value)>, key: &str) -> (r: Option<u64>) {
    match entry_value(entries, key) {
        Some(v) => json_as_u64(v),
        None => None,
    }
}

/// The string-valued entries of a JSON object, in its iteration order;
/// entries of any other kind are left out.
fn string_entries(v: &serde_json::Value) -> (r: Vec<(String, String)>) {
    let entries = json_object_entries(v);
    let mut out: Vec<(String, String)> = Vec::new();
    let mut i: usize = 0;
    while i < entries.len()
        invariant
            0 <= i <= entries@.len(),
        decreases entries@.len() - i,
    {
        match json_as_string(&entries[i].1) {
            Some(value) => {
                out.push((entries[i].0.clone(), value));
            },
            None => {},
        }
        i = i + 1;
    }
    out
}

/// The plain values of one stream object of the probe report.
fn stream_of_json(v: &serde_json::Value) -> (s: StreamProbe) {
    let entries = json_object_entries(v);
    let tags = match entry_value(&entries, "tags") {
        Some(tv) => string_entries(tv),
        None => Vec::new(),
    };
    StreamProbe {
        codec_type: entry_string(&entries, "codec_type"),
        codec_name: entry_string(&entries, "codec_name"),
        width: entry_u64(&entries, "width"),
        height: entry_u64(&entries, "height"),
        r_frame_rate: entry_string(&entries, "r_frame_rate"),
        sample_rate: entry_string(&entries, "sample_rate"),
        channels: entry_u64(&entries, "channels"),
        tags,
    }
}

/// Walks a parsed probe report into its plain values: the container tags,
/// format name and duration under "format", and the streams under "streams".
fn probe_of_json(v: &serde_json::Value) -> (p: VideoProbe) {
    let top = json_object_entries(v);
    let mut format_tags: Vec<(String, String)> = Vec::new();
    let mut format_name: Option<String> = None;
    let mut duration: Option<String> = None;
    let mut streams: Vec<StreamProbe> = Vec::new();
    match entry_value(&top, "format") {
        Some(fv) => {
            let fentries = json_object_entries(fv);
            match entry_value(&fentries, "tags") {
                Some(tv) => {
                    format_tags = string_entries(tv);
                },
                None => {},
            }
            format_name = entry_string(&fentries, "format_name");
            duration = entry_string(&fentries, "duration");
        },
        None => {},
    }
    match entry_value(&top, "streams") {
        Some(sv) => {
            match json_as_array(sv) {
                Some(arr) => {
                    let mut i: usize = 0;
                    while i < arr.len()
                        invariant
                            0 <= i <= arr@.len(),
                        decreases arr@.len() - i,
                    {
                        streams.push(stream_of_json(&arr[i]));
                        i = i + 1;
                    }
                },
                None => {},
            }
        },
        None => {},
    }
    VideoProbe { format_tags, format_name, duration, streams }
}

/// Parses the probe tool's textual output and builds the report from it:
/// when the output is not JSON, the single sentinel line; otherwise the
/// report of the probe it describes.
pub fn extract_video_metadata(probe_output: &str) -> (r: Vec<String>)
    ensures
        r@.len() >= 1,
        json_parses(probe_output@) ==> (exists|p: VideoProbe|
            r.deep_view() == spec_video_report(p)),
        !json_parses(probe_output@) ==> r.deep_view() == seq![
            "No readable metadata found in the video file"@,
        ],
{
    match json_parse(probe_output) {
        Some(v) => {
            let probe = probe_of_json(&v);
            let rep = video_report(&probe);
            proof {
                assert(rep.deep_view() == spec_video_report(probe));
            }
            rep
        },
        None => {
            let mut out: Vec<String> = Vec::new();
            out.push("No readable metadata found in the video file".to_owned());
            proof {
                assert(out.deep_view() =~= seq![
                    "No readable metadata found in the video file"@,
                ]);
            }
            out
        },
    }
}

/// The generic fallback lines used when the probe itself fails: extraction
/// is best-effort and must never block stripping.
pub open spec fn spec_video_fallback() -> Seq<Seq<char>> {
    seq![
        "Creation time (if present)"@,
        "Encoder information (if present)"@,
        "Device information (if present)"@,
        "GPS data (if present)"@,
        "All metadata headers"@,
    ]
}

/// The fallback report for a video whose probe failed.
pub fn video_fallback_report() -> (r: Vec<String>)
    ensures
        r.deep_view() == spec_video_fallback(),
        r@.len() == 5,
{
    let mut v: Vec<String> = Vec::new();
    v.push("Creation time (if present)".to_owned());
    v.push("Encoder information (if present)".to_owned());
    v.push("Device information (if present)".to_owned());
    v.push("GPS data (if present)".to_owned());
    v.push("All metadata headers".to_owned());
    proof {
        assert(v.deep_view() =~= spec_video_fallback());
    }
    v
}

/// What the report of a video strip must be, given whether the probe ran
/// (`None` means its invocation failed) and what it printed.
pub open spec fn spec_probe_report(probe_output: Option<Seq<char>>, items: Seq<Seq<char>>)
    -> bool {
    match probe_output {
        None => items == spec_video_fallback(),
        Some(s) => if json_parses(s) {
            exists|p: VideoProbe| items == spec_video_report(p)
        } else {
            items == seq!["No readable metadata found in the video file"@]
        },
    }
}

/// The report of what a video strip removes: built from the probe's output
/// when the probe ran, the generic fallback lines when it failed.
pub fn video_report_from_probe(probe_output: &Option<String>) -> (r: Vec<String>)
    ensures
        r@.len() >= 1,
        spec_probe_report(opt_str_view(*probe_output), r.deep_view()),
{
    match probe_output {
        Some(s) => extract_video_metadata(s.as_str()),
        None => video_fallback_report(),
    }
}

/// Decides the outcome of one video strip from the gathered facts. The tool
/// gate comes first: without the external tool the result is
/// `ToolUnavailable`, before any file is touched. With the tool present, a
/// failed rewrite is `ToolExecutionError` carrying the tool's diagnostic
/// text, and a successful one returns the report of what was removed.
pub fn video_strip_outcome(
    tool_available: bool,
    probe_output: &Option<String>,
    transcode_ok: bool,
    transcode_diagnostic: &str,
) -> (r: Result<Vec<String>, ProcessingError>)
    ensures
        r is Ok <==> (tool_available && transcode_ok),
        !tool_available ==> (r matches Err(e) && e is ToolUnavailable),
        (tool_available && !transcode_ok) ==> (r matches Err(e) && (e matches
            ProcessingError::ToolExecutionError(d) && d@ == transcode_diagnostic@)),
        r matches Ok(items) ==> items@.len() >= 1 && spec_probe_report(
            opt_str_view(*probe_output),
            items.deep_view(),
        ),
{
    if !tool_available {
        return Err(ProcessingError::ToolUnavailable);
    }
    if !transcode_ok {
        return Err(ProcessingError::ToolExecutionError(transcode_diagnostic.to_owned()));
    }
    Ok(video_report_from_probe(probe_output))
}

} // verus!

