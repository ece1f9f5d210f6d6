//! Video rules: which containers are accepted, the limits on what is sent.

use vstd::prelude::*;
use vstd::relations::sorted_by;
use crate::paths::{file_extension, path_extension};
use crate::text::{
    ascii_lowercase, ascii_uppercase, decimal, decimal_text, is_ascii_text, lemma_ascii_case_folds,
    lemma_text_order_total, same_text, sort_texts, text_order, texts_view, to_lowercase,
    unicode_lowercase,
};

verus! {

/// Whether an already lowercased extension names a supported container.
pub open spec fn is_supported_lowercase_ext(lower: Seq<char>) -> bool {
    lower == "mp4"@ || lower == "mov"@ || lower == "webm"@
}

/// Whether `ext` names a supported container once it is lowercased
/// (`mp4`, `mov`, `webm`).
pub open spec fn is_supported_video_ext(ext: Seq<char>) -> bool {
    is_supported_lowercase_ext(unicode_lowercase(ext))
}

/// Returns `true` if an already lowercased extension is `mp4`, `mov` or `webm`.
pub fn supported_lowercase_video_ext(lower: &str) -> (r: bool)
    ensures
        r == is_supported_lowercase_ext(lower@),
{
    same_text(lower, "mp4") || same_text(lower, "mov") || same_text(lower, "webm")
}

/// Returns `true` if the file extension is a supported video format.
///
/// Comparison is case-insensitive.  Supported: `mp4`, `mov`, `webm`.
pub fn supported_video_ext(ext: &str) -> (r: bool)
    ensures
        r == is_supported_video_ext(ext@),
        r == is_supported_video_ext(ascii_lowercase(ext@)),
        is_ascii_text(ext@) ==> r == is_supported_lowercase_ext(ascii_lowercase(ext@)),
{
    let lower = to_lowercase(ext);
    supported_lowercase_video_ext(lower.as_str())
}

} // verus!

verus! {

/// Maximum number of frames that will be extracted from any video: no more
/// than 16 images are ever sent to the API.
pub const MAX_FRAMES: u16 = 16;

/// Maximum video duration in seconds; longer videos are rejected before any
/// frame is extracted.
pub const MAX_DURATION_SECS: u32 = 30;

/// Whether a path names an extracted frame: its extension is exactly `jpg`.
pub open spec fn is_frame_path(path: Seq<char>) -> bool {
    path_extension(path) == Some("jpg"@)
}

/// The frames among the entries of the frame directory, in `text_le` order.
pub open spec fn frame_listing(entries: Seq<Seq<char>>) -> Seq<Seq<char>> {
    entries.filter(|p: Seq<char>| is_frame_path(p)).sort_by(text_order())
}

/// Keeps the entries whose extension is `jpg` and sorts them, so that frames
/// come in the order ffmpeg numbered them.  Paths are ordered by their text;
/// for the entries of one directory, which all share the same parent, this is
/// the same order as comparing them as paths component by component.
pub fn select_frames(entries: Vec<String>) -> (r: Vec<String>)
    ensures
        texts_view(r@) == frame_listing(texts_view(entries@)),
{
    let ghost ev = texts_view(entries@);
    let ghost pred = |p: Seq<char>| is_frame_path(p);
    let n = entries.len();
    let mut kept: Vec<String> = Vec::new();
    let mut i: usize = 0;
    proof {
        reveal(Seq::filter);
        assert(ev.take(0).filter(pred) =~= texts_view(kept@));
    }
    while i < n
        invariant
            n == entries.len(),
            ev == texts_view(entries@),
            pred == (|p: Seq<char>| is_frame_path(p)),
            i <= n,
            texts_view(kept@) == ev.take(i as int).filter(pred),
        decreases n - i,
    {
        let keep = match file_extension(entries[i].as_str()) {
            Some(e) => same_text(e.as_str(), "jpg"),
            None => false,
        };
        proof {
            assert(ev.take(i + 1).drop_last() =~= ev.take(i as int));
            assert(ev.take(i + 1).last() == entries@[i as int]@);
        }
        assert(keep == pred(ev.take(i + 1).last()));
        if keep {
            push_string(&mut kept, entries[i].clone());
        }
        proof {
            reveal(Seq::filter);
            assert(ev.take(i + 1).filter(pred) == if pred(ev.take(i + 1).last()) {
                ev.take(i as int).filter(pred).push(ev.take(i + 1).last())
            } else {
                ev.take(i as int).filter(pred)
            });
        }
        i = i + 1;
    }
    proof {
        assert(ev.take(n as int) =~= ev);
    }
    sort_texts(kept)
}

/// At most the first `max_frames` frames of a sequence.
pub open spec fn capped_frames(frames: Seq<Seq<char>>, max_frames: u16) -> Seq<Seq<char>> {
    if frames.len() <= max_frames {
        frames
    } else {
        frames.take(max_frames as int)
    }
}

/// Keeps at most the first `max_frames` frames: `max_frames` is a hard upper
/// bound on the frames that are returned and sent.
pub fn cap_frames(frames: Vec<String>, max_frames: u16) -> (r: Vec<String>)
    ensures
        texts_view(r@) == capped_frames(texts_view(frames@), max_frames),
        r.len() <= max_frames,
{
    let mut frames = frames;
    let ghost before = texts_view(frames@);
    if frames.len() > max_frames as usize {
        frames.truncate(max_frames as usize);
        assert(texts_view(frames@) =~= before.take(max_frames as int));
    }
    frames
}

/// Law: the capped frames are a prefix of the frames, no longer than the cap,
/// and all of them when there are no more than the cap.
pub proof fn lemma_capped_frames(frames: Seq<Seq<char>>, max_frames: u16)
    ensures
        capped_frames(frames, max_frames).len() <= max_frames,
        capped_frames(frames, max_frames).len() <= frames.len(),
        forall|i: int| 0 <= i < capped_frames(frames, max_frames).len() ==> #[trigger] capped_frames(
            frames,
            max_frames,
        )[i] == frames[i],
        frames.len() <= max_frames ==> capped_frames(frames, max_frames) == frames,
{
}

fn push_string(v: &mut Vec<String>, s: String)
    ensures
        texts_view(final(v)@) == texts_view(old(v)@).push(s@),
{
    let ghost sv = s@;
    v.push(s);
    assert(texts_view(v@) =~= texts_view(old(v)@).push(sv));
}

fn push_text(v: &mut Vec<String>, s: &str)
    ensures
        texts_view(final(v)@) == texts_view(old(v)@).push(s@),
{
    v.push(String::from_str(s));
    assert(texts_view(v@) =~= texts_view(old(v)@).push(s@));
}

/// The arguments `ffprobe` is run with to report a video's format as JSON.
pub open spec fn probe_args_text(video_path: Seq<char>) -> Seq<Seq<char>> {
    seq!["-v"@, "quiet"@, "-print_format"@, "json"@, "-show_format"@, video_path]
}

/// Builds the `ffprobe` arguments for a video.
pub fn probe_args(video_path: &str) -> (r: Vec<String>)
    ensures
        texts_view(r@) == probe_args_text(video_path@),
{
    let mut v: Vec<String> = Vec::new();
    push_text(&mut v, "-v");
    push_text(&mut v, "quiet");
    push_text(&mut v, "-print_format");
    push_text(&mut v, "json");
    push_text(&mut v, "-show_format");
    push_text(&mut v, video_path);
    assert(texts_view(v@) =~= probe_args_text(video_path@));
    v
}

/// The arguments `ffmpeg` is run with to extract at most `max_frames` JPEG
/// frames at the given rate into files named by `pattern`.
pub open spec fn extract_args_text(
    video_path: Seq<char>,
    fps: Seq<char>,
    max_frames: u16,
    pattern: Seq<char>,
) -> Seq<Seq<char>> {
    seq![
        "-i"@,
        video_path,
        "-vf"@,
        "fps="@ + fps,
        "-frames:v"@,
        decimal(max_frames as nat),
        pattern,
        "-y"@,
        "-loglevel"@,
        "error"@,
    ]
}

/// Builds the `ffmpeg` arguments; `fps` is the rendered frame rate.
pub fn extract_args(video_path: &str, fps: &str, max_frames: u16, pattern: &str) -> (r: Vec<String>)
    ensures
        texts_view(r@) == extract_args_text(video_path@, fps@, max_frames, pattern@),
{
    let mut v: Vec<String> = Vec::new();
    push_text(&mut v, "-i");
    push_text(&mut v, video_path);
    push_text(&mut v, "-vf");
    let mut rate = String::from_str("fps=");
    rate.append(fps);
    push_string(&mut v, rate);
    push_text(&mut v, "-frames:v");
    push_string(&mut v, decimal_text(max_frames as u64));
    push_text(&mut v, pattern);
    push_text(&mut v, "-y");
    push_text(&mut v, "-loglevel");
    push_text(&mut v, "error");
    assert(texts_view(v@) =~= extract_args_text(video_path@, fps@, max_frames, pattern@));
    v
}

/// The message for a tool (`ffprobe` or `ffmpeg`) that could not be started:
/// an install hint when it is not on `PATH`, else the cause.
pub open spec fn start_failure_text(tool: Seq<char>, not_found: bool, cause: Seq<char>) -> Seq<char> {
    if not_found {
        "ffmpeg not found in PATH; install with: brew install ffmpeg"@
    } else {
        tool + " failed to start: "@ + cause
    }
}

/// Builds the message for a tool that could not be started.
pub fn start_failure_message(tool: &str, not_found: bool, cause: &str) -> (r: String)
    ensures
        r@ == start_failure_text(tool@, not_found, cause@),
{
    if not_found {
        String::from_str("ffmpeg not found in PATH; install with: brew install ffmpeg")
    } else {
        let mut s = String::from_str(tool);
        s.append(" failed to start: ");
        s.append(cause);
        s
    }
}

/// The message for a tool that exited with a failure status.
pub open spec fn exit_failure_text(tool: Seq<char>, stderr: Seq<char>) -> Seq<char> {
    tool + " exited with error: "@ + stderr
}

/// Builds the message for a tool that exited with a failure status.
pub fn exit_failure_message(tool: &str, stderr: &str) -> (r: String)
    ensures
        r@ == exit_failure_text(tool@, stderr@),
{
    let mut s = String::from_str(tool);
    s.append(" exited with error: ");
    s.append(stderr);
    s
}

} // verus!

verus! {

/// Law: the container check is case-insensitive: two extensions with the same
/// lowercase form are accepted or refused together.
pub proof fn lemma_video_ext_case_insensitive(a: Seq<char>, b: Seq<char>)
    requires
        unicode_lowercase(a) == unicode_lowercase(b),
    ensures
        is_supported_video_ext(a) == is_supported_video_ext(b),
{
}

/// Law: the container check ignores the case of ASCII letters: an
/// extension, its ASCII-uppercased and its ASCII-lowercased forms are
/// accepted or refused together (`supported_video_ext` decides by
/// `is_supported_video_ext(ascii_lowercase(ext))`).
pub proof fn lemma_video_ext_ignores_ascii_case(s: Seq<char>)
    ensures
        is_supported_video_ext(ascii_lowercase(ascii_uppercase(s))) == is_supported_video_ext(
            ascii_lowercase(s),
        ),
        is_supported_video_ext(ascii_lowercase(ascii_lowercase(s))) == is_supported_video_ext(
            ascii_lowercase(s),
        ),
{
    lemma_ascii_case_folds(s);
}

/// Law: the frame listing holds only `jpg` paths, each of the entries' `jpg`
/// paths exactly as often as among the entries, in `text_le` order.
pub proof fn lemma_frame_listing(entries: Seq<Seq<char>>)
    ensures
        sorted_by(frame_listing(entries), text_order()),
        forall|i: int| 0 <= i < frame_listing(entries).len() ==> is_frame_path(
            #[trigger] frame_listing(entries)[i],
        ),
        frame_listing(entries).to_multiset() == entries.filter(|p: Seq<char>| is_frame_path(p)).to_multiset(),
{
    let pred = |p: Seq<char>| is_frame_path(p);
    let kept = entries.filter(pred);
    lemma_text_order_total();
    kept.lemma_sort_by_ensures(text_order());
    assert forall|i: int| 0 <= i < frame_listing(entries).len() implies is_frame_path(
        #[trigger] frame_listing(entries)[i],
    ) by {
        let x = frame_listing(entries)[i];
        assert(kept.sort_by(text_order()).contains(x));
        if !kept.contains(x) {
            assert(!kept.sort_by(text_order()).contains(x));
        }
        let j = choose|j: int| 0 <= j < kept.len() && kept[j] == x;
        entries.lemma_filter_pred(pred, j);
    }
}

} // verus!


verus! {

/// What `ffprobe`'s JSON report says of the duration: `Err` with the parser's
/// message when the text is not JSON, `Ok(None)` when `format.duration` is
/// absent or not a string, else `Ok(Some(text))`.
pub uninterp spec fn ffprobe_duration_field(stdout: Seq<char>) -> Result<Option<Seq<char>>, Seq<char>>;

/// The view of a duration-field lookup.
pub open spec fn field_view(r: Result<Option<String>, String>) -> Result<Option<Seq<char>>, Seq<char>> {
    match r {
        Ok(d) => Ok(d.deep_view()),
        Err(e) => Err(e@),
    }
}

/// Calls `serde_json::from_str` to parse the text into a `serde_json::Value`
/// and takes `format.duration` as a string (indexing a missing key or a
/// non-object gives `Null`, which is no string); a parse failure gives the
/// parser error's message.  The outcome is named `ffprobe_duration_field` of
/// the text.
#[verifier::external_body]
fn duration_field(stdout: &str) -> (r: Result<Option<String>, String>)
    ensures
        field_view(r) == ffprobe_duration_field(stdout@),
{
    match serde_json::from_str::<serde_json::Value>(stdout) {
        Ok(v) => Ok(v["format"]["duration"].as_str().map(|d| d.to_string())),
        Err(e) => Err(e.to_string()),
    }
}

/// Why `ffprobe`'s report gave no duration text.
#[derive(Debug, Clone, PartialEq, Eq)]
pub enum ProbeError {
    /// The report is not JSON.
    Unparsable { cause: String },
    /// The report has no `format.duration` string.
    MissingDuration,
}

/// `ProbeError` with its cause as a character sequence.
pub enum ProbeFault {
    Unparsable { cause: Seq<char> },
    MissingDuration,
}

impl View for ProbeError {
    type V = ProbeFault;

    open spec fn view(&self) -> ProbeFault {
        match self {
            ProbeError::Unparsable { cause } => ProbeFault::Unparsable { cause: cause@ },
            ProbeError::MissingDuration => ProbeFault::MissingDuration,
        }
    }
}

/// The one-line message of a probe fault.
pub open spec fn probe_fault_message(f: ProbeFault) -> Seq<char> {
    match f {
        ProbeFault::Unparsable { .. } => "failed to parse ffprobe JSON output"@,
        ProbeFault::MissingDuration => "ffprobe output missing format.duration field"@,
    }
}

impl ProbeError {
    /// The one-line message of this error.
    pub fn message(&self) -> (r: String)
        ensures
            r@ == probe_fault_message(self@),
    {
        match self {
            ProbeError::Unparsable { .. } => String::from_str("failed to parse ffprobe JSON output"),
            ProbeError::MissingDuration => String::from_str(
                "ffprobe output missing format.duration field",
            ),
        }
    }
}

/// The outcome of reading the duration out of a field lookup.
pub open spec fn duration_outcome(field: Result<Option<Seq<char>>, Seq<char>>) -> Result<
    Seq<char>,
    ProbeFault,
> {
    match field {
        Err(cause) => Err(ProbeFault::Unparsable { cause }),
        Ok(None) => Err(ProbeFault::MissingDuration),
        Ok(Some(d)) => Ok(d),
    }
}

/// The view of a duration-text result.
pub open spec fn duration_result_view(r: Result<String, ProbeError>) -> Result<Seq<char>, ProbeFault> {
    match r {
        Ok(d) => Ok(d@),
        Err(e) => Err(e@),
    }
}

/// The duration text from a field lookup: a parse failure and a missing field
/// are errors.
pub fn duration_text_of(field: Result<Option<String>, String>) -> (r: Result<String, ProbeError>)
    ensures
        duration_result_view(r) == duration_outcome(field_view(field)),
{
    match field {
        Err(cause) => Err(ProbeError::Unparsable { cause }),
        Ok(None) => Err(ProbeError::MissingDuration),
        Ok(Some(d)) => Ok(d),
    }
}

/// The duration text of `ffprobe`'s JSON report (`format.duration`).
pub fn probe_duration_text(stdout: &str) -> (r: Result<String, ProbeError>)
    ensures
        duration_result_view(r) == duration_outcome(ffprobe_duration_field(stdout@)),
{
    duration_text_of(duration_field(stdout))
}

} // verus!

verus! {

/// Law: a container is accepted exactly when its extension lowercases to
/// `mp4`, `mov` or `webm`.
pub proof fn lemma_video_ext_table(ext: Seq<char>)
    ensures
        is_supported_video_ext(ext) == (unicode_lowercase(ext) == "mp4"@ || unicode_lowercase(ext)
            == "mov"@ || unicode_lowercase(ext) == "webm"@),
{
}

/// Law: every listed frame has the extension `jpg` exactly, and every entry
/// with that extension is listed.
pub proof fn lemma_frame_listing_members(entries: Seq<Seq<char>>)
    ensures
        forall|i: int| 0 <= i < frame_listing(entries).len() ==> path_extension(
            #[trigger] frame_listing(entries)[i],
        ) == Some("jpg"@),
        forall|j: int| 0 <= j < entries.len() && path_extension(#[trigger] entries[j]) == Some(
            "jpg"@,
        ) ==> frame_listing(entries).contains(entries[j]),
{
    lemma_frame_listing(entries);
    let pred = |p: Seq<char>| is_frame_path(p);
    let kept = entries.filter(pred);
    lemma_text_order_total();
    kept.lemma_sort_by_ensures(text_order());
    assert forall|j: int| 0 <= j < entries.len() && path_extension(#[trigger] entries[j]) == Some(
        "jpg"@,
    ) implies frame_listing(entries).contains(entries[j]) by {
        entries.filter_lemma(pred);
        assert(kept.contains(entries[j]));
        assert(kept.to_multiset().count(entries[j]) > 0) by {
            vstd::seq_lib::to_multiset_contains(kept, entries[j]);
        }
        vstd::seq_lib::to_multiset_contains(kept.sort_by(text_order()), entries[j]);
        assert(kept.sort_by(text_order()).to_multiset().contains(entries[j]));
    }
}

} // verus!
