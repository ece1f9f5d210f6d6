//! Decisions of the two MCP tools (`vision.recognize_image`,
//! `vision.analyze_video`): settings with their defaults, input checks, and
//! how failures are reported to the MCP client.

use vstd::prelude::*;
use crate::error::{fault_message, VisionError};
use crate::paths::{file_extension, path_extension};
use crate::text::{decimal, push_decimal, texts_view};
use crate::video::{
    cap_frames, capped_frames, is_supported_video_ext, lemma_capped_frames, supported_video_ext,
    MAX_DURATION_SECS, MAX_FRAMES,
};

verus! {

/// A tool failure as the MCP client sees it.
#[derive(Debug, Clone, PartialEq, Eq)]
pub enum ToolFailure {
    /// Something went wrong while serving the call.
    Internal { message: String },
    /// The arguments of the call are not acceptable.
    InvalidParams { message: String },
}

/// `ToolFailure` with its message as a character sequence.
pub enum ToolFault {
    Internal { message: Seq<char> },
    InvalidParams { message: Seq<char> },
}

impl View for ToolFailure {
    type V = ToolFault;

    open spec fn view(&self) -> ToolFault {
        match self {
            ToolFailure::Internal { message } => ToolFault::Internal { message: message@ },
            ToolFailure::InvalidParams { message } => ToolFault::InvalidParams {
                message: message@,
            },
        }
    }
}

/// The message a tool failure carries.
pub open spec fn failure_message(f: ToolFault) -> Seq<char> {
    match f {
        ToolFault::Internal { message } => message,
        ToolFault::InvalidParams { message } => message,
    }
}

impl ToolFailure {
    /// The message of this failure.
    pub fn message(&self) -> (r: &str)
        ensures
            r@ == failure_message(self@),
    {
        match self {
            ToolFailure::Internal { message } => message.as_str(),
            ToolFailure::InvalidParams { message } => message.as_str(),
        }
    }
}

/// The API key from the `OPENAI_API_KEY` setting: required.
pub fn api_key_setting(value: Option<String>) -> (r: Result<String, ToolFailure>)
    ensures
        match value {
            Some(v) => r matches Ok(k) && k@ == v@,
            None => r matches Err(f) && f@ == (ToolFault::Internal {
                message: "OPENAI_API_KEY is not set"@,
            }),
        },
{
    match value {
        Some(v) => Ok(v),
        None => Err(ToolFailure::Internal { message: String::from_str("OPENAI_API_KEY is not set") }),
    }
}

/// The base URL from the `OPENAI_BASE_URL` setting, `https://api.openai.com`
/// when it is absent.
pub fn base_url_setting(value: Option<String>) -> (r: String)
    ensures
        r@ == match value {
            Some(v) => v@,
            None => "https://api.openai.com"@,
        },
{
    match value {
        Some(v) => v,
        None => String::from_str("https://api.openai.com"),
    }
}

/// The model for a single image: the one requested, else `gpt-4o-mini`.
pub fn image_model(requested: Option<String>) -> (r: String)
    ensures
        r@ == match requested {
            Some(m) => m@,
            None => "gpt-4o-mini"@,
        },
{
    match requested {
        Some(m) => m,
        None => String::from_str("gpt-4o-mini"),
    }
}

/// The model for video frame sequences: always `gpt-4o`.
pub fn video_model() -> (r: String)
    ensures
        r@ == "gpt-4o"@,
{
    String::from_str("gpt-4o")
}

/// The message for a video whose extension is not accepted.
pub open spec fn unsupported_video_text(ext: Seq<char>) -> Seq<char> {
    "unsupported video format '."@ + ext + "'; supported formats: mp4, mov, webm"@
}

/// Checks the video extension before anything touches the file system:
/// unsupported extensions are invalid parameters.
pub fn check_video_ext(ext: &str) -> (r: Result<(), ToolFailure>)
    ensures
        is_supported_video_ext(ext@) ==> r is Ok,
        !is_supported_video_ext(ext@) ==> (r matches Err(f) && f@ == (ToolFault::InvalidParams {
            message: unsupported_video_text(ext@),
        })),
{
    if supported_video_ext(ext) {
        Ok(())
    } else {
        let mut s = String::from_str("unsupported video format '.");
        s.append(ext);
        s.append("'; supported formats: mp4, mov, webm");
        Err(ToolFailure::InvalidParams { message: s })
    }
}

/// A vision failure reported to the MCP client: an internal error with the
/// error's one-line message.
pub fn vision_failure(e: &VisionError) -> (r: ToolFailure)
    ensures
        r@ == (ToolFault::Internal { message: fault_message(e@) }),
{
    ToolFailure::Internal { message: e.message() }
}

/// Any other failure, by its message, reported as an internal error.
pub fn internal_failure(message: &str) -> (r: ToolFailure)
    ensures
        r@ == (ToolFault::Internal { message: message@ }),
{
    ToolFailure::Internal { message: String::from_str(message) }
}

} // verus!

verus! {

/// Where a `vision.analyze_video` call stands.
#[derive(Clone, Copy, Debug, PartialEq, Eq, Structural)]
pub enum VideoStage {
    /// Waiting for the settings (`OPENAI_API_KEY`, `OPENAI_BASE_URL`).
    Start,
    /// The duration is being probed and held against the limit.
    Probing,
    /// Frames are being extracted.
    Extracting,
    /// The frames are being analysed by the vision API.
    Analysing,
    /// The reply was handed out.
    Done,
}

/// One `vision.analyze_video` call in progress.
pub struct VideoCall {
    stage: VideoStage,
    video_path: String,
    prompt: String,
    api_key: String,
    base_url: String,
}

/// What a `VideoCall` holds.
pub struct VideoCallView {
    pub stage: VideoStage,
    pub video_path: Seq<char>,
    pub prompt: Seq<char>,
    pub api_key: Seq<char>,
    pub base_url: Seq<char>,
}

impl View for VideoCall {
    type V = VideoCallView;

    closed spec fn view(&self) -> VideoCallView {
        VideoCallView {
            stage: self.stage,
            video_path: self.video_path@,
            prompt: self.prompt@,
            api_key: self.api_key@,
            base_url: self.base_url@,
        }
    }
}

/// What the caller is asked to do next in a `vision.analyze_video` call.
pub enum VideoAction {
    /// Read the `OPENAI_API_KEY` and `OPENAI_BASE_URL` settings.
    ReadSettings,
    /// Probe the video's duration and hold it against `MAX_DURATION_SECS`.
    Probe { video_path: String },
    /// Extract at most `max_frames` frames from the video.
    Extract { video_path: String, max_frames: u16 },
    /// Analyse the frames, in order, with the model.
    Analyse {
        api_key: String,
        base_url: String,
        frames: Vec<String>,
        prompt: String,
        model: String,
    },
    /// Reply to the MCP client.
    Reply { outcome: Result<String, ToolFailure> },
}

/// `VideoAction` with its texts as character sequences.
pub enum VideoActionView {
    ReadSettings,
    Probe { video_path: Seq<char> },
    Extract { video_path: Seq<char>, max_frames: u16 },
    Analyse {
        api_key: Seq<char>,
        base_url: Seq<char>,
        frames: Seq<Seq<char>>,
        prompt: Seq<char>,
        model: Seq<char>,
    },
    Reply { outcome: Result<Seq<char>, ToolFault> },
}

impl View for VideoAction {
    type V = VideoActionView;

    open spec fn view(&self) -> VideoActionView {
        match self {
            VideoAction::ReadSettings => VideoActionView::ReadSettings,
            VideoAction::Probe { video_path } => VideoActionView::Probe { video_path: video_path@ },
            VideoAction::Extract { video_path, max_frames } => VideoActionView::Extract {
                video_path: video_path@,
                max_frames: *max_frames,
            },
            VideoAction::Analyse { api_key, base_url, frames, prompt, model } =>
                VideoActionView::Analyse {
                api_key: api_key@,
                base_url: base_url@,
                frames: texts_view(frames@),
                prompt: prompt@,
                model: model@,
            },
            VideoAction::Reply { outcome } => VideoActionView::Reply {
                outcome: match outcome {
                    Ok(t) => Ok(t@),
                    Err(f) => Err(f@),
                },
            },
        }
    }
}

/// What happened when the caller performed a `VideoAction`.
pub enum VideoEvent {
    /// The settings, each absent when unset.
    Settings { api_key: Option<String>, base_url: Option<String> },
    /// The duration could not be probed.
    ProbeFailed { message: String },
    /// The duration was probed: whether it is within `MAX_DURATION_SECS`, and
    /// the duration in seconds as shown to the user (one decimal).
    Probed { within_limit: bool, shown_secs: String },
    /// Frame extraction failed.
    ExtractFailed { message: String },
    /// The extracted frames, in order.
    Extracted { frames: Vec<String> },
    /// The analysis: the model's text, or the failure's message.
    Analysed { outcome: Result<String, String> },
}

/// `VideoEvent` with its texts as character sequences.
pub enum VideoEventView {
    Settings { api_key: Option<Seq<char>>, base_url: Option<Seq<char>> },
    ProbeFailed { message: Seq<char> },
    Probed { within_limit: bool, shown_secs: Seq<char> },
    ExtractFailed { message: Seq<char> },
    Extracted { frames: Seq<Seq<char>> },
    Analysed { outcome: Result<Seq<char>, Seq<char>> },
}

impl View for VideoEvent {
    type V = VideoEventView;

    open spec fn view(&self) -> VideoEventView {
        match self {
            VideoEvent::Settings { api_key, base_url } => VideoEventView::Settings {
                api_key: api_key.deep_view(),
                base_url: base_url.deep_view(),
            },
            VideoEvent::ProbeFailed { message } => VideoEventView::ProbeFailed { message: message@ },
            VideoEvent::Probed { within_limit, shown_secs } => VideoEventView::Probed {
                within_limit: *within_limit,
                shown_secs: shown_secs@,
            },
            VideoEvent::ExtractFailed { message } => VideoEventView::ExtractFailed {
                message: message@,
            },
            VideoEvent::Extracted { frames } => VideoEventView::Extracted {
                frames: texts_view(frames@),
            },
            VideoEvent::Analysed { outcome } => VideoEventView::Analysed {
                outcome: match outcome {
                    Ok(t) => Ok(t@),
                    Err(m) => Err(m@),
                },
            },
        }
    }
}

/// The extension a video is judged by: empty when the path has none.
pub open spec fn video_ext_of(path: Seq<char>) -> Seq<char> {
    match path_extension(path) {
        Some(e) => e,
        None => ""@,
    }
}

/// The message for a video longer than the limit.
pub open spec fn too_long_text(shown_secs: Seq<char>) -> Seq<char> {
    "video duration "@ + shown_secs + "s exceeds the "@ + decimal(MAX_DURATION_SECS as nat)
        + "s limit; please provide a shorter clip"@
}

/// Whether an event answers the action of this stage.
pub open spec fn video_accepts(s: VideoCallView, e: VideoEventView) -> bool {
    match s.stage {
        VideoStage::Start => e is Settings,
        VideoStage::Probing => e is ProbeFailed || e is Probed,
        VideoStage::Extracting => e is ExtractFailed || e is Extracted,
        VideoStage::Analysing => e is Analysed,
        VideoStage::Done => false,
    }
}

/// The call in another stage.
pub open spec fn video_at(s: VideoCallView, stage: VideoStage) -> VideoCallView {
    VideoCallView { stage, ..s }
}

/// The call ends with this reply.
pub open spec fn video_reply(s: VideoCallView, outcome: Result<Seq<char>, ToolFault>) -> (
    VideoCallView,
    VideoActionView,
) {
    (video_at(s, VideoStage::Done), VideoActionView::Reply { outcome })
}

/// The next stage and action of a `vision.analyze_video` call after an
/// accepted event.
///
/// * Settings: without an API key the call fails (internal error); then an
///   unsupported extension fails (invalid parameters); otherwise the
///   duration is probed.  Nothing touches the video before both checks.
/// * A probe failure is an internal error; a video over the limit is an
///   invalid parameter; otherwise at most `MAX_FRAMES` frames are extracted.
/// * An extraction failure is an internal error; otherwise the frames, capped
///   at `MAX_FRAMES`, are analysed with `gpt-4o`, the base URL defaulting to
///   `https://api.openai.com`.
/// * The analysis gives the reply text, or an internal error with its message.
pub open spec fn video_step(s: VideoCallView, e: VideoEventView) -> (VideoCallView, VideoActionView) {
    match (s.stage, e) {
        (VideoStage::Start, VideoEventView::Settings { api_key, base_url }) => match api_key {
            None => video_reply(
                s,
                Err(ToolFault::Internal { message: "OPENAI_API_KEY is not set"@ }),
            ),
            Some(k) => if is_supported_video_ext(video_ext_of(s.video_path)) {
                (
                    VideoCallView {
                        stage: VideoStage::Probing,
                        api_key: k,
                        base_url: match base_url {
                            Some(u) => u,
                            None => "https://api.openai.com"@,
                        },
                        ..s
                    },
                    VideoActionView::Probe { video_path: s.video_path },
                )
            } else {
                video_reply(
                    s,
                    Err(ToolFault::InvalidParams {
                        message: unsupported_video_text(video_ext_of(s.video_path)),
                    }),
                )
            },
        },
        (VideoStage::Probing, VideoEventView::ProbeFailed { message }) => video_reply(
            s,
            Err(ToolFault::Internal { message }),
        ),
        (VideoStage::Probing, VideoEventView::Probed { within_limit, shown_secs }) =>
            if within_limit {
            (
                video_at(s, VideoStage::Extracting),
                VideoActionView::Extract { video_path: s.video_path, max_frames: MAX_FRAMES },
            )
        } else {
            video_reply(s, Err(ToolFault::InvalidParams { message: too_long_text(shown_secs) }))
        },
        (VideoStage::Extracting, VideoEventView::ExtractFailed { message }) => video_reply(
            s,
            Err(ToolFault::Internal { message }),
        ),
        (VideoStage::Extracting, VideoEventView::Extracted { frames }) => (
            video_at(s, VideoStage::Analysing),
            VideoActionView::Analyse {
                api_key: s.api_key,
                base_url: s.base_url,
                frames: capped_frames(frames, MAX_FRAMES),
                prompt: s.prompt,
                model: "gpt-4o"@,
            },
        ),
        (VideoStage::Analysing, VideoEventView::Analysed { outcome }) => video_reply(
            s,
            match outcome {
                Ok(t) => Ok(t),
                Err(message) => Err(ToolFault::Internal { message }),
            },
        ),
        _ => (s, VideoActionView::ReadSettings),
    }
}

/// Starts a `vision.analyze_video` call: the settings are read first.
pub fn start_video_call(video_path: &str, prompt: &str) -> (r: (VideoCall, VideoAction))
    ensures
        r.0@ == (VideoCallView {
            stage: VideoStage::Start,
            video_path: video_path@,
            prompt: prompt@,
            api_key: Seq::empty(),
            base_url: Seq::empty(),
        }),
        r.1@ == VideoActionView::ReadSettings,
{
    (
        VideoCall {
            stage: VideoStage::Start,
            video_path: String::from_str(video_path),
            prompt: String::from_str(prompt),
            api_key: String::new(),
            base_url: String::new(),
        },
        VideoAction::ReadSettings,
    )
}

fn fault_reply(f: ToolFailure) -> (r: VideoAction)
    ensures
        r@ == (VideoActionView::Reply { outcome: Err(f@) }),
{
    VideoAction::Reply { outcome: Err(f) }
}

impl VideoCall {
    /// Where the call stands.
    pub fn stage(&self) -> (r: VideoStage)
        ensures
            r == self@.stage,
    {
        self.stage
    }

    /// Takes the next decision (see `video_step`).
    pub fn advance(self, event: VideoEvent) -> (r: (VideoCall, VideoAction))
        requires
            video_accepts(self@, event@),
        ensures
            (r.0@, r.1@) == video_step(self@, event@),
    {
        let ghost s = self@;
        match (self.stage, event) {
            (VideoStage::Start, VideoEvent::Settings { api_key, base_url }) => {
                match api_key_setting(api_key) {
                    Err(f) => {
                        let next = VideoCall { stage: VideoStage::Done, ..self };
                        assert(next@ == video_at(s, VideoStage::Done));
                        (next, fault_reply(f))
                    },
                    Ok(key) => {
                        let ext = match file_extension(self.video_path.as_str()) {
                            Some(x) => x,
                            None => String::new(),
                        };
                        proof {
                            reveal_strlit("");
                            assert(""@ =~= Seq::<char>::empty());
                            assert(ext@ == video_ext_of(s.video_path));
                        }
                        match check_video_ext(ext.as_str()) {
                            Err(f) => {
                                let next = VideoCall { stage: VideoStage::Done, ..self };
                                assert(next@ == video_at(s, VideoStage::Done));
                                (next, fault_reply(f))
                            },
                            Ok(()) => {
                                let url = base_url_setting(base_url);
                                let path = self.video_path.clone();
                                (
                                    VideoCall {
                                        stage: VideoStage::Probing,
                                        api_key: key,
                                        base_url: url,
                                        ..self
                                    },
                                    VideoAction::Probe { video_path: path },
                                )
                            },
                        }
                    },
                }
            },
            (VideoStage::Probing, VideoEvent::ProbeFailed { message }) => {
                let next = VideoCall { stage: VideoStage::Done, ..self };
                assert(next@ == video_at(s, VideoStage::Done));
                (next, fault_reply(ToolFailure::Internal { message }))
            },
            (VideoStage::Probing, VideoEvent::Probed { within_limit, shown_secs }) => {
                if within_limit {
                    let path = self.video_path.clone();
                    let next = VideoCall { stage: VideoStage::Extracting, ..self };
                    assert(next@ == video_at(s, VideoStage::Extracting));
                    (next, VideoAction::Extract { video_path: path, max_frames: MAX_FRAMES })
                } else {
                    let mut m = String::from_str("video duration ");
                    m.append(shown_secs.as_str());
                    m.append("s exceeds the ");
                    push_decimal(&mut m, MAX_DURATION_SECS as u64);
                    m.append("s limit; please provide a shorter clip");
                    assert(m@ =~= too_long_text(shown_secs@));
                    let next = VideoCall { stage: VideoStage::Done, ..self };
                    assert(next@ == video_at(s, VideoStage::Done));
                    (next, fault_reply(ToolFailure::InvalidParams { message: m }))
                }
            },
            (VideoStage::Extracting, VideoEvent::ExtractFailed { message }) => {
                let next = VideoCall { stage: VideoStage::Done, ..self };
                assert(next@ == video_at(s, VideoStage::Done));
                (next, fault_reply(ToolFailure::Internal { message }))
            },
            (VideoStage::Extracting, VideoEvent::Extracted { frames }) => {
                let action = VideoAction::Analyse {
                    api_key: self.api_key.clone(),
                    base_url: self.base_url.clone(),
                    frames: cap_frames(frames, MAX_FRAMES),
                    prompt: self.prompt.clone(),
                    model: video_model(),
                };
                let next = VideoCall { stage: VideoStage::Analysing, ..self };
                assert(next@ == video_at(s, VideoStage::Analysing));
                (next, action)
            },
            (VideoStage::Analysing, VideoEvent::Analysed { outcome }) => {
                let reply = match outcome {
                    Ok(t) => VideoAction::Reply { outcome: Ok(t) },
                    Err(message) => fault_reply(ToolFailure::Internal { message }),
                };
                let next = VideoCall { stage: VideoStage::Done, ..self };
                assert(next@ == video_at(s, VideoStage::Done));
                (next, reply)
            },
            (_, _) => (self, VideoAction::ReadSettings),
        }
    }
}

/// Law: nothing touches the video (no probe, no extraction) and nothing is
/// sent before the API key is found and the extension is accepted; the first
/// step after the settings either replies with a failure or probes.
pub proof fn lemma_video_checks_first(s: VideoCallView, e: VideoEventView)
    requires
        s.stage == VideoStage::Start,
        video_accepts(s, e),
    ensures
        video_step(s, e).1 is Probe ==> (e->Settings_api_key is Some && is_supported_video_ext(
            video_ext_of(s.video_path),
        )),
        video_step(s, e).1 is Probe || (video_step(s, e).1 matches VideoActionView::Reply {
            outcome,
        } && outcome is Err),
{
}

/// Law: a `vision.analyze_video` call sends at most `MAX_FRAMES` (16) frames
/// to the vision API, however many the extraction gave, and sends them only
/// after the duration was found within the limit.
pub proof fn lemma_video_frames_capped(s: VideoCallView, e: VideoEventView)
    requires
        video_accepts(s, e),
    ensures
        video_step(s, e).1 matches VideoActionView::Analyse { frames, model, .. } ==> (frames.len()
            <= MAX_FRAMES && model == "gpt-4o"@ && s.stage == VideoStage::Extracting),
        video_step(s, e).1 is Extract ==> (s.stage == VideoStage::Probing && (
        e matches VideoEventView::Probed { within_limit, .. } && within_limit)),
{
    if let VideoEventView::Extracted { frames } = e {
        lemma_capped_frames(frames, MAX_FRAMES);
    }
}

/// Law: every accepted event brings a `vision.analyze_video` call closer to
/// its reply, and the reply ends it.
pub proof fn lemma_video_progress(s: VideoCallView, e: VideoEventView)
    requires
        video_accepts(s, e),
    ensures
        video_stage_rank(video_step(s, e).0.stage) < video_stage_rank(s.stage),
        (video_step(s, e).1 is Reply) == (video_step(s, e).0.stage == VideoStage::Done),
{
}

/// The most events a call at this stage can still take.
pub open spec fn video_stage_rank(stage: VideoStage) -> nat {
    match stage {
        VideoStage::Start => 4,
        VideoStage::Probing => 3,
        VideoStage::Extracting => 2,
        VideoStage::Analysing => 1,
        VideoStage::Done => 0,
    }
}

} // verus!

verus! {

/// Law: once the settings are read, a call without an API key fails at
/// once; with a key, a video whose lowercased extension is `mp4`, `mov` or
/// `webm` is probed next (keeping the key, and the base URL or
/// `https://api.openai.com`), and any other video is refused as an invalid
/// parameter naming its extension; nothing else happens first.
pub proof fn lemma_video_settings_step(
    s: VideoCallView,
    key: Option<Seq<char>>,
    base_url: Option<Seq<char>>,
)
    requires
        s.stage == VideoStage::Start,
    ensures
        ({
            let ext = match path_extension(s.video_path) {
                Some(e) => e,
                None => ""@,
            };
            let lower = crate::text::unicode_lowercase(ext);
            let r = video_step(s, VideoEventView::Settings { api_key: key, base_url });
            match key {
                None => r.1 == VideoActionView::Reply {
                    outcome: Err(ToolFault::Internal { message: "OPENAI_API_KEY is not set"@ }),
                },
                Some(k) => if lower == "mp4"@ || lower == "mov"@ || lower == "webm"@ {
                    &&& r.1 == VideoActionView::Probe { video_path: s.video_path }
                    &&& r.0.stage == VideoStage::Probing
                    &&& r.0.api_key == k
                    &&& r.0.base_url == match base_url {
                        Some(u) => u,
                        None => "https://api.openai.com"@,
                    }
                    &&& r.0.video_path == s.video_path
                    &&& r.0.prompt == s.prompt
                } else {
                    &&& r.1 == VideoActionView::Reply {
                        outcome: Err(
                            ToolFault::InvalidParams {
                                message: "unsupported video format '."@ + ext
                                    + "'; supported formats: mp4, mov, webm"@,
                            },
                        ),
                    }
                    &&& r.0.stage == VideoStage::Done
                },
            }
        }),
{
}

/// Law: a video found within the limit has at most 16 frames extracted;
/// one over it is refused with its shown duration and the 30-second limit;
/// the extracted frames go to `gpt-4o` as their first 16 (all of them when
/// there are no more), in order, with the call's key, base URL and prompt.
pub proof fn lemma_video_later_steps(s: VideoCallView, shown: Seq<char>, frames: Seq<Seq<char>>)
    ensures
        s.stage == VideoStage::Probing ==> video_step(
            s,
            VideoEventView::Probed { within_limit: true, shown_secs: shown },
        ).1 == (VideoActionView::Extract { video_path: s.video_path, max_frames: 16 }),
        s.stage == VideoStage::Probing ==> video_step(
            s,
            VideoEventView::Probed { within_limit: false, shown_secs: shown },
        ).1 == (VideoActionView::Reply {
            outcome: Err(
                ToolFault::InvalidParams {
                    message: "video duration "@ + shown + "s exceeds the "@ + "30"@
                        + "s limit; please provide a shorter clip"@,
                },
            ),
        }),
        s.stage == VideoStage::Extracting ==> video_step(
            s,
            VideoEventView::Extracted { frames },
        ).1 == (VideoActionView::Analyse {
            api_key: s.api_key,
            base_url: s.base_url,
            frames: if frames.len() <= 16 {
                frames
            } else {
                frames.take(16)
            },
            prompt: s.prompt,
            model: "gpt-4o"@,
        }),
{
    reveal_strlit("30");
    assert(decimal(30) =~= "30"@) by {
        assert(decimal(3) == seq!['3']);
    }
}

} // verus!
