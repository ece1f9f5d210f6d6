//! The vision client: its HTTP client and credentials, and the steps of one
//! call to the chat-completions endpoint as a state machine.  The caller
//! performs each action (reading files, sending the request, parsing the
//! reply) and feeds back what happened; every decision is taken here.

use vstd::prelude::*;
use crate::chat::{
    image_request, image_request_view, is_success_status, reply_outcome, response_text,
    sequence_request, sequence_request_view, status_is_success, text_result_view, ChatRequest,
    ChatResponse, RequestView,
};
use crate::error::{VisionError, VisionFault};
use crate::media::{
    data_url, data_url_text, encodable_len, image_mime, mime_for_lowercase_ext, mime_outcome,
    mime_result_view, standard_base64,
};
use crate::paths::{file_extension, path_extension};
use crate::text::{ascii_lowercase, is_ascii_text, to_lowercase, unicode_lowercase};

verus! {

#[verifier::external_type_specification]
#[verifier::external_body]
pub struct ExHttpClient(reqwest::Client);

#[verifier::external_type_specification]
#[verifier::external_body]
pub struct ExHttpClientBuilder(reqwest::ClientBuilder);

#[verifier::external_type_specification]
#[verifier::external_body]
pub struct ExHttpError(reqwest::Error);

/// The total request timeout, in seconds, that a client builder is set to
/// (`None`: no total timeout).
pub uninterp spec fn builder_timeout_secs(b: reqwest::ClientBuilder) -> Option<u64>;

/// The total request timeout, in seconds, that a client applies to each
/// request (`None`: no total timeout).
pub uninterp spec fn client_timeout_secs(c: reqwest::Client) -> Option<u64>;

/// Calls `reqwest::Client::builder`, a builder with default settings; by
/// default it sets no total request timeout.
#[verifier::external_body]
fn http_client_builder() -> (r: reqwest::ClientBuilder)
    ensures
        builder_timeout_secs(r) == None::<u64>,
{
    reqwest::Client::builder()
}

/// Calls `reqwest::ClientBuilder::timeout` with a total request timeout of
/// `secs` seconds, which the returned builder carries.
#[verifier::external_body]
fn with_request_timeout(builder: reqwest::ClientBuilder, secs: u64) -> (r: reqwest::ClientBuilder)
    ensures
        builder_timeout_secs(r) == Some(secs),
{
    builder.timeout(std::time::Duration::from_secs(secs))
}

/// Calls `reqwest::ClientBuilder::build`.  It fails when the TLS backend or
/// the resolver cannot be set up, which depends on the machine, so nothing is
/// stated of which outcome comes back; a client that is built applies the
/// builder's total request timeout.
#[verifier::external_body]
fn build_http_client(builder: reqwest::ClientBuilder) -> (r: Result<reqwest::Client, reqwest::Error>)
    ensures
        r matches Ok(c) ==> client_timeout_secs(c) == builder_timeout_secs(builder),
{
    builder.build()
}

/// The canonical reason phrase of an HTTP status code (such as `Too Many
/// Requests` for 429), as `reqwest::StatusCode::canonical_reason` gives it;
/// `None` for a code without one.
pub uninterp spec fn canonical_reason(code: u16) -> Option<Seq<char>>;

/// Calls `reqwest::StatusCode::canonical_reason` for the status code; the
/// phrase is named `canonical_reason` of the code.  A number outside
/// 100..=999 is no status code and has no phrase.
#[verifier::external_body]
fn status_reason(code: u16) -> (r: Option<String>)
    ensures
        r.deep_view() == canonical_reason(code),
{
    reqwest::StatusCode::from_u16(code).ok().and_then(|s| s.canonical_reason()).map(|p| p.to_string())
}

/// Renders a `reqwest::Error` through its `Display`; the text is not stated.
#[verifier::external_body]
fn http_error_text(e: &reqwest::Error) -> String {
    e.to_string()
}

/// The total timeout of one HTTP request, in seconds.
pub const REQUEST_TIMEOUT_SECS: u64 = 60;

/// Thin wrapper around the OpenAI Chat Completions endpoint for vision.
pub struct VisionClient {
    api_key: String,
    http: reqwest::Client,
    base_url: String,
}

/// What a `VisionClient` holds: its key, its base URL and its HTTP client.
pub struct ClientView {
    pub api_key: Seq<char>,
    pub base_url: Seq<char>,
    pub http: reqwest::Client,
}

impl View for VisionClient {
    type V = ClientView;

    closed spec fn view(&self) -> ClientView {
        ClientView { api_key: self.api_key@, base_url: self.base_url@, http: self.http }
    }
}

/// The chat-completions URL under a base URL.
pub open spec fn completions_url_text(base_url: Seq<char>) -> Seq<char> {
    base_url + "/v1/chat/completions"@
}

/// The extension a single image is judged by: empty when the path has none.
pub open spec fn image_ext_of(path: Seq<char>) -> Seq<char> {
    match path_extension(path) {
        Some(e) => e,
        None => ""@,
    }
}

/// The extension a frame is judged by: `jpg` when the path has none.
pub open spec fn frame_ext_of(path: Seq<char>) -> Seq<char> {
    match path_extension(path) {
        Some(e) => e,
        None => "jpg"@,
    }
}

/// The MIME type a frame is sent with: that of its extension, and
/// `image/jpeg` when the extension names no accepted format.
pub open spec fn frame_mime(path: Seq<char>) -> Seq<char> {
    match image_mime(unicode_lowercase(frame_ext_of(path))) {
        Some(m) => m,
        None => "image/jpeg"@,
    }
}

/// The `data:` URLs of frames with their contents, in order.
pub open spec fn frame_urls(paths: Seq<Seq<char>>, contents: Seq<Seq<u8>>) -> Seq<Seq<char>> {
    Seq::new(
        paths.len(),
        |i: int| data_url_text(frame_mime(paths[i]), standard_base64(contents[i])),
    )
}

/// Where a call stands.
#[derive(Clone, Copy, Debug, PartialEq, Eq, Structural)]
pub enum Stage {
    /// Waiting for the contents of the one image.
    ReadImage,
    /// Waiting for the contents of all frames.
    ReadFrames,
    /// The request was handed out; waiting for the reply.
    AwaitReply,
    /// The reply body was handed out for parsing.
    AwaitParse,
    /// The outcome was handed out.
    Done,
}

/// One call to the vision API in progress.
pub struct Exchange {
    stage: Stage,
    url: String,
    api_key: String,
    model: String,
    prompt: String,
    paths: Vec<String>,
}

/// What an `Exchange` holds.
pub struct ExchangeView {
    pub stage: Stage,
    pub url: Seq<char>,
    pub api_key: Seq<char>,
    pub model: Seq<char>,
    pub prompt: Seq<char>,
    pub paths: Seq<Seq<char>>,
}

impl View for Exchange {
    type V = ExchangeView;

    closed spec fn view(&self) -> ExchangeView {
        ExchangeView {
            stage: self.stage,
            url: self.url@,
            api_key: self.api_key@,
            model: self.model@,
            prompt: self.prompt@,
            paths: self.paths.deep_view(),
        }
    }
}

/// What the caller is asked to do next.
pub enum Action {
    /// Read these files, in order, stopping at the first that fails.
    ReadFiles { paths: Vec<String> },
    /// POST the request as JSON to the URL with the key as bearer token.
    Post { url: String, api_key: String, request: ChatRequest },
    /// Parse the body as a chat-completions reply.
    ParseBody { body: String },
    /// The call is over with this outcome.
    Finish { outcome: Result<String, VisionError> },
}

/// `Action` with its texts as character sequences.
pub enum ActionView {
    ReadFiles { paths: Seq<Seq<char>> },
    Post { url: Seq<char>, api_key: Seq<char>, request: RequestView },
    ParseBody { body: Seq<char> },
    Finish { outcome: Result<Seq<char>, VisionFault> },
}

impl View for Action {
    type V = ActionView;

    open spec fn view(&self) -> ActionView {
        match self {
            Action::ReadFiles { paths } => ActionView::ReadFiles { paths: paths.deep_view() },
            Action::Post { url, api_key, request } => ActionView::Post {
                url: url@,
                api_key: api_key@,
                request: request@,
            },
            Action::ParseBody { body } => ActionView::ParseBody { body: body@ },
            Action::Finish { outcome } => ActionView::Finish { outcome: text_result_view(*outcome) },
        }
    }
}

/// What happened when the caller performed an action.
pub enum Event {
    /// All files were read; their contents in order.
    FilesRead { contents: Vec<Vec<u8>> },
    /// The file at this position could not be read.
    FileUnreadable { index: usize, cause: String },
    /// The request could not be sent.
    PostFailed { cause: String },
    /// A reply came but its body could not be read.
    BodyUnreadable { cause: String },
    /// A reply came: its status code and its body.
    Replied { status: u16, body: String },
    /// The body parsed as a chat-completions reply.
    Parsed { response: ChatResponse },
    /// The body did not parse.
    Unparsable { cause: String },
}

/// `Event` with its contents as sequences.
pub enum EventView {
    FilesRead { contents: Seq<Seq<u8>> },
    FileUnreadable { index: usize, cause: Seq<char> },
    PostFailed { cause: Seq<char> },
    BodyUnreadable { cause: Seq<char> },
    Replied { status: u16, body: Seq<char> },
    Parsed { choices: Seq<Option<Seq<char>>> },
    Unparsable { cause: Seq<char> },
}

impl View for Event {
    type V = EventView;

    open spec fn view(&self) -> EventView {
        match self {
            Event::FilesRead { contents } => EventView::FilesRead { contents: contents.deep_view() },
            Event::FileUnreadable { index, cause } => EventView::FileUnreadable {
                index: *index,
                cause: cause@,
            },
            Event::PostFailed { cause } => EventView::PostFailed { cause: cause@ },
            Event::BodyUnreadable { cause } => EventView::BodyUnreadable { cause: cause@ },
            Event::Replied { status, body } => EventView::Replied {
                status: *status,
                body: body@,
            },
            Event::Parsed { response } => EventView::Parsed { choices: response@ },
            Event::Unparsable { cause } => EventView::Unparsable { cause: cause@ },
        }
    }
}

/// Whether an event can answer the action of this stage.  File contents must
/// also be small enough to base64-encode where they are encoded (the encoder
/// panics on lengths whose encoding overflows `usize`).
pub open spec fn accepts(s: ExchangeView, e: EventView) -> bool {
    match s.stage {
        Stage::ReadImage => match e {
            EventView::FilesRead { contents } => contents.len() == 1 && s.paths.len() == 1 && (
            mime_outcome(unicode_lowercase(image_ext_of(s.paths[0]))) is Ok ==> encodable_len(
                contents[0].len(),
            )),
            EventView::FileUnreadable { index, .. } => index == 0 && s.paths.len() == 1,
            _ => false,
        },
        Stage::ReadFrames => match e {
            EventView::FilesRead { contents } => contents.len() == s.paths.len() && forall|i: int|
                0 <= i < contents.len() ==> encodable_len(#[trigger] contents[i].len()),
            EventView::FileUnreadable { index, .. } => index < s.paths.len(),
            _ => false,
        },
        Stage::AwaitReply => match e {
            EventView::PostFailed { .. } => true,
            EventView::BodyUnreadable { .. } => true,
            EventView::Replied { .. } => true,
            _ => false,
        },
        Stage::AwaitParse => match e {
            EventView::Parsed { .. } => true,
            EventView::Unparsable { .. } => true,
            _ => false,
        },
        Stage::Done => false,
    }
}

/// The exchange in another stage.
pub open spec fn at_stage(s: ExchangeView, stage: Stage) -> ExchangeView {
    ExchangeView { stage, ..s }
}

/// The call ends with this outcome.
pub open spec fn finish(s: ExchangeView, outcome: Result<Seq<char>, VisionFault>) -> (
    ExchangeView,
    ActionView,
) {
    (at_stage(s, Stage::Done), ActionView::Finish { outcome })
}

/// The request is sent.
pub open spec fn post(s: ExchangeView, request: RequestView) -> (ExchangeView, ActionView) {
    (
        at_stage(s, Stage::AwaitReply),
        ActionView::Post { url: s.url, api_key: s.api_key, request },
    )
}

/// The next stage and action after an accepted event.
///
/// * The image is read: its extension must name an accepted format (else the
///   call ends with that error); the request holds its `data:` URL and the
///   prompt.
/// * The frames are read: each frame goes as a `data:` URL (falling back to
///   `image/jpeg`), in order, then the prompt.
/// * A file could not be read: the call ends naming the file.
/// * A reply with a 2xx status goes to parsing; any other status ends the
///   call with the status, its canonical reason phrase and the body.
/// * A parsed reply ends the call with the text of its first choice, or
///   `NoContent`.
/// * Transport, body and parse failures end the call with their cause.
pub open spec fn exchange_step(s: ExchangeView, e: EventView) -> (ExchangeView, ActionView) {
    match s.stage {
        Stage::ReadImage => match e {
            EventView::FilesRead { contents } => match mime_outcome(
                unicode_lowercase(image_ext_of(s.paths[0])),
            ) {
                Ok(m) => post(
                    s,
                    image_request_view(
                        s.model,
                        data_url_text(m, standard_base64(contents[0])),
                        s.prompt,
                    ),
                ),
                Err(f) => finish(s, Err(f)),
            },
            EventView::FileUnreadable { cause, .. } => finish(
                s,
                Err(VisionFault::UnreadableImage { path: s.paths[0], cause }),
            ),
            _ => (s, ActionView::ReadFiles { paths: s.paths }),
        },
        Stage::ReadFrames => match e {
            EventView::FilesRead { contents } => post(
                s,
                sequence_request_view(s.model, frame_urls(s.paths, contents), s.prompt),
            ),
            EventView::FileUnreadable { index, cause } => finish(
                s,
                Err(VisionFault::UnreadableFrame { path: s.paths[index as int], cause }),
            ),
            _ => (s, ActionView::ReadFiles { paths: s.paths }),
        },
        Stage::AwaitReply => match e {
            EventView::PostFailed { cause } => finish(s, Err(VisionFault::RequestFailed { cause })),
            EventView::BodyUnreadable { cause } => finish(
                s,
                Err(VisionFault::BodyUnreadable { cause }),
            ),
            EventView::Replied { status, body } => if is_success_status(status) {
                (at_stage(s, Stage::AwaitParse), ActionView::ParseBody { body })
            } else {
                finish(
                    s,
                    Err(VisionFault::ApiStatus { status, reason: canonical_reason(status), body }),
                )
            },
            _ => (s, ActionView::ReadFiles { paths: Seq::empty() }),
        },
        Stage::AwaitParse => match e {
            EventView::Parsed { choices } => finish(s, reply_outcome(choices)),
            EventView::Unparsable { cause } => finish(
                s,
                Err(VisionFault::MalformedResponse { cause }),
            ),
            _ => (s, ActionView::ReadFiles { paths: Seq::empty() }),
        },
        Stage::Done => (s, ActionView::ReadFiles { paths: Seq::empty() }),
    }
}

/// The first stage and action of `recognize`: read the image.
pub open spec fn start_image(c: ClientView, path: Seq<char>, prompt: Seq<char>, model: Seq<char>) -> (
    ExchangeView,
    ActionView,
) {
    (
        ExchangeView {
            stage: Stage::ReadImage,
            url: completions_url_text(c.base_url),
            api_key: c.api_key,
            model,
            prompt,
            paths: seq![path],
        },
        ActionView::ReadFiles { paths: seq![path] },
    )
}

/// The first stage and action of `recognize_sequence`: read the frames, or
/// end at once with `EmptyFrames` when there are none.
pub open spec fn start_sequence(
    c: ClientView,
    frames: Seq<Seq<char>>,
    prompt: Seq<char>,
    model: Seq<char>,
) -> (ExchangeView, ActionView) {
    let s = ExchangeView {
        stage: Stage::ReadFrames,
        url: completions_url_text(c.base_url),
        api_key: c.api_key,
        model,
        prompt,
        paths: frames,
    };
    if frames.len() == 0 {
        finish(s, Err(VisionFault::EmptyFrames))
    } else {
        (s, ActionView::ReadFiles { paths: frames })
    }
}

impl VisionClient {
    /// Create a new client.
    ///
    /// `base_url` is normally `"https://api.openai.com"`.  The HTTP client
    /// applies a total timeout of `REQUEST_TIMEOUT_SECS` (one minute) to each
    /// request.  Fails with `ClientInit` when the HTTP client (TLS stack)
    /// cannot be set up.
    pub fn new(api_key: &str, base_url: &str) -> (r: Result<VisionClient, VisionError>)
        ensures
            r matches Ok(c) ==> c@.api_key == api_key@ && c@.base_url == base_url@
                && client_timeout_secs(c@.http) == Some(REQUEST_TIMEOUT_SECS),
            r matches Err(e) ==> e@ is ClientInit,
    {
        let builder = with_request_timeout(http_client_builder(), REQUEST_TIMEOUT_SECS);
        match build_http_client(builder) {
            Ok(http) => Ok(VisionClient {
                api_key: String::from_str(api_key),
                http,
                base_url: String::from_str(base_url),
            }),
            Err(e) => Err(VisionError::ClientInit { cause: http_error_text(&e) }),
        }
    }

    /// Return the MIME type for a supported image extension, compared after
    /// lowercasing.  HEIC/HEIF and every other extension are errors.
    pub fn mime_for_ext(ext: &str) -> (r: Result<&'static str, VisionError>)
        ensures
            mime_result_view(r) == mime_outcome(unicode_lowercase(ext@)),
            mime_result_view(r) == mime_outcome(unicode_lowercase(ascii_lowercase(ext@))),
            is_ascii_text(ext@) ==> mime_result_view(r) == mime_outcome(ascii_lowercase(ext@)),
    {
        let lower = to_lowercase(ext);
        mime_for_lowercase_ext(lower.as_str())
    }

    /// The HTTP client requests are sent with: the one this client holds.
    pub fn http(&self) -> (r: &reqwest::Client)
        ensures
            *r == self@.http,
    {
        &self.http
    }

    /// The API key.
    pub fn api_key(&self) -> (r: &str)
        ensures
            r@ == self@.api_key,
    {
        self.api_key.as_str()
    }

    /// The base URL.
    pub fn base_url(&self) -> (r: &str)
        ensures
            r@ == self@.base_url,
    {
        self.base_url.as_str()
    }

    /// The chat-completions URL: `{base_url}/v1/chat/completions`.
    pub fn completions_url(&self) -> (r: String)
        ensures
            r@ == completions_url_text(self@.base_url),
    {
        let mut s = self.base_url.clone();
        s.append("/v1/chat/completions");
        s
    }

    /// Starts analysing one image file: the image is read first.
    pub fn start_recognize(&self, image_path: &str, prompt: &str, model: &str) -> (r: (
        Exchange,
        Action,
    ))
        ensures
            (r.0@, r.1@) == start_image(self@, image_path@, prompt@, model@),
    {
        let mut paths: Vec<String> = Vec::new();
        paths.push(String::from_str(image_path));
        let mut again: Vec<String> = Vec::new();
        again.push(String::from_str(image_path));
        let ex = Exchange {
            stage: Stage::ReadImage,
            url: self.completions_url(),
            api_key: self.api_key.clone(),
            model: String::from_str(model),
            prompt: String::from_str(prompt),
            paths,
        };
        proof {
            assert(ex@.paths =~= seq![image_path@]);
            assert(again.deep_view() =~= seq![image_path@]);
        }
        (ex, Action::ReadFiles { paths: again })
    }

    /// Starts analysing a sequence of frames (all sent as one message): the
    /// frames are read first; with no frames the call ends at once.
    pub fn start_recognize_sequence(&self, frames: &Vec<String>, prompt: &str, model: &str) -> (r: (
        Exchange,
        Action,
    ))
        ensures
            (r.0@, r.1@) == start_sequence(self@, frames.deep_view(), prompt@, model@),
    {
        let ex = Exchange {
            stage: Stage::ReadFrames,
            url: self.completions_url(),
            api_key: self.api_key.clone(),
            model: String::from_str(model),
            prompt: String::from_str(prompt),
            paths: clone_texts(frames),
        };
        if frames.len() == 0 {
            (
                Exchange { stage: Stage::Done, ..ex },
                Action::Finish { outcome: Err(VisionError::EmptyFrames) },
            )
        } else {
            (ex, Action::ReadFiles { paths: clone_texts(frames) })
        }
    }
}

/// A copy of a vector of strings.
fn clone_texts(v: &Vec<String>) -> (r: Vec<String>)
    ensures
        r.deep_view() == v.deep_view(),
{
    let mut r: Vec<String> = Vec::new();
    let n = v.len();
    let mut i: usize = 0;
    while i < n
        invariant
            n == v.len(),
            i <= n,
            r.len() == i,
            forall|k: int| 0 <= k < i ==> #[trigger] r@[k]@ == v@[k]@,
        decreases n - i,
    {
        r.push(v[i].clone());
        i = i + 1;
    }
    assert(r.deep_view() =~= v.deep_view());
    r
}

impl Exchange {
    /// Where the call stands.
    pub fn stage(&self) -> (r: Stage)
        ensures
            r == self@.stage,
    {
        self.stage
    }

    /// Takes the next decision: from what happened to the next stage and
    /// action (see `exchange_step`).
    pub fn advance(self, event: Event) -> (r: (Exchange, Action))
        requires
            accepts(self@, event@),
        ensures
            (r.0@, r.1@) == exchange_step(self@, event@),
    {
        let ghost s = self@;
        match self.stage {
            Stage::ReadImage => match event {
                Event::FilesRead { contents } => {
                    let ext = match file_extension(self.paths[0].as_str()) {
                        Some(x) => x,
                        None => String::new(),
                    };
                    proof {
                        reveal_strlit("");
                        assert(""@ =~= Seq::<char>::empty());
                        assert(ext@ == image_ext_of(s.paths[0]));
                        assert(contents.deep_view()[0] == contents@[0]@);
                    }
                    let lower = to_lowercase(ext.as_str());
                    match mime_for_lowercase_ext(lower.as_str()) {
                        Ok(mime) => {
                            let url = data_url(mime, contents[0].as_slice());
                            let request = image_request(self.model.as_str(), url, self.prompt.as_str());
                            let post_url = self.url.clone();
                            let key = self.api_key.clone();
                            let next = Exchange { stage: Stage::AwaitReply, ..self };
                            assert(next@ == at_stage(s, Stage::AwaitReply));
                            (next, Action::Post { url: post_url, api_key: key, request })
                        },
                        Err(err) => {
                            let next = Exchange { stage: Stage::Done, ..self };
                            assert(next@ == at_stage(s, Stage::Done));
                            (next, Action::Finish { outcome: Err(err) })
                        },
                    }
                },
                Event::FileUnreadable { cause, .. } => {
                    let path = self.paths[0].clone();
                    let next = Exchange { stage: Stage::Done, ..self };
                    assert(next@ == at_stage(s, Stage::Done));
                    (next, Action::Finish { outcome: Err(VisionError::UnreadableImage { path, cause }) })
                },
                _ => (self, Action::ReadFiles { paths: Vec::new() }),
            },
            Stage::ReadFrames => match event {
                Event::FilesRead { contents } => {
                    let n = self.paths.len();
                    let mut urls: Vec<String> = Vec::new();
                    let mut i: usize = 0;
                    assert forall|k: int| 0 <= k < contents.len() implies encodable_len(
                        #[trigger] contents@[k]@.len(),
                    ) by {
                        assert(contents.deep_view()[k] =~= contents@[k]@);
                    }
                    while i < n
                        invariant
                            n == self.paths.len(),
                            n == contents.len(),
                            s == self@,
                            i <= n,
                            urls.len() == i,
                            forall|k: int| 0 <= k < contents.len() ==> encodable_len(#[trigger] contents@[k]@.len()),
                            forall|k: int| 0 <= k < i ==> #[trigger] urls@[k]@ == frame_urls(s.paths, contents.deep_view())[k],
                        decreases n - i,
                    {
                        let ext = match file_extension(self.paths[i].as_str()) {
                            Some(x) => x,
                            None => String::from_str("jpg"),
                        };
                        let lower = to_lowercase(ext.as_str());
                        let mime = match mime_for_lowercase_ext(lower.as_str()) {
                            Ok(m) => m,
                            Err(_) => "image/jpeg",
                        };
                        assert(contents.deep_view()[i as int] == contents@[i as int]@);
                        let url = data_url(mime, contents[i].as_slice());
                        urls.push(url);
                        i = i + 1;
                    }
                    let request = sequence_request(self.model.as_str(), urls, self.prompt.as_str());
                    proof {
                        assert(urls.deep_view() =~= frame_urls(s.paths, contents.deep_view()));
                    }
                    let post_url = self.url.clone();
                    let key = self.api_key.clone();
                    let next = Exchange { stage: Stage::AwaitReply, ..self };
                    assert(next@ == at_stage(s, Stage::AwaitReply));
                    (next, Action::Post { url: post_url, api_key: key, request })
                },
                Event::FileUnreadable { index, cause } => {
                    let path = self.paths[index].clone();
                    let next = Exchange { stage: Stage::Done, ..self };
                    assert(next@ == at_stage(s, Stage::Done));
                    (next, Action::Finish { outcome: Err(VisionError::UnreadableFrame { path, cause }) })
                },
                _ => (self, Action::ReadFiles { paths: Vec::new() }),
            },
            Stage::AwaitReply => match event {
                Event::PostFailed { cause } => {
                    let next = Exchange { stage: Stage::Done, ..self };
                    assert(next@ == at_stage(s, Stage::Done));
                    (next, Action::Finish { outcome: Err(VisionError::RequestFailed { cause }) })
                },
                Event::BodyUnreadable { cause } => {
                    let next = Exchange { stage: Stage::Done, ..self };
                    assert(next@ == at_stage(s, Stage::Done));
                    (next, Action::Finish { outcome: Err(VisionError::BodyUnreadable { cause }) })
                },
                Event::Replied { status, body } => {
                    if status_is_success(status) {
                        let next = Exchange { stage: Stage::AwaitParse, ..self };
                        assert(next@ == at_stage(s, Stage::AwaitParse));
                        (next, Action::ParseBody { body })
                    } else {
                        let next = Exchange { stage: Stage::Done, ..self };
                        assert(next@ == at_stage(s, Stage::Done));
                        let reason = status_reason(status);
                        (next, Action::Finish { outcome: Err(VisionError::ApiStatus { status, reason, body }) })
                    }
                },
                _ => (self, Action::ReadFiles { paths: Vec::new() }),
            },
            Stage::AwaitParse => match event {
                Event::Parsed { response } => {
                    let outcome = response_text(&response);
                    let next = Exchange { stage: Stage::Done, ..self };
                    assert(next@ == at_stage(s, Stage::Done));
                    (next, Action::Finish { outcome })
                },
                Event::Unparsable { cause } => {
                    let next = Exchange { stage: Stage::Done, ..self };
                    assert(next@ == at_stage(s, Stage::Done));
                    (next, Action::Finish { outcome: Err(VisionError::MalformedResponse { cause }) })
                },
                _ => (self, Action::ReadFiles { paths: Vec::new() }),
            },
            Stage::Done => (self, Action::ReadFiles { paths: Vec::new() }),
        }
    }
}

} // verus!

verus! {

/// The most events a call at this stage can still take.
pub open spec fn steps_left(stage: Stage) -> nat {
    match stage {
        Stage::ReadImage => 3,
        Stage::ReadFrames => 3,
        Stage::AwaitReply => 2,
        Stage::AwaitParse => 1,
        Stage::Done => 0,
    }
}

/// Law: every accepted event brings a call strictly closer to its end, the
/// action is `Finish` exactly when the call is over, and a finished call
/// accepts no event; so a call ends after at most three events.
pub proof fn lemma_exchange_progress(s: ExchangeView, e: EventView)
    requires
        accepts(s, e),
    ensures
        steps_left(exchange_step(s, e).0.stage) < steps_left(s.stage),
        (exchange_step(s, e).1 is Finish) == (exchange_step(s, e).0.stage == Stage::Done),
        !accepts(at_stage(s, Stage::Done), e),
{
}

/// Law: a step changes nothing but the stage: the URL, key, model, prompt and
/// files stay those the call started with, and every request goes to that URL
/// with that key.
pub proof fn lemma_exchange_keeps_call(s: ExchangeView, e: EventView)
    requires
        accepts(s, e),
    ensures
        exchange_step(s, e).0 == at_stage(s, exchange_step(s, e).0.stage),
        exchange_step(s, e).1 matches ActionView::Post { url, api_key, .. } ==> (url == s.url
            && api_key == s.api_key),
{
}

/// Law: a call starts with the client's chat-completions URL and key, with
/// the given model, prompt and files.
pub proof fn lemma_start_target(
    c: ClientView,
    path: Seq<char>,
    frames: Seq<Seq<char>>,
    prompt: Seq<char>,
    model: Seq<char>,
)
    ensures
        start_image(c, path, prompt, model).0 == (ExchangeView {
            stage: Stage::ReadImage,
            url: c.base_url + "/v1/chat/completions"@,
            api_key: c.api_key,
            model,
            prompt,
            paths: seq![path],
        }),
        start_sequence(c, frames, prompt, model).0.url == c.base_url + "/v1/chat/completions"@,
        start_sequence(c, frames, prompt, model).0.api_key == c.api_key,
{
}

/// Law: a frame sequence with no frames ends at once with `EmptyFrames`:
/// nothing is read and nothing is sent.
pub proof fn lemma_empty_frames_rejected(c: ClientView, prompt: Seq<char>, model: Seq<char>)
    ensures
        start_sequence(c, Seq::empty(), prompt, model).0.stage == Stage::Done,
        start_sequence(c, Seq::empty(), prompt, model).1 == (ActionView::Finish {
            outcome: Err(VisionFault::EmptyFrames),
        }),
{
}

/// Law: for a single image, a request is sent exactly when the file was read
/// and its lowercased extension names an accepted format; otherwise the call
/// ends with an error and nothing is sent.
pub proof fn lemma_image_sent_only_if_supported(s: ExchangeView, e: EventView)
    requires
        accepts(s, e),
        s.stage == Stage::ReadImage,
    ensures
        (exchange_step(s, e).1 is Post) == (e is FilesRead && mime_outcome(
            unicode_lowercase(image_ext_of(s.paths[0])),
        ) is Ok),
        !(exchange_step(s, e).1 is Post) ==> (exchange_step(s, e).1 matches ActionView::Finish {
            outcome,
        } && outcome is Err),
{
}

/// Law: once the frames are read, the request sent holds one image item per
/// frame, in the frames' order, then the prompt; each frame goes as a
/// `data:` URL of its bytes.
pub proof fn lemma_frames_request(s: ExchangeView, e: EventView)
    requires
        accepts(s, e),
        s.stage == Stage::ReadFrames,
        e is FilesRead,
    ensures
        exchange_step(s, e).1 matches ActionView::Post { request, .. } && request.model == s.model
            && request.content.len() == s.paths.len() + 1 && (forall|i: int|
            0 <= i < s.paths.len() ==> #[trigger] request.content[i] == crate::chat::image_part(
                data_url_text(frame_mime(s.paths[i]), standard_base64(e->contents[i])),
            )) && request.content[s.paths.len() as int] == crate::chat::text_part(s.prompt),
{
    crate::chat::lemma_sequence_request_shape(
        s.model,
        frame_urls(s.paths, e->contents),
        s.prompt,
    );
}

/// Law: every frame is sent as one of the accepted image types, so a frame
/// sequence never fails on formats.
pub proof fn lemma_frame_mime_accepted(path: Seq<char>)
    ensures
        frame_mime(path) == "image/jpeg"@ || frame_mime(path) == "image/png"@ || frame_mime(path)
            == "image/webp"@ || frame_mime(path) == "image/gif"@,
{
}

/// Law: a reply whose status is outside 200..=299 ends the call with an
/// `ApiStatus` error carrying the status, its canonical reason phrase and the
/// body, and
/// the status code in decimal follows `OpenAI Vision API error ` in its
/// message; a 2xx reply always goes on to parsing.
pub proof fn lemma_failed_status_reported(s: ExchangeView, status: u16, body: Seq<char>)
    requires
        s.stage == Stage::AwaitReply,
    ensures
        !is_success_status(status) ==> {
            let f = VisionFault::ApiStatus { status, reason: canonical_reason(status), body };
            let prefix = "OpenAI Vision API error "@;
            &&& exchange_step(s, EventView::Replied { status, body }) == finish(s, Err(f))
            &&& crate::error::fault_message(f).subrange(
                prefix.len() as int,
                (prefix.len() + crate::text::decimal(status as nat).len()) as int,
            ) == crate::text::decimal(status as nat)
        },
        is_success_status(status) ==> exchange_step(s, EventView::Replied { status, body })
            == (at_stage(s, Stage::AwaitParse), ActionView::ParseBody { body }),
{
    if !is_success_status(status) {
        let reason = canonical_reason(status);
        let f = VisionFault::ApiStatus { status, reason, body };
        let prefix = "OpenAI Vision API error "@;
        let d = crate::text::decimal(status as nat);
        let rest = " "@ + match reason {
            Some(r) => r,
            None => "<unknown status code>"@,
        } + ": "@ + body;
        assert(crate::error::fault_message(f) =~= prefix + d + rest);
        assert((prefix + d + rest).subrange(prefix.len() as int, (prefix.len() + d.len()) as int) =~= d);
    }
}

/// Law: a parsed reply ends the call with the text of its first choice, or
/// with `NoContent` when that choice has none.
pub proof fn lemma_parsed_reply(s: ExchangeView, choices: Seq<Option<Seq<char>>>)
    requires
        s.stage == Stage::AwaitParse,
    ensures
        exchange_step(s, EventView::Parsed { choices }) == finish(s, reply_outcome(choices)),
{
}

} // verus!

verus! {

/// Law: a frame sequence is refused only when it is empty; any frames at all
/// are read, all of them, in the order given, before anything is sent.
pub proof fn lemma_sequence_start(
    c: ClientView,
    frames: Seq<Seq<char>>,
    prompt: Seq<char>,
    model: Seq<char>,
)
    ensures
        frames.len() > 0 ==> start_sequence(c, frames, prompt, model).1 == (ActionView::ReadFiles {
            paths: frames,
        }),
        frames.len() > 0 ==> start_sequence(c, frames, prompt, model).0.stage == Stage::ReadFrames,
        start_sequence(c, frames, prompt, model).0.paths == frames,
        start_sequence(c, frames, prompt, model).0.model == model,
        start_sequence(c, frames, prompt, model).0.prompt == prompt,
        (start_sequence(c, frames, prompt, model).1 is Finish) == (frames.len() == 0),
{
}

/// Law: a single image whose lowercased extension is `jpg`/`jpeg`, `png`,
/// `webp` or `gif` is sent in a `user` request for the call's own model with
/// `max_tokens` 1024, holding exactly the image as
/// `data:<mime>;base64,<base64 of its bytes>` (detail `auto`) followed by the
/// prompt, to the call's URL with its key; any other extension ends the call
/// with an error and nothing is sent.
pub proof fn lemma_image_request_contents(s: ExchangeView, bytes: Seq<u8>)
    requires
        s.stage == Stage::ReadImage,
    ensures
        ({
            let ext = match path_extension(s.paths[0]) {
                Some(e) => e,
                None => ""@,
            };
            let lower = unicode_lowercase(ext);
            let mime: Option<Seq<char>> = if lower == "jpg"@ || lower == "jpeg"@ {
                Some("image/jpeg"@)
            } else if lower == "png"@ {
                Some("image/png"@)
            } else if lower == "webp"@ {
                Some("image/webp"@)
            } else if lower == "gif"@ {
                Some("image/gif"@)
            } else {
                None
            };
            let r = exchange_step(s, EventView::FilesRead { contents: seq![bytes] });
            match mime {
                Some(m) => r.1 == ActionView::Post {
                    url: s.url,
                    api_key: s.api_key,
                    request: RequestView {
                        model: s.model,
                        role: "user"@,
                        content: seq![
                            crate::chat::PartView::Image {
                                url: "data:"@ + m + ";base64,"@ + standard_base64(bytes),
                                detail: "auto"@,
                            },
                            crate::chat::PartView::Text { text: s.prompt },
                        ],
                        max_tokens: 1024,
                    },
                } && r.0.stage == Stage::AwaitReply,
                None => r.0.stage == Stage::Done && (r.1 matches ActionView::Finish { outcome }
                    && outcome is Err),
            }
        }),
{
    let ext = match path_extension(s.paths[0]) {
        Some(e) => e,
        None => ""@,
    };
    crate::media::lemma_mime_table(unicode_lowercase(ext));
}

} // verus!

verus! {

/// Law: each frame goes as `data:<mime>;base64,<base64 of its bytes>`, where
/// the MIME type is that of its lowercased extension when the extension is
/// `jpg`/`jpeg`, `png`, `webp` or `gif`, and `image/jpeg` otherwise (a frame
/// without extension counts as `jpg`).
pub proof fn lemma_frame_url_text(path: Seq<char>, bytes: Seq<u8>)
    ensures
        ({
            let ext = match path_extension(path) {
                Some(e) => e,
                None => "jpg"@,
            };
            let lower = unicode_lowercase(ext);
            let mime = if lower == "png"@ {
                "image/png"@
            } else if lower == "webp"@ {
                "image/webp"@
            } else if lower == "gif"@ {
                "image/gif"@
            } else {
                "image/jpeg"@
            };
            &&& frame_mime(path) == mime
            &&& data_url_text(frame_mime(path), standard_base64(bytes)) == "data:"@ + mime
                + ";base64,"@ + standard_base64(bytes)
        }),
{
    let ext = match path_extension(path) {
        Some(e) => e,
        None => "jpg"@,
    };
    crate::media::lemma_mime_table(unicode_lowercase(ext));
}

} // verus!

verus! {

/// Law: after the request, a reply with a status in 200..=299 has its body
/// parsed; any other status ends the call with that status, the code's
/// canonical reason phrase and the body.
pub proof fn lemma_reply_status_step(s: ExchangeView, status: u16, body: Seq<char>)
    requires
        s.stage == Stage::AwaitReply,
    ensures
        (200 <= status && status <= 299) ==> exchange_step(
            s,
            EventView::Replied { status, body },
        ).1 == (ActionView::ParseBody { body }),
        !(200 <= status && status <= 299) ==> exchange_step(
            s,
            EventView::Replied { status, body },
        ).1 == (ActionView::Finish {
            outcome: Err(VisionFault::ApiStatus { status, reason: canonical_reason(status), body }),
        }),
{
}

} // verus!
