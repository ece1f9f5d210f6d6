//! The chat-completions exchange with the vision API: what a request holds,
//! what a reply holds, and how a reply becomes text.

use vstd::prelude::*;
use crate::error::{VisionError, VisionFault};

verus! {

/// The `max_tokens` limit sent with every request.
pub const MAX_TOKENS: u32 = 1024;

/// One item of the user message: an image by URL, or a text.
#[derive(Debug, Clone, PartialEq, Eq)]
pub enum ContentPart {
    ImageUrl { url: String, detail: String },
    Text { text: String },
}

/// `ContentPart` with its texts as character sequences.
pub enum PartView {
    Image { url: Seq<char>, detail: Seq<char> },
    Text { text: Seq<char> },
}

impl View for ContentPart {
    type V = PartView;

    open spec fn view(&self) -> PartView {
        match self {
            ContentPart::ImageUrl { url, detail } => PartView::Image { url: url@, detail: detail@ },
            ContentPart::Text { text } => PartView::Text { text: text@ },
        }
    }
}

impl DeepView for ContentPart {
    type V = PartView;

    open spec fn deep_view(&self) -> PartView {
        self@
    }
}

/// A chat-completions request with one user message.
#[derive(Debug, Clone, PartialEq, Eq)]
pub struct ChatRequest {
    pub model: String,
    pub role: String,
    pub content: Vec<ContentPart>,
    pub max_tokens: u32,
}

/// `ChatRequest` with its texts as character sequences.
pub struct RequestView {
    pub model: Seq<char>,
    pub role: Seq<char>,
    pub content: Seq<PartView>,
    pub max_tokens: u32,
}

impl View for ChatRequest {
    type V = RequestView;

    open spec fn view(&self) -> RequestView {
        RequestView {
            model: self.model@,
            role: self.role@,
            content: self.content.deep_view(),
            max_tokens: self.max_tokens,
        }
    }
}

/// An image item: the URL with `detail` set to `auto`.
pub open spec fn image_part(url: Seq<char>) -> PartView {
    PartView::Image { url, detail: "auto"@ }
}

/// A text item.
pub open spec fn text_part(text: Seq<char>) -> PartView {
    PartView::Text { text }
}

/// A request of the `user` role with the given items and `max_tokens` 1024.
pub open spec fn user_request(model: Seq<char>, content: Seq<PartView>) -> RequestView {
    RequestView { model, role: "user"@, content, max_tokens: 1024 }
}

/// The request for one image: the image item, then the prompt.
pub open spec fn image_request_view(model: Seq<char>, url: Seq<char>, prompt: Seq<char>) -> RequestView {
    user_request(model, seq![image_part(url), text_part(prompt)])
}

/// The request for a sequence of images: one image item per URL, in order,
/// then the prompt.
pub open spec fn sequence_request_view(
    model: Seq<char>,
    urls: Seq<Seq<char>>,
    prompt: Seq<char>,
) -> RequestView {
    user_request(model, urls.map_values(|u: Seq<char>| image_part(u)).push(text_part(prompt)))
}

fn image_item(url: String) -> (r: ContentPart)
    ensures
        r@ == image_part(url@),
{
    ContentPart::ImageUrl { url, detail: String::from_str("auto") }
}

fn text_item(text: &str) -> (r: ContentPart)
    ensures
        r@ == text_part(text@),
{
    ContentPart::Text { text: String::from_str(text) }
}

fn user_chat(model: &str, content: Vec<ContentPart>) -> (r: ChatRequest)
    ensures
        r@ == user_request(model@, content.deep_view()),
{
    ChatRequest {
        model: String::from_str(model),
        role: String::from_str("user"),
        content,
        max_tokens: MAX_TOKENS,
    }
}

/// Builds the request for one image URL followed by the prompt.
pub fn image_request(model: &str, url: String, prompt: &str) -> (r: ChatRequest)
    ensures
        r@ == image_request_view(model@, url@, prompt@),
{
    let mut content: Vec<ContentPart> = Vec::new();
    content.push(image_item(url));
    content.push(text_item(prompt));
    let r = user_chat(model, content);
    assert(r@.content =~= seq![image_part(url@), text_part(prompt@)]);
    r
}

/// Builds the request for a sequence of image URLs followed by the prompt.
pub fn sequence_request(model: &str, urls: Vec<String>, prompt: &str) -> (r: ChatRequest)
    ensures
        r@ == sequence_request_view(model@, urls.deep_view(), prompt@),
{
    let ghost uv = urls.deep_view();
    let ghost target = uv.map_values(|u: Seq<char>| image_part(u));
    let mut content: Vec<ContentPart> = Vec::new();
    let n = urls.len();
    let mut i: usize = 0;
    while i < n
        invariant
            n == uv.len(),
            urls.len() == n,
            forall|k: int| i <= k < n ==> #[trigger] urls@[k]@ == uv[k],
            i <= n,
            content.len() == i,
            forall|k: int| 0 <= k < i ==> #[trigger] content@[k]@ == target[k],
            target == uv.map_values(|u: Seq<char>| image_part(u)),
        decreases n - i,
    {
        let url = urls[i].clone();
        content.push(image_item(url));
        i = i + 1;
    }
    content.push(text_item(prompt));
    let r = user_chat(model, content);
    assert(r@.content =~= target.push(text_part(prompt@)));
    r
}

/// One choice of a chat completion: the assistant message.
#[derive(Debug, Clone, PartialEq, Eq)]
pub struct ChatChoice {
    pub message: ChatMessage,
}

/// The message of a choice; its text may be absent.
#[derive(Debug, Clone, PartialEq, Eq)]
pub struct ChatMessage {
    pub content: Option<String>,
}

/// A chat-completions reply: its choices, in order.
#[derive(Debug, Clone, PartialEq, Eq)]
pub struct ChatResponse {
    pub choices: Vec<ChatChoice>,
}

impl View for ChatResponse {
    /// The text of each choice, in order.
    type V = Seq<Option<Seq<char>>>;

    open spec fn view(&self) -> Seq<Option<Seq<char>>> {
        Seq::new(self.choices@.len(), |i: int| self.choices@[i].message.content.deep_view())
    }
}

/// The text of the first choice, if there is a first choice and it has text.
pub open spec fn first_content(choices: Seq<Option<Seq<char>>>) -> Option<Seq<char>> {
    if choices.len() > 0 {
        choices[0]
    } else {
        None
    }
}

/// The view of a text-or-error result.
pub open spec fn text_result_view(r: Result<String, VisionError>) -> Result<Seq<char>, VisionFault> {
    match r {
        Ok(s) => Ok(s@),
        Err(e) => Err(e@),
    }
}

/// What a reply is worth: the text of its first choice, or `NoContent`.
pub open spec fn reply_outcome(choices: Seq<Option<Seq<char>>>) -> Result<Seq<char>, VisionFault> {
    match first_content(choices) {
        Some(t) => Ok(t),
        None => Err(VisionFault::NoContent),
    }
}

/// Extracts `choices[0].message.content` from a reply.
pub fn response_text(response: &ChatResponse) -> (r: Result<String, VisionError>)
    ensures
        text_result_view(r) == reply_outcome(response@),
{
    if response.choices.len() > 0 {
        match &response.choices[0].message.content {
            Some(t) => Ok(t.clone()),
            None => Err(VisionError::NoContent),
        }
    } else {
        Err(VisionError::NoContent)
    }
}

/// Whether an HTTP status counts as success (200..=299).
pub open spec fn is_success_status(status: u16) -> bool {
    200 <= status < 300
}

/// Returns `true` for a status in 200..=299.
pub fn status_is_success(status: u16) -> (r: bool)
    ensures
        r == is_success_status(status),
{
    200 <= status && status < 300
}

} // verus!

verus! {

/// Law: a sequence request holds, in order, one image item per URL (with
/// `detail` `auto`), then exactly one text item holding the prompt; it is a
/// `user` message for the given model with `max_tokens` 1024.
pub proof fn lemma_sequence_request_shape(model: Seq<char>, urls: Seq<Seq<char>>, prompt: Seq<char>)
    ensures
        ({
            let r = sequence_request_view(model, urls, prompt);
            &&& r.model == model
            &&& r.role == "user"@
            &&& r.max_tokens == MAX_TOKENS
            &&& r.content.len() == urls.len() + 1
            &&& forall|i: int| 0 <= i < urls.len() ==> #[trigger] r.content[i] == image_part(urls[i])
            &&& r.content[urls.len() as int] == text_part(prompt)
        }),
{
}

/// Law: a reply with a first choice that carries text yields that text; any
/// other reply (no choices, or a first choice without text) yields
/// `NoContent`, whatever the later choices hold.
pub proof fn lemma_reply_outcome(choices: Seq<Option<Seq<char>>>)
    ensures
        choices.len() > 0 && choices[0] is Some ==> reply_outcome(choices) == Ok::<Seq<char>, VisionFault>(choices[0]->0),
        !(choices.len() > 0 && choices[0] is Some) ==> reply_outcome(choices) == Err::<Seq<char>, VisionFault>(VisionFault::NoContent),
{
}

} // verus!

verus! {

/// Law: a sequence request lists, for each URL in order, an image item with
/// that URL and `detail` `auto`, then one text item with the prompt.
pub proof fn lemma_sequence_request_items(model: Seq<char>, urls: Seq<Seq<char>>, prompt: Seq<char>)
    ensures
        ({
            let r = sequence_request_view(model, urls, prompt);
            &&& r.content.len() == urls.len() + 1
            &&& forall|i: int| 0 <= i < urls.len() ==> #[trigger] r.content[i] == (PartView::Image {
                url: urls[i],
                detail: "auto"@,
            })
            &&& r.content[urls.len() as int] == (PartView::Text { text: prompt })
            &&& r.model == model
            &&& r.role == "user"@
            &&& r.max_tokens == 1024
        }),
{
}

/// Law: a status counts as success exactly when it lies in 200..=299.
pub proof fn lemma_success_range(status: u16)
    ensures
        is_success_status(status) == (200 <= status && status <= 299),
{
}

} // verus!
