//! Errors of the vision client and the text that reports them.

use vstd::prelude::*;
use crate::text::{decimal, push_decimal};

verus! {

/// Why a call to the vision API did not produce text.
#[derive(Debug, Clone, PartialEq, Eq)]
pub enum VisionError {
    /// The HTTP client could not be set up (TLS backend or resolver).
    ClientInit { cause: String },
    /// `recognize_sequence` was given no frames.
    EmptyFrames,
    /// The image file of `recognize` could not be read.
    UnreadableImage { path: String, cause: String },
    /// A frame file of `recognize_sequence` could not be read.
    UnreadableFrame { path: String, cause: String },
    /// The image is HEIC/HEIF, which the API does not accept.
    HeicUnsupported,
    /// The (lowercased) extension names no supported image format.
    UnsupportedFormat { ext: String },
    /// The HTTP request could not be sent or got no response.
    RequestFailed { cause: String },
    /// The response body could not be read.
    BodyUnreadable { cause: String },
    /// The API answered with a status outside 200..=299.
    ApiStatus { status: u16, reason: Option<String>, body: String },
    /// The response body is not a chat completion.
    MalformedResponse { cause: String },
    /// The chat completion holds no text in its first choice.
    NoContent,
}

/// `VisionError` with its texts as character sequences.
pub enum VisionFault {
    ClientInit { cause: Seq<char> },
    EmptyFrames,
    UnreadableImage { path: Seq<char>, cause: Seq<char> },
    UnreadableFrame { path: Seq<char>, cause: Seq<char> },
    HeicUnsupported,
    UnsupportedFormat { ext: Seq<char> },
    RequestFailed { cause: Seq<char> },
    BodyUnreadable { cause: Seq<char> },
    ApiStatus { status: u16, reason: Option<Seq<char>>, body: Seq<char> },
    MalformedResponse { cause: Seq<char> },
    NoContent,
}

impl View for VisionError {
    type V = VisionFault;

    open spec fn view(&self) -> VisionFault {
        match self {
            VisionError::ClientInit { cause } => VisionFault::ClientInit { cause: cause@ },
            VisionError::EmptyFrames => VisionFault::EmptyFrames,
            VisionError::UnreadableImage { path, cause } => VisionFault::UnreadableImage {
                path: path@,
                cause: cause@,
            },
            VisionError::UnreadableFrame { path, cause } => VisionFault::UnreadableFrame {
                path: path@,
                cause: cause@,
            },
            VisionError::HeicUnsupported => VisionFault::HeicUnsupported,
            VisionError::UnsupportedFormat { ext } => VisionFault::UnsupportedFormat { ext: ext@ },
            VisionError::RequestFailed { cause } => VisionFault::RequestFailed { cause: cause@ },
            VisionError::BodyUnreadable { cause } => VisionFault::BodyUnreadable { cause: cause@ },
            VisionError::ApiStatus { status, reason, body } => VisionFault::ApiStatus {
                status: *status,
                reason: reason.deep_view(),
                body: body@,
            },
            VisionError::MalformedResponse { cause } => VisionFault::MalformedResponse {
                cause: cause@,
            },
            VisionError::NoContent => VisionFault::NoContent,
        }
    }
}

/// How an HTTP status shows in text: its code, a space, and its canonical
/// reason phrase (or `<unknown status code>` when it has none).
pub open spec fn status_text(status: u16, reason: Option<Seq<char>>) -> Seq<char> {
    decimal(status as nat) + " "@ + match reason {
        Some(r) => r,
        None => "<unknown status code>"@,
    }
}

/// The one-line message of a fault (what `Display` of the error shows).
pub open spec fn fault_message(f: VisionFault) -> Seq<char> {
    match f {
        VisionFault::ClientInit { .. } => "failed to initialise HTTP client (TLS)"@,
        VisionFault::EmptyFrames => "frames slice is empty — at least one frame is required"@,
        VisionFault::UnreadableImage { path, .. } => "cannot read image file: "@ + path,
        VisionFault::UnreadableFrame { path, .. } => "cannot read frame file: "@ + path,
        VisionFault::HeicUnsupported =>
            "HEIC format is not supported by OpenAI Vision API. Send JPEG or PNG instead."@,
        VisionFault::UnsupportedFormat { ext } =>
            "unsupported image format: ."@ + ext + " — use jpeg, png, webp, or gif"@,
        VisionFault::RequestFailed { .. } => "HTTP request to OpenAI Vision API failed"@,
        VisionFault::BodyUnreadable { .. } => "failed to read OpenAI Vision API response body"@,
        VisionFault::ApiStatus { status, reason, body } =>
            "OpenAI Vision API error "@ + status_text(status, reason) + ": "@ + body,
        VisionFault::MalformedResponse { .. } => "failed to parse OpenAI Vision API response"@,
        VisionFault::NoContent => "OpenAI Vision API response contained no content"@,
    }
}

/// The underlying cause a fault carries, if any.
pub open spec fn fault_cause(f: VisionFault) -> Option<Seq<char>> {
    match f {
        VisionFault::ClientInit { cause } => Some(cause),
        VisionFault::UnreadableImage { cause, .. } => Some(cause),
        VisionFault::UnreadableFrame { cause, .. } => Some(cause),
        VisionFault::RequestFailed { cause } => Some(cause),
        VisionFault::BodyUnreadable { cause } => Some(cause),
        VisionFault::MalformedResponse { cause } => Some(cause),
        _ => None,
    }
}

/// The message followed by the cause, joined by `": "` (the alternate,
/// chained rendering of the error).
pub open spec fn fault_report(f: VisionFault) -> Seq<char> {
    match fault_cause(f) {
        Some(c) => fault_message(f) + ": "@ + c,
        None => fault_message(f),
    }
}

impl VisionError {
    /// The one-line message of this error.
    pub fn message(&self) -> (r: String)
        ensures
            r@ == fault_message(self@),
    {
        match self {
            VisionError::ClientInit { .. } => String::from_str("failed to initialise HTTP client (TLS)"),
            VisionError::EmptyFrames => String::from_str(
                "frames slice is empty — at least one frame is required",
            ),
            VisionError::UnreadableImage { path, .. } => {
                let mut s = String::from_str("cannot read image file: ");
                s.append(path.as_str());
                s
            },
            VisionError::UnreadableFrame { path, .. } => {
                let mut s = String::from_str("cannot read frame file: ");
                s.append(path.as_str());
                s
            },
            VisionError::HeicUnsupported => String::from_str(
                "HEIC format is not supported by OpenAI Vision API. Send JPEG or PNG instead.",
            ),
            VisionError::UnsupportedFormat { ext } => {
                let mut s = String::from_str("unsupported image format: .");
                s.append(ext.as_str());
                s.append(" — use jpeg, png, webp, or gif");
                assert(s@ =~= fault_message(self@));
                s
            },
            VisionError::RequestFailed { .. } => String::from_str(
                "HTTP request to OpenAI Vision API failed",
            ),
            VisionError::BodyUnreadable { .. } => String::from_str(
                "failed to read OpenAI Vision API response body",
            ),
            VisionError::ApiStatus { status, reason, body } => {
                let mut s = String::from_str("OpenAI Vision API error ");
                push_decimal(&mut s, *status as u64);
                s.append(" ");
                match reason {
                    Some(r) => s.append(r.as_str()),
                    None => s.append("<unknown status code>"),
                }
                s.append(": ");
                s.append(body.as_str());
                assert(s@ =~= fault_message(self@));
                s
            },
            VisionError::MalformedResponse { .. } => String::from_str(
                "failed to parse OpenAI Vision API response",
            ),
            VisionError::NoContent => String::from_str(
                "OpenAI Vision API response contained no content",
            ),
        }
    }

    /// The message followed by the underlying cause, if the error has one.
    pub fn report(&self) -> (r: String)
        ensures
            r@ == fault_report(self@),
    {
        let mut s = self.message();
        match self {
            VisionError::ClientInit { cause }
            | VisionError::UnreadableImage { cause, .. }
            | VisionError::UnreadableFrame { cause, .. }
            | VisionError::RequestFailed { cause }
            | VisionError::BodyUnreadable { cause }
            | VisionError::MalformedResponse { cause } => {
                s.append(": ");
                s.append(cause.as_str());
            },
            _ => {},
        }
        s
    }
}

} // verus!
