use vision_recognizer::chat::{ChatChoice, ChatMessage, ChatResponse, ContentPart};
use vision_recognizer::client::{Action, Event, Stage, VisionClient};
use vision_recognizer::error::VisionError;
use vision_recognizer::media::{data_url, data_url_for_encoded, fits_base64, mime_for_lowercase_ext};

use base64::{engine::general_purpose::STANDARD, Engine as _};

const PNG_BYTES: &[u8] = &[
    0x89, 0x50, 0x4e, 0x47, 0x0d, 0x0a, 0x1a, 0x0a, 0x00, 0x00, 0x00, 0x0d, 0x49, 0x48, 0x44, 0x52,
    0x00, 0x00, 0x00, 0x01, 0x00, 0x00, 0x00, 0x01, 0x08, 0x02, 0x00, 0x00, 0x00, 0x90, 0x77, 0x53,
    0xde, 0x00, 0x00, 0x00, 0x0c, 0x49, 0x44, 0x41, 0x54, 0x08, 0xd7, 0x63, 0xf8, 0xcf, 0xc0, 0x00,
    0x00, 0x00, 0x02, 0x00, 0x01, 0xe2, 0x21, 0xbc, 0x33, 0x00, 0x00, 0x00, 0x00, 0x49, 0x45, 0x4e,
    0x44, 0xae, 0x42, 0x60, 0x82,
];

fn reply(content: Option<&str>) -> ChatResponse {
    ChatResponse {
        choices: vec![ChatChoice { message: ChatMessage { content: content.map(str::to_owned) } }],
    }
}

fn expect_finish(action: Action) -> Result<String, VisionError> {
    match action {
        Action::Finish { outcome } => outcome,
        _ => panic!("expected the call to finish"),
    }
}

#[test]
fn mime_for_jpeg_returns_image_jpeg() {
    assert_eq!(VisionClient::mime_for_ext("jpeg"), Ok("image/jpeg"));
    assert_eq!(VisionClient::mime_for_ext("jpg"), Ok("image/jpeg"));
}

#[test]
fn mime_for_png_returns_image_png() {
    assert_eq!(VisionClient::mime_for_ext("png"), Ok("image/png"));
}

#[test]
fn mime_for_webp_returns_image_webp() {
    assert_eq!(VisionClient::mime_for_ext("webp"), Ok("image/webp"));
}

#[test]
fn mime_for_gif_returns_image_gif() {
    assert_eq!(VisionClient::mime_for_ext("gif"), Ok("image/gif"));
}

#[test]
fn heic_extension_returns_unsupported_err() {
    let result = VisionClient::mime_for_ext("heic");
    assert!(result.is_err(), "heic must return Err");
    let msg = result.unwrap_err().message();
    assert!(msg.contains("HEIC"), "error must mention HEIC, got: {msg}");
    assert!(
        msg.contains("JPEG") || msg.contains("PNG"),
        "error must suggest JPEG or PNG, got: {msg}"
    );
}

#[test]
fn unsupported_extension_returns_err() {
    let result = VisionClient::mime_for_ext("bmp");
    assert!(result.is_err(), "bmp must return Err");
    let msg = result.unwrap_err().message();
    assert!(
        msg.contains("unsupported"),
        "error must say unsupported, got: {msg}"
    );
}

#[test]
fn mime_lookup_lowercases_and_reports_the_extension() {
    assert_eq!(VisionClient::mime_for_ext("JPG"), Ok("image/jpeg"));
    assert_eq!(VisionClient::mime_for_ext("PnG"), Ok("image/png"));
    assert_eq!(VisionClient::mime_for_ext("HEIF"), Err(VisionError::HeicUnsupported));
    assert_eq!(
        VisionClient::mime_for_ext("BMP").unwrap_err().message(),
        "unsupported image format: .bmp — use jpeg, png, webp, or gif"
    );
    assert_eq!(
        VisionClient::mime_for_ext("").unwrap_err(),
        VisionError::UnsupportedFormat { ext: String::new() }
    );
    assert_eq!(mime_for_lowercase_ext("JPG"), Err(VisionError::UnsupportedFormat { ext: "JPG".into() }));
}

#[test]
fn base64_roundtrip_small_png() {
    let original = b"\x89PNG\r\n\x1a\nhello test bytes";
    let url = data_url("image/png", original);
    let encoded = url
        .strip_prefix("data:image/png;base64,")
        .expect("data URL prefix");
    let decoded = STANDARD.decode(encoded).expect("base64 decode failed");
    assert_eq!(decoded.as_slice(), original.as_slice());
}

#[test]
fn data_url_has_the_documented_form() {
    assert_eq!(data_url("image/gif", b"hello"), "data:image/gif;base64,aGVsbG8=");
    assert_eq!(data_url("image/jpeg", b""), "data:image/jpeg;base64,");
    assert_eq!(data_url_for_encoded("image/png", "QUJD"), "data:image/png;base64,QUJD");
    assert!(fits_base64(3));
    assert!(fits_base64(0));
    assert!(!fits_base64(usize::MAX));
}

#[test]
fn client_new_does_not_panic() {
    VisionClient::new("dummy-api-key", "http://localhost:8080").expect("client");
}

#[test]
fn client_keeps_key_and_url() {
    let client = VisionClient::new("sk-test", "http://localhost:8080").expect("client");
    assert_eq!(client.api_key(), "sk-test");
    assert_eq!(client.base_url(), "http://localhost:8080");
    assert_eq!(client.completions_url(), "http://localhost:8080/v1/chat/completions");
}

#[test]
fn recognize_sequence_builds_payload() {
    let client = VisionClient::new("sk-test", "http://mock").expect("client");
    let frames: Vec<String> = (1..=3).map(|i| format!("/tmp/frame_{i}.png")).collect();
    let (ex, action) = client.start_recognize_sequence(&frames, "describe movement", "gpt-4o");
    match action {
        Action::ReadFiles { paths } => assert_eq!(paths, frames),
        _ => panic!("frames must be read first"),
    }
    let (ex, action) = ex.advance(Event::FilesRead { contents: vec![PNG_BYTES.to_vec(); 3] });
    let request = match action {
        Action::Post { url, api_key, request } => {
            assert_eq!(url, "http://mock/v1/chat/completions");
            assert_eq!(api_key, "sk-test");
            request
        }
        _ => panic!("the request must be sent"),
    };
    assert_eq!(request.model, "gpt-4o", "model must be gpt-4o");
    assert_eq!(request.role, "user");
    assert_eq!(request.max_tokens, 1024);
    assert_eq!(request.content.len(), 4, "expected 4 content items (3 images + 1 text)");
    let image_items: Vec<&ContentPart> = request
        .content
        .iter()
        .filter(|item| matches!(item, ContentPart::ImageUrl { .. }))
        .collect();
    assert_eq!(image_items.len(), 3, "expected 3 image_url items");
    let expected_url = format!("data:image/png;base64,{}", STANDARD.encode(PNG_BYTES));
    for item in &image_items {
        assert_eq!(
            **item,
            ContentPart::ImageUrl { url: expected_url.clone(), detail: "auto".into() }
        );
    }
    let text_items: Vec<&ContentPart> = request
        .content
        .iter()
        .filter(|item| matches!(item, ContentPart::Text { .. }))
        .collect();
    assert_eq!(text_items.len(), 1, "expected 1 text item");
    assert_eq!(*text_items[0], ContentPart::Text { text: "describe movement".into() });
    assert_eq!(request.content[3], ContentPart::Text { text: "describe movement".into() });

    let (ex, action) = ex.advance(Event::Replied {
        status: 200,
        body: "{...}".into(),
    });
    match action {
        Action::ParseBody { body } => assert_eq!(body, "{...}"),
        _ => panic!("a 2xx reply must be parsed"),
    }
    let (ex, action) = ex.advance(Event::Parsed { response: reply(Some("test analysis")) });
    assert_eq!(ex.stage(), Stage::Done);
    assert_eq!(expect_finish(action), Ok("test analysis".to_string()));
}

#[test]
fn recognize_sequence_empty_frames() {
    let client = VisionClient::new("sk-test", "http://localhost:19999").expect("client");
    let (ex, action) = client.start_recognize_sequence(&Vec::new(), "describe movement", "gpt-4o");
    assert_eq!(ex.stage(), Stage::Done);
    let err = expect_finish(action).unwrap_err();
    let msg = err.report();
    assert!(
        msg.contains("frame") || msg.contains("empty"),
        "error must mention frames or empty, got: {msg}"
    );
}

#[test]
fn recognize_missing_file_returns_err() {
    let client = VisionClient::new("dummy-api-key", "http://localhost:9999").expect("client");
    let path = "/tmp/this-file-does-not-exist-vision-recognizer.png";
    let (ex, _) = client.start_recognize(path, "describe", "gpt-4o-mini");
    let (_, action) = ex.advance(Event::FileUnreadable {
        index: 0,
        cause: "No such file or directory (os error 2)".into(),
    });
    let msg = expect_finish(action).unwrap_err().report();
    assert!(
        msg.contains("cannot read image file"),
        "error message must mention 'cannot read image file', got: {msg}"
    );
    assert_eq!(
        msg,
        "cannot read image file: /tmp/this-file-does-not-exist-vision-recognizer.png: No such file or directory (os error 2)"
    );
}

fn sent_single_image(client: &VisionClient) -> vision_recognizer::client::Exchange {
    let (ex, _) = client.start_recognize("/tmp/white.png", "describe", "gpt-4o-mini");
    let (ex, action) = ex.advance(Event::FilesRead { contents: vec![PNG_BYTES.to_vec()] });
    assert!(matches!(action, Action::Post { .. }));
    ex
}

#[test]
fn returns_err_on_429() {
    let client = VisionClient::new("sk-test", "http://mock").expect("client");
    let ex = sent_single_image(&client);
    let (_, action) = ex.advance(Event::Replied {
        status: 429,
        body: "rate limited".into(),
    });
    let result = expect_finish(action);
    assert!(result.is_err(), "expected Err on 429");
    let msg = result.unwrap_err().report();
    assert!(msg.contains("429"), "error must mention HTTP status 429, got: {msg}");
    assert_eq!(msg, "OpenAI Vision API error 429 Too Many Requests: rate limited");
}

#[test]
fn returns_err_on_4xx() {
    let client = VisionClient::new("sk-test", "http://mock").expect("client");
    let ex = sent_single_image(&client);
    let (_, action) = ex.advance(Event::Replied {
        status: 401,
        body: "unauthorized".into(),
    });
    let result = expect_finish(action);
    assert!(result.is_err(), "expected Err on 401");
    let msg = result.unwrap_err().report();
    assert!(msg.contains("401"), "error must mention HTTP status 401, got: {msg}");
}

#[test]
fn returns_ok_on_200_with_valid_response() {
    let client = VisionClient::new("sk-test", "http://mock").expect("client");
    let ex = sent_single_image(&client);
    let (ex, _) = ex.advance(Event::Replied { status: 200, body: "{}".into() });
    let (_, action) = ex.advance(Event::Parsed { response: reply(Some("A white square image.")) });
    assert_eq!(expect_finish(action), Ok("A white square image.".to_string()));
}

#[test]
fn single_image_request_holds_image_then_prompt() {
    let client = VisionClient::new("sk-test", "http://mock").expect("client");
    let (ex, _) = client.start_recognize("/tmp/photo.JPG", "what food?", "gpt-4o-mini");
    let (_, action) = ex.advance(Event::FilesRead { contents: vec![b"abc".to_vec()] });
    match action {
        Action::Post { request, .. } => {
            assert_eq!(request.model, "gpt-4o-mini");
            assert_eq!(
                request.content,
                vec![
                    ContentPart::ImageUrl { url: "data:image/jpeg;base64,YWJj".into(), detail: "auto".into() },
                    ContentPart::Text { text: "what food?".into() },
                ]
            );
        }
        _ => panic!("a JPEG must be sent"),
    }
}

#[test]
fn unsupported_image_is_never_sent() {
    let client = VisionClient::new("sk-test", "http://mock").expect("client");
    let (ex, _) = client.start_recognize("/tmp/photo.heic", "p", "m");
    let (ex, action) = ex.advance(Event::FilesRead { contents: vec![b"x".to_vec()] });
    assert_eq!(ex.stage(), Stage::Done);
    assert_eq!(expect_finish(action), Err(VisionError::HeicUnsupported));
    let (ex, _) = client.start_recognize("/tmp/noext", "p", "m");
    let (_, action) = ex.advance(Event::FilesRead { contents: vec![b"x".to_vec()] });
    assert_eq!(expect_finish(action), Err(VisionError::UnsupportedFormat { ext: String::new() }));
}

#[test]
fn frames_without_known_extension_go_as_jpeg() {
    let client = VisionClient::new("sk-test", "http://mock").expect("client");
    let frames = vec!["/tmp/a".to_string(), "/tmp/b.bmp".to_string(), "/tmp/c.GIF".to_string()];
    let (ex, _) = client.start_recognize_sequence(&frames, "p", "gpt-4o");
    let (_, action) = ex.advance(Event::FilesRead { contents: vec![b"a".to_vec(), b"b".to_vec(), b"c".to_vec()] });
    match action {
        Action::Post { request, .. } => {
            let urls: Vec<String> = request
                .content
                .iter()
                .filter_map(|p| match p {
                    ContentPart::ImageUrl { url, .. } => Some(url.clone()),
                    ContentPart::Text { .. } => None,
                })
                .collect();
            assert_eq!(
                urls,
                vec!["data:image/jpeg;base64,YQ==", "data:image/jpeg;base64,Yg==", "data:image/gif;base64,Yw=="]
            );
        }
        _ => panic!("frames must be sent"),
    }
}

#[test]
fn unreadable_frame_is_named() {
    let client = VisionClient::new("sk-test", "http://mock").expect("client");
    let frames = vec!["/tmp/a.jpg".to_string(), "/tmp/b.jpg".to_string()];
    let (ex, _) = client.start_recognize_sequence(&frames, "p", "gpt-4o");
    let (_, action) = ex.advance(Event::FileUnreadable { index: 1, cause: "gone".into() });
    let err = expect_finish(action).unwrap_err();
    assert_eq!(err.message(), "cannot read frame file: /tmp/b.jpg");
    assert_eq!(err.report(), "cannot read frame file: /tmp/b.jpg: gone");
}

#[test]
fn transport_and_parse_failures() {
    let client = VisionClient::new("sk-test", "http://mock").expect("client");
    let (_, action) = sent_single_image(&client).advance(Event::PostFailed { cause: "refused".into() });
    assert_eq!(expect_finish(action).unwrap_err().message(), "HTTP request to OpenAI Vision API failed");
    let (_, action) = sent_single_image(&client).advance(Event::BodyUnreadable { cause: "eof".into() });
    assert_eq!(expect_finish(action).unwrap_err().message(), "failed to read OpenAI Vision API response body");
    let (ex, _) = sent_single_image(&client).advance(Event::Replied { status: 204, body: String::new() });
    let (_, action) = ex.advance(Event::Unparsable { cause: "EOF while parsing".into() });
    assert_eq!(
        expect_finish(action).unwrap_err().report(),
        "failed to parse OpenAI Vision API response: EOF while parsing"
    );
    let (ex, _) = sent_single_image(&client).advance(Event::Replied { status: 200, body: String::new() });
    let (_, action) = ex.advance(Event::Parsed { response: ChatResponse { choices: vec![] } });
    assert_eq!(
        expect_finish(action).unwrap_err().message(),
        "OpenAI Vision API response contained no content"
    );
    let (ex, _) = sent_single_image(&client).advance(Event::Replied { status: 200, body: String::new() });
    let (_, action) = ex.advance(Event::Parsed { response: reply(None) });
    assert_eq!(expect_finish(action), Err(VisionError::NoContent));
}

#[test]
fn unknown_status_and_boundaries() {
    let client = VisionClient::new("sk-test", "http://mock").expect("client");
    let (_, action) = sent_single_image(&client).advance(Event::Replied { status: 599, body: "x".into() });
    assert_eq!(
        expect_finish(action).unwrap_err().message(),
        "OpenAI Vision API error 599 <unknown status code>: x"
    );
    let (ex, _) = sent_single_image(&client).advance(Event::Replied { status: 299, body: "b".into() });
    assert_eq!(ex.stage(), Stage::AwaitParse);
    let (ex, action) = sent_single_image(&client).advance(Event::Replied { status: 300, body: "".into() });
    assert_eq!(ex.stage(), Stage::Done);
    assert!(matches!(expect_finish(action), Err(VisionError::ApiStatus { status: 300, .. })));
    let (_, action) = sent_single_image(&client).advance(Event::Replied { status: 199, body: "".into() });
    assert!(expect_finish(action).is_err());
}

#[test]
fn first_choice_decides() {
    let client = VisionClient::new("sk-test", "http://mock").expect("client");
    let (ex, _) = sent_single_image(&client).advance(Event::Replied { status: 200, body: String::new() });
    let response = ChatResponse {
        choices: vec![
            ChatChoice { message: ChatMessage { content: None } },
            ChatChoice { message: ChatMessage { content: Some("second".into()) } },
        ],
    };
    let (_, action) = ex.advance(Event::Parsed { response });
    assert_eq!(expect_finish(action), Err(VisionError::NoContent));
}

#[test]
fn error_messages() {
    assert_eq!(
        VisionError::ClientInit { cause: "tls".into() }.report(),
        "failed to initialise HTTP client (TLS): tls"
    );
    assert_eq!(
        VisionError::EmptyFrames.message(),
        "frames slice is empty — at least one frame is required"
    );
    assert_eq!(
        VisionError::HeicUnsupported.report(),
        "HEIC format is not supported by OpenAI Vision API. Send JPEG or PNG instead."
    );
}

#[test]
fn status_reason_comes_from_the_code() {
    let client = VisionClient::new("sk-test", "http://mock").expect("client");
    let (_, action) = sent_single_image(&client).advance(Event::Replied { status: 404, body: "nope".into() });
    assert_eq!(
        expect_finish(action).unwrap_err(),
        VisionError::ApiStatus { status: 404, reason: Some("Not Found".into()), body: "nope".into() }
    );
    let (_, action) = sent_single_image(&client).advance(Event::Replied { status: 500, body: "".into() });
    assert_eq!(
        expect_finish(action).unwrap_err().message(),
        "OpenAI Vision API error 500 Internal Server Error: "
    );
}
