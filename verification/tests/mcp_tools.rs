use vision_recognizer::error::VisionError;
use vision_recognizer::tools::{
    api_key_setting, base_url_setting, check_video_ext, image_model, internal_failure,
    start_video_call, video_model, vision_failure, ToolFailure, VideoAction, VideoEvent,
    VideoStage,
};
use vision_recognizer::video::cap_frames;

fn reply_of(action: VideoAction) -> Result<String, ToolFailure> {
    match action {
        VideoAction::Reply { outcome } => outcome,
        _ => panic!("expected a reply"),
    }
}

fn settings(key: Option<&str>) -> VideoEvent {
    VideoEvent::Settings { api_key: key.map(str::to_owned), base_url: None }
}

#[test]
fn recognize_image_missing_key_returns_mcp_error() {
    let result = api_key_setting(None);
    assert!(result.is_err(), "must return Err when OPENAI_API_KEY is not set");
    assert_eq!(
        result.unwrap_err(),
        ToolFailure::Internal { message: "OPENAI_API_KEY is not set".into() }
    );
}

#[test]
fn settings_and_defaults() {
    assert_eq!(api_key_setting(Some("sk-1".into())), Ok("sk-1".to_string()));
    assert_eq!(base_url_setting(None), "https://api.openai.com");
    assert_eq!(base_url_setting(Some("http://mock".into())), "http://mock");
    assert_eq!(image_model(None), "gpt-4o-mini");
    assert_eq!(image_model(Some("gpt-4o".into())), "gpt-4o");
    assert_eq!(video_model(), "gpt-4o");
}

#[test]
fn video_extension_is_checked_first() {
    assert_eq!(check_video_ext("mp4"), Ok(()));
    assert_eq!(check_video_ext("MOV"), Ok(()));
    let err = check_video_ext("avi").unwrap_err();
    assert_eq!(
        err,
        ToolFailure::InvalidParams {
            message: "unsupported video format '.avi'; supported formats: mp4, mov, webm".into()
        }
    );
    assert_eq!(err.message(), "unsupported video format '.avi'; supported formats: mp4, mov, webm");
    assert!(matches!(check_video_ext(""), Err(ToolFailure::InvalidParams { .. })));
}

#[test]
fn failures_are_reported_as_internal_errors() {
    assert_eq!(
        vision_failure(&VisionError::NoContent),
        ToolFailure::Internal { message: "OpenAI Vision API response contained no content".into() }
    );
    assert_eq!(
        vision_failure(&VisionError::UnreadableImage { path: "/x.png".into(), cause: "gone".into() }).message(),
        "cannot read image file: /x.png"
    );
    assert_eq!(internal_failure("boom").message(), "boom");
}

#[test]
fn frames_are_capped() {
    let frames: Vec<String> = (0..20).map(|i| format!("/t/frame_{i:04}.jpg")).collect();
    let capped = cap_frames(frames.clone(), 16);
    assert_eq!(capped.len(), 16);
    assert_eq!(capped, frames[..16].to_vec());
    assert_eq!(cap_frames(frames[..3].to_vec(), 16), frames[..3].to_vec());
    assert!(cap_frames(frames, 0).is_empty());
}

#[test]
fn video_call_checks_key_then_extension_first() {
    let (call, action) = start_video_call("/tmp/clip.avi", "describe");
    assert!(matches!(action, VideoAction::ReadSettings));
    let (call, action) = call.advance(settings(None));
    assert_eq!(call.stage(), VideoStage::Done);
    assert_eq!(
        reply_of(action),
        Err(ToolFailure::Internal { message: "OPENAI_API_KEY is not set".into() })
    );
    let (call, _) = start_video_call("/tmp/clip.avi", "describe");
    let (_, action) = call.advance(settings(Some("sk")));
    assert_eq!(
        reply_of(action),
        Err(ToolFailure::InvalidParams {
            message: "unsupported video format '.avi'; supported formats: mp4, mov, webm".into()
        })
    );
    let (call, _) = start_video_call("/tmp/clip", "describe");
    let (_, action) = call.advance(settings(Some("sk")));
    assert_eq!(
        reply_of(action).unwrap_err().message(),
        "unsupported video format '.'; supported formats: mp4, mov, webm"
    );
}

#[test]
fn video_call_full_run() {
    let (call, _) = start_video_call("/tmp/squat.MP4", "describe the movement");
    let (call, action) = call.advance(settings(Some("sk-test")));
    match action {
        VideoAction::Probe { video_path } => assert_eq!(video_path, "/tmp/squat.MP4"),
        _ => panic!("the duration must be probed"),
    }
    let (call, action) = call.advance(VideoEvent::Probed { within_limit: true, shown_secs: "30.0".into() });
    match action {
        VideoAction::Extract { video_path, max_frames } => {
            assert_eq!(video_path, "/tmp/squat.MP4");
            assert_eq!(max_frames, 16);
        }
        _ => panic!("frames must be extracted"),
    }
    let frames: Vec<String> = (1..=20).map(|i| format!("/t/frame_{i:04}.jpg")).collect();
    let (call, action) = call.advance(VideoEvent::Extracted { frames: frames.clone() });
    match action {
        VideoAction::Analyse { api_key, base_url, frames: sent, prompt, model } => {
            assert_eq!(api_key, "sk-test");
            assert_eq!(base_url, "https://api.openai.com");
            assert_eq!(sent, frames[..16].to_vec());
            assert_eq!(prompt, "describe the movement");
            assert_eq!(model, "gpt-4o");
        }
        _ => panic!("frames must be analysed"),
    }
    let (call, action) = call.advance(VideoEvent::Analysed { outcome: Ok("squat looks fine".into()) });
    assert_eq!(call.stage(), VideoStage::Done);
    assert_eq!(reply_of(action), Ok("squat looks fine".to_string()));
}

#[test]
fn video_call_failures() {
    let start = || {
        let (call, _) = start_video_call("/tmp/v.webm", "p");
        call.advance(VideoEvent::Settings { api_key: Some("k".into()), base_url: Some("http://mock".into()) }).0
    };
    let (_, action) = start().advance(VideoEvent::Probed { within_limit: false, shown_secs: "31.2".into() });
    assert_eq!(
        reply_of(action),
        Err(ToolFailure::InvalidParams {
            message: "video duration 31.2s exceeds the 30s limit; please provide a shorter clip".into()
        })
    );
    let (_, action) = start().advance(VideoEvent::ProbeFailed { message: "ffmpeg not found".into() });
    assert_eq!(reply_of(action), Err(ToolFailure::Internal { message: "ffmpeg not found".into() }));
    let (call, _) = start().advance(VideoEvent::Probed { within_limit: true, shown_secs: "1.0".into() });
    let (_, action) = call.advance(VideoEvent::ExtractFailed { message: "ffmpeg exited".into() });
    assert_eq!(reply_of(action), Err(ToolFailure::Internal { message: "ffmpeg exited".into() }));
    let (call, _) = start().advance(VideoEvent::Probed { within_limit: true, shown_secs: "1.0".into() });
    let (call, action) = call.advance(VideoEvent::Extracted { frames: vec!["/t/a.jpg".into()] });
    match action {
        VideoAction::Analyse { base_url, .. } => assert_eq!(base_url, "http://mock"),
        _ => panic!("frames must be analysed"),
    }
    let (_, action) = call.advance(VideoEvent::Analysed { outcome: Err("boom".into()) });
    assert_eq!(reply_of(action), Err(ToolFailure::Internal { message: "boom".into() }));
}
