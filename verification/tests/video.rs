use vision_recognizer::text::decimal_text;
use vision_recognizer::video::{
    exit_failure_message, extract_args, probe_args, probe_duration_text, select_frames,
    start_failure_message, supported_lowercase_video_ext, supported_video_ext, ProbeError,
    MAX_DURATION_SECS, MAX_FRAMES,
};

#[test]
fn supported_video_ext_mp4() {
    assert!(supported_video_ext("mp4"));
}

#[test]
fn unsupported_ext_avi_false() {
    assert!(!supported_video_ext("avi"));
}

#[test]
fn uppercase_mp4_true() {
    assert!(supported_video_ext("MP4"));
}

#[test]
fn uppercase_mov_true() {
    assert!(supported_video_ext("MOV"));
}

#[test]
fn supported_video_ext_webm() {
    assert!(supported_video_ext("webm"));
}

#[test]
fn supported_video_ext_unicode() {
    // Extension of "тест.mp4" is "mp4" — should be supported
    let path = std::path::Path::new("тест.mp4");
    let ext = path.extension().and_then(|e| e.to_str()).unwrap_or("");
    assert!(supported_video_ext(ext));
}

#[test]
fn duration_exactly_30s_passes() {
    // Guard is >, not >= — exactly 30.0 must pass
    assert!(
        30.0_f64 <= f64::from(MAX_DURATION_SECS),
        "30.0s should be within the limit"
    );
    assert!(
        !(30.0_f64 > f64::from(MAX_DURATION_SECS)),
        "30.0s must NOT be rejected by the > guard"
    );
}

#[test]
fn analyze_video_unsupported_ext_returns_false() {
    assert!(
        !supported_video_ext("avi"),
        "avi must not be a supported extension"
    );
}

#[test]
fn no_ffmpeg_returns_install_hint() {
    let msg = start_failure_message("ffprobe", true, "No such file or directory (os error 2)");
    assert!(msg.contains("ffmpeg"), "error must mention ffmpeg, got: {msg}");
    assert!(
        msg.contains("brew install ffmpeg"),
        "error must include install hint, got: {msg}"
    );
}

#[test]
fn mixed_case_webm_and_other_containers() {
    assert!(supported_video_ext("WebM"));
    assert!(supported_video_ext("Mov"));
    assert!(supported_video_ext("mP4"));
    assert_eq!(supported_video_ext("AvI"), supported_video_ext("avi"));
    assert!(!supported_video_ext("mkv"));
    assert!(!supported_video_ext(""));
    assert!(!supported_video_ext("mp4 "));
    assert!(!supported_lowercase_video_ext("MP4"));
    assert!(supported_lowercase_video_ext("mov"));
}

#[test]
fn other_start_failure_names_tool_and_cause() {
    assert_eq!(
        start_failure_message("ffmpeg", false, "permission denied"),
        "ffmpeg failed to start: permission denied"
    );
    assert_eq!(
        exit_failure_message("ffprobe", "bad input"),
        "ffprobe exited with error: bad input"
    );
}

#[test]
fn probe_and_extract_arguments() {
    assert_eq!(
        probe_args("/tmp/v.mp4"),
        vec!["-v", "quiet", "-print_format", "json", "-show_format", "/tmp/v.mp4"]
    );
    assert_eq!(
        extract_args("/tmp/v.mp4", "3.2", MAX_FRAMES, "/tmp/d/frame_%04d.jpg"),
        vec![
            "-i",
            "/tmp/v.mp4",
            "-vf",
            "fps=3.2",
            "-frames:v",
            "16",
            "/tmp/d/frame_%04d.jpg",
            "-y",
            "-loglevel",
            "error"
        ]
    );
}

#[test]
fn frames_are_filtered_and_sorted() {
    let entries = vec![
        "/t/frame_0003.jpg".to_string(),
        "/t/notes.txt".to_string(),
        "/t/frame_0001.jpg".to_string(),
        "/t/frame_0010.jpg".to_string(),
        "/t/frame_0002.JPG".to_string(),
        "/t/frame_0002.jpg".to_string(),
        "/t/.jpg".to_string(),
    ];
    assert_eq!(
        select_frames(entries),
        vec![
            "/t/frame_0001.jpg",
            "/t/frame_0002.jpg",
            "/t/frame_0003.jpg",
            "/t/frame_0010.jpg"
        ]
    );
    assert!(select_frames(Vec::new()).is_empty());
}

#[test]
fn decimal_rendering() {
    assert_eq!(decimal_text(0), "0");
    assert_eq!(decimal_text(7), "7");
    assert_eq!(decimal_text(16), "16");
    assert_eq!(decimal_text(429), "429");
    assert_eq!(decimal_text(65535), "65535");
    assert_eq!(decimal_text(u64::MAX), u64::MAX.to_string());
}

#[test]
fn duration_text_is_read_from_the_report() {
    assert_eq!(
        probe_duration_text(r#"{"format":{"filename":"v.mp4","duration":"5.000000"}}"#),
        Ok("5.000000".to_string())
    );
    assert_eq!(probe_duration_text(r#"{"format":{}}"#), Err(ProbeError::MissingDuration));
    assert_eq!(probe_duration_text(r#"{"format":{"duration":5.0}}"#), Err(ProbeError::MissingDuration));
    assert_eq!(probe_duration_text("[]"), Err(ProbeError::MissingDuration));
    let err = probe_duration_text("not json").unwrap_err();
    assert!(matches!(err, ProbeError::Unparsable { ref cause } if !cause.is_empty()));
    assert_eq!(err.message(), "failed to parse ffprobe JSON output");
    assert_eq!(
        ProbeError::MissingDuration.message(),
        "ffprobe output missing format.duration field"
    );
}
