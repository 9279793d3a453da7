use agnes_studio::api::{
    retry_step, RetryStep,
    build_body, build_video25_body, build_video_body, check_key_and_prompt, check_video_download,
    decode_inline_image, err_chain, error_message, http_failure, is_valid_mp4, needs_auth_retry,
    pick_image_source, retry_delay_secs, retry_failure, status_http_failure, status_outcome,
    status_query_url, task_from_response, task_http_failure, ErrorDetail, GenData, GenParams,
    ImageSource, V25Mode, VideoCreateResp, VideoKind, VideoMeta, VideoParams, VideoStatusFields,
    MODEL_VIDEO_V20, MODEL_VIDEO_V25, MODEL_VIDEO_V25_FLASH,
};

fn gen(fmt: &str, input: Option<&str>) -> GenParams {
    GenParams {
        api_key: "k".to_string(),
        model: "agnes-image-2.1-flash".to_string(),
        prompt: "a cat".to_string(),
        size: "2K".to_string(),
        ratio: Some("16:9".to_string()),
        input_image: input.map(|s| s.to_string()),
        output_format: fmt.to_string(),
    }
}

#[test]
fn key_and_prompt_are_required() {
    assert_eq!(check_key_and_prompt("  ", "p"), Err("API key is not set. Add it under Settings.".to_string()));
    assert_eq!(check_key_and_prompt("", ""), Err("API key is not set. Add it under Settings.".to_string()));
    assert_eq!(check_key_and_prompt("k", "\n"), Err("Prompt cannot be empty.".to_string()));
    assert_eq!(check_key_and_prompt("k", "p"), Ok(()));
}

#[test]
fn text_to_image_inline_uses_top_level_flag() {
    let r = build_body(&gen("b64_json", None));
    assert_eq!(r.return_base64, Some(true));
    assert!(r.extra_body.is_none());
    assert_eq!(r.model, "agnes-image-2.1-flash");
    assert_eq!(r.size, "2K");
    assert_eq!(r.ratio.as_deref(), Some("16:9"));
}

#[test]
fn other_requests_use_extra_body() {
    let r = build_body(&gen("url", None));
    assert!(r.return_base64.is_none());
    let e = r.extra_body.unwrap();
    assert_eq!(e.response_format, "url");
    assert!(e.image.is_none());

    let r = build_body(&gen("b64_json", Some("https://x/i.png")));
    assert!(r.return_base64.is_none());
    let e = r.extra_body.unwrap();
    assert_eq!(e.response_format, "b64_json");
    assert_eq!(e.image, Some(vec!["https://x/i.png".to_string()]));

    let r = build_body(&gen("png", None));
    assert_eq!(r.extra_body.unwrap().response_format, "url");
}

#[test]
fn image_source_choice() {
    let d = |u: Option<&str>, b: Option<&str>| GenData { url: u.map(String::from), b64_json: b.map(String::from) };
    match pick_image_source(Some(d(Some("https://x"), Some("AAAA")))) {
        Ok(ImageSource::Download(u)) => assert_eq!(u, "https://x"),
        _ => panic!("download expected"),
    }
    match pick_image_source(Some(d(Some(""), Some("AAAA")))) {
        Ok(ImageSource::Inline(b)) => assert_eq!(b, "AAAA"),
        _ => panic!("inline expected"),
    }
    match pick_image_source(Some(d(None, Some("")))) {
        Err(e) => assert_eq!(e, "Response contains neither url nor b64_json."),
        _ => panic!("error expected"),
    }
    match pick_image_source(None) {
        Err(e) => assert_eq!(e, "Response contains no data."),
        _ => panic!("error expected"),
    }
}

#[test]
fn inline_image_is_decoded() {
    let g = decode_inline_image("aGVsbG8=").ok().unwrap();
    assert_eq!(g.bytes, b"hello".to_vec());
    assert!(g.url.is_none());
    let e = decode_inline_image("!!!").err().unwrap();
    assert!(e.starts_with("Failed to decode base64: "));
    // only canonical padded text decodes
    assert!(decode_inline_image("aGVsbG8").is_err());
    assert!(decode_inline_image("aGVsbG9=").is_err());
    assert_eq!(decode_inline_image("").ok().unwrap().bytes, Vec::<u8>::new());
}

#[test]
fn retry_schedule_and_failure() {
    assert_eq!(retry_delay_secs(1), 2);
    assert_eq!(retry_delay_secs(2), 5);
    assert_eq!(retry_delay_secs(3), 8);
    assert_eq!(retry_delay_secs(40), 8);
    assert_eq!(retry_failure(3, Some("timed out".to_string())), "Request failed after 3 attempts: timed out");
    assert_eq!(retry_failure(0, None), "Request failed after 0 attempts: ");
}

#[test]
fn error_chain_text() {
    let v = vec!["error sending request".to_string(), "connect".to_string(), "reset".to_string()];
    assert_eq!(err_chain(&v), "error sending request\n  ↳ connect\n  ↳ reset");
    assert_eq!(err_chain(&vec!["only".to_string()]), "only");
}

#[test]
fn http_failures() {
    assert_eq!(http_failure("404 Not Found", "nope"), "HTTP 404 Not Found\nnope");
    assert_eq!(task_http_failure("400 Bad Request", "{}"), "Task creation failed: HTTP 400 Bad Request\n{}");
    assert_eq!(status_http_failure("429 Too Many Requests", ""), "Status query failed: HTTP 429 Too Many Requests\n");
}

fn v20(images: Vec<&str>, keyframes: bool, neg: &str) -> VideoParams {
    VideoParams {
        api_key: "k".to_string(),
        prompt: "waves".to_string(),
        kind: VideoKind::V20 {
            negative_prompt: neg.to_string(),
            width: 1280,
            height: 720,
            num_frames: 121,
            frame_rate: 24,
            seed: Some(7),
            images: images.into_iter().map(String::from).collect(),
            keyframes,
        },
    }
}

#[test]
fn v20_body_places_images() {
    let r = build_video_body(&v20(vec![], false, "  "));
    assert_eq!(r.model, MODEL_VIDEO_V20);
    assert!(r.image.is_none() && r.extra_body.is_none() && r.negative_prompt.is_none());
    assert_eq!((r.width, r.height, r.num_frames, r.frame_rate, r.seed), (1280, 720, 121, 24, Some(7)));

    let r = build_video_body(&v20(vec!["a"], false, "blur"));
    assert_eq!(r.image.as_deref(), Some("a"));
    assert!(r.extra_body.is_none());
    assert_eq!(r.negative_prompt.as_deref(), Some("blur"));

    let r = build_video_body(&v20(vec!["a", "b"], false, ""));
    assert!(r.image.is_none());
    let e = r.extra_body.unwrap();
    assert_eq!(e.image, Some(vec!["a".to_string(), "b".to_string()]));
    assert!(e.mode.is_none());

    let r = build_video_body(&v20(vec![], true, ""));
    let e = r.extra_body.unwrap();
    assert!(e.image.is_none());
    assert_eq!(e.mode.as_deref(), Some("keyframes"));
}

fn v25(mode: V25Mode, flash: bool) -> VideoParams {
    VideoParams {
        api_key: "k".to_string(),
        prompt: "p".to_string(),
        kind: VideoKind::V25 {
            mode,
            seconds: "5".to_string(),
            aspect_ratio: "16:9".to_string(),
            seed: None,
            first_frame: Some("  ".to_string()),
            last_frame: Some(" https://x/last.png".to_string()),
            images: vec![" a ".to_string(), "".to_string(), "b".to_string()],
            audios: vec![" ".to_string()],
            videos: vec!["v ".to_string()],
            flash,
        },
    }
}

#[test]
fn v25_body_filters_media_by_mode() {
    let r = build_video25_body(&v25(V25Mode::Reference, true));
    assert_eq!(r.model, MODEL_VIDEO_V25_FLASH);
    assert_eq!(r.mode, "reference");
    assert_eq!(r.size, "720P");
    assert_eq!(r.images, vec!["a".to_string(), "b".to_string()]);
    assert!(r.audios.is_empty());
    assert!(r.videos.is_empty());
    assert!(r.first_frame.is_none() && r.last_frame.is_none());

    let r = build_video25_body(&v25(V25Mode::Reference, false));
    assert_eq!(r.model, MODEL_VIDEO_V25);
    assert_eq!(r.videos.len(), 1);
    assert_eq!(r.videos[0].url, "v");

    let r = build_video25_body(&v25(V25Mode::Keyframe, false));
    assert_eq!(r.mode, "keyframe");
    assert!(r.first_frame.is_none());
    assert_eq!(r.last_frame.as_deref(), Some(" https://x/last.png"));
    assert!(r.images.is_empty() && r.videos.is_empty());

    let r = build_video25_body(&v25(V25Mode::Text, false));
    assert_eq!(r.mode, "text");
    assert!(r.first_frame.is_none() && r.last_frame.is_none() && r.images.is_empty());
    assert_eq!(r.seconds, "5");
    assert_eq!(r.aspect_ratio, "16:9");
}

fn create(id: Option<&str>, vid: Option<&str>, tid: Option<&str>) -> VideoCreateResp {
    VideoCreateResp {
        id: id.map(String::from),
        video_id: vid.map(String::from),
        task_id: tid.map(String::from),
        seconds: Some("5".to_string()),
        size: None,
    }
}

#[test]
fn task_identifiers() {
    let t = task_from_response(&create(Some("abc"), None, None), "raw").ok().unwrap();
    assert_eq!((t.video_id.as_str(), t.task_id.as_str(), t.seconds.as_str(), t.size.as_str()), ("abc", "abc", "5", ""));
    let t = task_from_response(&create(Some("id"), Some("v"), Some("")), "raw").ok().unwrap();
    assert_eq!((t.video_id.as_str(), t.task_id.as_str()), ("v", "id"));
    let t = task_from_response(&create(None, Some("v"), None), "raw").ok().unwrap();
    assert_eq!(t.task_id, "");
    let e = task_from_response(&create(Some(""), Some(""), Some("t")), "{\"x\":1}").err().unwrap();
    assert_eq!(e, "Response contains no video_id.\nRaw: {\"x\":1}");
}

#[test]
fn status_urls() {
    assert_eq!(
        status_query_url("vid", "tid", "agnes-video-2.5"),
        "https://apihub.agnes-ai.com/agnesapi?video_id=vid&model_name=agnes-video-2.5"
    );
    assert_eq!(status_query_url("", "tid", "m"), "https://apihub.agnes-ai.com/v1/videos/tid");
}

fn fields(status: Option<&str>) -> VideoStatusFields {
    VideoStatusFields {
        status: status.map(String::from),
        seconds: Some("5".to_string()),
        size: Some("720P".to_string()),
        url: None,
        metadata: None,
        remixed_from_video_id: None,
        error: None,
    }
}

#[test]
fn status_outcomes() {
    let mut f = fields(Some("completed"));
    f.url = Some("".to_string());
    f.metadata = Some(VideoMeta { url: Some("https://m".to_string()) });
    let o = status_outcome(&f);
    assert!(o.done && !o.failed);
    assert!(o.video_url.is_none());
    assert_eq!(o.message, "completed");

    let mut f = fields(Some("completed"));
    f.metadata = Some(VideoMeta { url: Some("https://m".to_string()) });
    f.remixed_from_video_id = Some("r".to_string());
    assert_eq!(status_outcome(&f).video_url.as_deref(), Some("https://m"));

    let mut f = fields(Some("completed"));
    f.remixed_from_video_id = Some("r".to_string());
    assert_eq!(status_outcome(&f).video_url.as_deref(), Some("r"));

    let mut f = fields(Some("failed"));
    f.error = Some(ErrorDetail::Object { message: Some("quota".to_string()), json: "{\"message\":\"quota\"}".to_string() });
    let o = status_outcome(&f);
    assert!(o.failed && !o.done);
    assert_eq!(o.message, "quota");

    let o = status_outcome(&fields(Some("failed")));
    assert_eq!(o.message, "");

    let o = status_outcome(&fields(Some("in_progress")));
    assert!(!o.done && !o.failed);
    assert_eq!(o.message, "in_progress");
    assert_eq!((o.seconds.as_str(), o.size.as_str()), ("5", "720P"));

    let o = status_outcome(&fields(None));
    assert_eq!(o.message, "");
}

#[test]
fn error_messages() {
    assert_eq!(error_message(&ErrorDetail::Text("bad".to_string())), "bad");
    assert_eq!(error_message(&ErrorDetail::Object { message: None, json: "{\"code\":1}".to_string() }), "{\"code\":1}");
    assert_eq!(error_message(&ErrorDetail::Other { json: "42".to_string() }), "42");
}

#[test]
fn auth_retry_on_refusal_only() {
    assert!(needs_auth_retry(401, "k"));
    assert!(needs_auth_retry(403, "k"));
    assert!(!needs_auth_retry(403, "  "));
    assert!(!needs_auth_retry(404, "k"));
}

fn mp4_head() -> Vec<u8> {
    let mut v = vec![0, 0, 0, 0x18, b'f', b't', b'y', b'p', b'i', b's', b'o', b'm', 0];
    v.extend_from_slice(&[1, 2, 3]);
    v
}

#[test]
fn mp4_signature() {
    assert!(is_valid_mp4(&mp4_head()));
    assert!(!is_valid_mp4(&mp4_head()[..12]));
    assert!(!is_valid_mp4(b"<html><body>error</body></html>"));
    let mut v = mp4_head();
    v[2] = 1;
    assert!(!is_valid_mp4(&v));
}

#[test]
fn video_download_checks() {
    assert_eq!(
        check_video_download(false, "500 Internal Server Error", "video/mp4", mp4_head()),
        Err("Video download failed: HTTP 500 Internal Server Error".to_string())
    );
    assert_eq!(check_video_download(true, "200 OK", "video/mp4", mp4_head()), Ok(mp4_head()));
    assert_eq!(
        check_video_download(true, "200 OK", "text/html", b"<html>".to_vec()),
        Err("Downloaded content is not a valid mp4 (Content-Type: text/html, 6 bytes, head: <html>)".to_string())
    );
    assert_eq!(
        check_video_download(true, "200 OK", "", vec![0xff, b'a']),
        Err("Downloaded content is not a valid mp4 (Content-Type: , 2 bytes, head: \u{FFFD}a)".to_string())
    );
    let long = vec![b'x'; 100];
    let e = check_video_download(true, "200 OK", "t", long).err().unwrap();
    assert!(e.ends_with(&format!("100 bytes, head: {})", "x".repeat(80))));
}

#[test]
fn retry_steps() {
    let waits: Vec<Option<u64>> = (0..5)
        .map(|a| match retry_step(a, 4) {
            RetryStep::Send { wait_secs } => Some(wait_secs),
            RetryStep::GiveUp => None,
        })
        .collect();
    assert_eq!(waits, vec![Some(0), Some(2), Some(5), Some(8), None]);
    assert!(matches!(retry_step(0, 0), RetryStep::GiveUp));
}
