use agnes_studio::i18n::Lang;
use agnes_studio::media::{file_data_uri, image_file_name, image_mime_of, preview_of, raw_to_data_uri, release_notes_html, video_file_name};
use agnes_studio::api::StatusOutcome;
use agnes_studio::studio::{
    add_trimmed, apply_video_status, next_index, poll_action, prev_index, PollAction, VideoStatusView,
    asset_id, byte_range, nt_class, poll_retry, rate_limited, save_video_plan, status_text, NoticeKind, SaveVideoPlan,
};

fn tiny_png(w: u32, h: u32) -> Vec<u8> {
    let img = image::RgbaImage::from_pixel(w, h, image::Rgba([10, 20, 30, 255]));
    let mut out = std::io::Cursor::new(Vec::new());
    image::DynamicImage::ImageRgba8(img).write_to(&mut out, image::ImageFormat::Png).unwrap();
    out.into_inner()
}

#[test]
fn status_messages() {
    assert_eq!(status_text(Lang::En, true, ""), "Generation failed");
    assert_eq!(status_text(Lang::En, true, "boom"), "boom");
    assert_eq!(status_text(Lang::Zh, false, "queued"), "排队中…");
    assert_eq!(status_text(Lang::En, false, "in_progress"), "Generating…");
    assert_eq!(status_text(Lang::En, false, "rendering"), "rendering");
    assert_eq!(status_text(Lang::En, false, ""), "");
}

#[test]
fn rate_limit_detection() {
    assert!(rate_limited("HTTP 429 Too Many Requests"));
    assert!(rate_limited("Rate Limit exceeded"));
    assert!(!rate_limited("HTTP 500"));
    assert!(!rate_limited("rate-limit"));
}

#[test]
fn polling_backs_off_and_gives_up() {
    let r = poll_retry(5, 0, "x", Lang::En);
    assert_eq!((r.interval, r.fails, r.give_up), (10, 1, false));
    assert_eq!(r.hint, "Query failed, retrying in 10s…");
    let r = poll_retry(20, 19, "429", Lang::Zh);
    assert_eq!((r.interval, r.fails, r.give_up), (30, 20, true));
    assert_eq!(r.hint, "查询限流，30 秒后重试…");
    let r = poll_retry(15, 3, "rate limit", Lang::En);
    assert_eq!(r.interval, 30);
    assert_eq!(r.hint, "Rate limited, retrying in 30s…");
}

#[test]
fn byte_ranges() {
    let r = byte_range(None, 100);
    assert_eq!((r.start, r.end, r.partial), (0, 99, false));
    let r = byte_range(Some("bytes=10-19"), 100);
    assert_eq!((r.start, r.end, r.partial), (10, 19, true));
    let r = byte_range(Some("bytes=10-"), 100);
    assert_eq!((r.start, r.end), (10, 99));
    let r = byte_range(Some("bytes=-"), 100);
    assert_eq!((r.start, r.end), (0, 99));
    let r = byte_range(Some("bytes=500-900"), 100);
    assert_eq!((r.start, r.end), (99, 99));
    let r = byte_range(Some("bytes=50-10"), 100);
    assert_eq!((r.start, r.end), (50, 50));
    let r = byte_range(Some("bytes=x-7"), 100);
    assert_eq!((r.start, r.end), (0, 7));
    let r = byte_range(Some("bytes=-5"), 100);
    assert_eq!((r.start, r.end, r.partial), (95, 99, true));
    let r = byte_range(Some("bytes=-500"), 100);
    assert_eq!((r.start, r.end), (0, 99));
    let r = byte_range(Some("bytes=-0"), 100);
    assert_eq!((r.start, r.end), (0, 0));
    let r = byte_range(Some("items=1-2"), 100);
    assert_eq!((r.start, r.end, r.partial), (0, 99, true));
}

#[test]
fn asset_ids() {
    assert_eq!(asset_id("/video/7"), Some(7));
    assert_eq!(asset_id("/video/12/extra"), Some(12));
    assert_eq!(asset_id("/video/abc"), None);
    assert_eq!(asset_id("/video"), None);
    assert_eq!(asset_id(""), None);
}

#[test]
fn save_plans() {
    let mut mp4 = vec![0u8, 0, 0, 0x20];
    mp4.extend_from_slice(b"ftypisom");
    mp4.resize(64, 0);
    assert!(matches!(save_video_plan(&mp4, ""), SaveVideoPlan::WriteCached));
    assert!(matches!(save_video_plan(b"<html>", ""), SaveVideoPlan::MissingUrl));
    match save_video_plan(b"<html>", "https://x/v.mp4") {
        SaveVideoPlan::Redownload(u) => assert_eq!(u, "https://x/v.mp4"),
        _ => panic!("expected a new download"),
    }
}

#[test]
fn notice_classes() {
    assert_eq!(nt_class(NoticeKind::Success), "nt nt-ok");
    assert_eq!(nt_class(NoticeKind::Failure), "nt nt-err");
    assert_eq!(nt_class(NoticeKind::Info), "nt nt-info");
}

#[test]
fn mime_types_and_data_uris() {
    assert_eq!(image_mime_of("a.PNG"), "image/png");
    assert_eq!(image_mime_of("photo.JpEg"), "image/jpeg");
    assert_eq!(image_mime_of("x.jpg"), "image/jpeg");
    assert_eq!(image_mime_of("x.webp"), "image/webp");
    assert_eq!(image_mime_of("x.bmp"), "image/bmp");
    assert_eq!(image_mime_of("x.gif"), "image/png");
    assert_eq!(image_mime_of("noext"), "image/png");
    assert_eq!(file_data_uri("a.PNG", &[1, 2, 3]), "data:image/png;base64,AQID");
    assert_eq!(file_data_uri("b.jpg", b"hello"), "data:image/jpeg;base64,aGVsbG8=");
    assert_eq!(file_data_uri("c.bmp", &[]), "data:image/bmp;base64,");
}

#[test]
fn file_names() {
    assert_eq!(image_file_name(&[0xFF, 0xD8, 0xFF, 0xE0, 0, 0], 12), "agnes_12.jpg");
    assert_eq!(image_file_name(&tiny_png(1, 1), 0), "agnes_0.png");
    assert_eq!(image_file_name(b"BM\0\0\0\0\0\0\0\0\0\0\0\0", 5), "agnes_5.bmp");
    assert_eq!(image_file_name(b"???", 99), "agnes_99.png");
    assert_eq!(image_file_name(b"RIFF\x10\0\0\0WEBPVP8 ", 3), "agnes_3.webp");
    assert_eq!(image_file_name(b"GIF89a....", 4), "agnes_4.png");
    assert_eq!(video_file_name(1700000000), "agnes_video_1700000000.mp4");
}

#[test]
fn previews() {
    let png = tiny_png(3, 2);
    let p = preview_of(&png).ok().unwrap();
    assert_eq!((p.width, p.height), (3, 2));
    assert!(p.data_uri.starts_with("data:image/png;base64,"));
    let e = preview_of(b"not an image").err().unwrap();
    assert!(e.starts_with("decode failed: "));
    let u = raw_to_data_uri(&png).ok().unwrap();
    assert!(u.starts_with("data:image/png;base64,iVBOR"));
}

#[test]
fn release_notes() {
    assert_eq!(release_notes_html("# Hi", Lang::En), "<h1>Hi</h1>\n");
    assert_eq!(release_notes_html("*a*", Lang::En), "<p><em>a</em></p>\n");
    let blank = release_notes_html("  \n", Lang::En);
    assert!(blank.starts_with("<p>"));
    assert!(blank.len() > 8);
}

fn outcome(done: bool, failed: bool, message: &str, url: Option<&str>) -> StatusOutcome {
    StatusOutcome {
        done,
        failed,
        message: message.to_string(),
        video_url: url.map(|u| u.to_string()),
        seconds: String::new(),
        size: String::new(),
    }
}

#[test]
fn poll_actions() {
    match poll_action(&outcome(false, true, "quota", None), Lang::En) {
        PollAction::Fail(m) => assert_eq!(m, "quota"),
        _ => panic!("expected a failure"),
    }
    match poll_action(&outcome(true, false, "completed", Some("https://x/v.mp4")), Lang::En) {
        PollAction::Download(u) => assert_eq!(u, "https://x/v.mp4"),
        _ => panic!("expected a download"),
    }
    match poll_action(&outcome(true, false, "completed", None), Lang::En) {
        PollAction::Fail(m) => assert_eq!(m, "Task completed but no video URL was returned"),
        _ => panic!("expected a failure"),
    }
    assert!(matches!(poll_action(&outcome(false, false, "queued", None), Lang::En), PollAction::Continue));
}

#[test]
fn status_reports_update_the_panel() {
    let fresh = || VideoStatusView { loading: true, message: String::new(), error: "old".to_string() };
    let mut v = fresh();
    apply_video_status(&mut v, Lang::En, false, false, "queued", false);
    assert_eq!((v.loading, v.message.as_str(), v.error.as_str()), (true, "Queued…", ""));
    let mut v = fresh();
    apply_video_status(&mut v, Lang::En, true, false, "Downloading video…", false);
    assert_eq!((v.loading, v.message.as_str(), v.error.as_str()), (true, "Download complete", ""));
    let mut v = fresh();
    apply_video_status(&mut v, Lang::En, false, false, "Rate limited, retrying in 10s…", true);
    assert_eq!(v.loading, true);
    assert_eq!(v.error, "Rate limited, retrying in 10s…");
    let mut v = fresh();
    apply_video_status(&mut v, Lang::Zh, false, true, "", false);
    assert_eq!((v.loading, v.message.as_str(), v.error.as_str()), (false, "生成失败", "生成失败"));
}

#[test]
fn history_steps() {
    assert_eq!(prev_index(0, 3), 2);
    assert_eq!(prev_index(2, 3), 1);
    assert_eq!(next_index(2, 3), 0);
    assert_eq!(next_index(0, 3), 1);
    assert_eq!(prev_index(0, 0), 0);
    assert_eq!(next_index(0, 0), 0);
    for i in 0..5 {
        assert_eq!(next_index(prev_index(i, 5), 5), i);
        assert_eq!(prev_index(next_index(i, 5), 5), i);
    }
}

#[test]
fn adding_urls_from_the_input_box() {
    let mut list = vec!["a".to_string()];
    let mut input = "  https://x/1.png ".to_string();
    add_trimmed(&mut list, &mut input);
    assert_eq!(list, vec!["a".to_string(), "https://x/1.png".to_string()]);
    assert_eq!(input, "");
    let mut input = " \t ".to_string();
    add_trimmed(&mut list, &mut input);
    assert_eq!(list.len(), 2);
    assert_eq!(input, " \t ");
}

#[test]
fn polling_backs_off_over_several_failures_and_starts_over() {
    let mut p = agnes_studio::studio::PollState::fresh();
    assert_eq!((p.interval, p.fails), (5, 0));
    let mut waits = vec![];
    let mut gave_up_at = None;
    for k in 1..=25u32 {
        let r = p.failed("HTTP 502", Lang::En);
        waits.push(p.interval);
        assert_eq!(p.fails, k);
        assert_eq!(r.interval, p.interval);
        if r.give_up && gave_up_at.is_none() {
            gave_up_at = Some(k);
        }
    }
    assert_eq!(&waits[..5], &[10, 20, 30, 30, 30]);
    assert_eq!(gave_up_at, Some(20));
    p.answered();
    assert_eq!((p.interval, p.fails), (5, 0));
    let r = p.failed("429", Lang::En);
    assert_eq!(r.hint, "Rate limited, retrying in 10s…");
}

#[test]
fn preview_matches_the_data_uri_and_keeps_width_and_height_apart() {
    let png = tiny_png(5, 2);
    let p = preview_of(&png).ok().unwrap();
    assert_eq!((p.width, p.height), (5, 2));
    assert_eq!(Some(p.data_uri.clone()), raw_to_data_uri(&png).ok());
    let e = raw_to_data_uri(b"\x89PNG\r\n\x1a\nbroken").err().unwrap();
    assert!(e.starts_with("decode failed: "));
}
