use agnes_studio::api::{V25Mode, VideoKind};
use agnes_studio::config::Config;
use agnes_studio::i18n::Lang;
use agnes_studio::studio::{
    apply_image_defaults, apply_video_defaults, custom_size, find_tier_combo, prepare_image_generation,
    prepare_video_generation, resolved_ratio, resolved_size, tier_exact_size, video_dims, video_fps,
    video_frames, ImageForm, InputSrc, Mode, OutFmt, VMode, VideoForm,
};

fn image_form() -> ImageForm {
    ImageForm {
        prompt: "a cat".to_string(),
        mode: Mode::Text,
        out_fmt: OutFmt::Url,
        model_index: 0,
        size_preset_index: 0,
        custom_w: 1024,
        custom_h: 1024,
        input_src: InputSrc::File,
        input_url: String::new(),
        input_file: None,
        tier_index: 0,
        ratio_index: 0,
    }
}

fn video_form() -> VideoForm {
    VideoForm {
        video_prompt: "waves".to_string(),
        video_neg: String::new(),
        vmodel_index: 0,
        vsize_index: 0,
        vw_custom: 1280,
        vh_custom: 720,
        vduration_index: 1,
        vframes_custom: 121,
        vfps_custom: 24,
        vmode: VMode::Text,
        video_image_urls: vec![],
        v25_mode: V25Mode::Text,
        v25_seconds_index: 1,
        v25_ar_index: 0,
        v25_first: String::new(),
        v25_last: String::new(),
        v25_images: vec![],
        v25_audios: vec![],
        v25_videos: vec![],
    }
}

fn keyed_config() -> Config {
    let mut c = Config::with_save_dir("/tmp/out".to_string());
    c.api_key = "sk-1".to_string();
    c
}

#[test]
fn tier_model_sends_tier_and_ratio() {
    let mut f = image_form();
    f.tier_index = 1;
    f.ratio_index = 3;
    assert_eq!(resolved_size(&f), "2K");
    assert_eq!(resolved_ratio(&f).as_deref(), Some("16:9"));
    assert_eq!(tier_exact_size(&f), "2624x1472");
}

#[test]
fn exact_size_model_sends_preset_or_custom() {
    let mut f = image_form();
    f.model_index = 1;
    f.size_preset_index = 3;
    assert_eq!(resolved_size(&f), "1280x720");
    assert_eq!(resolved_ratio(&f), None);
    f.size_preset_index = 11;
    f.custom_w = 800;
    f.custom_h = 600;
    assert_eq!(resolved_size(&f), "800x600");
    f.custom_w = -5;
    assert_eq!(resolved_size(&f), "-5x600");
}

#[test]
fn out_of_range_tier_indices_take_the_last() {
    let mut f = image_form();
    f.tier_index = 9;
    f.ratio_index = 40;
    assert_eq!(resolved_size(&f), "4K");
    assert_eq!(resolved_ratio(&f).as_deref(), Some("21:9"));
    assert_eq!(tier_exact_size(&f), "6272x2688");
}

#[test]
fn tier_table_lookup() {
    assert_eq!(find_tier_combo("2624x1472"), Some((1, 3)));
    assert_eq!(find_tier_combo("1024x1024"), Some((0, 0)));
    assert_eq!(find_tier_combo("6272x2688"), Some((3, 7)));
    assert_eq!(find_tier_combo("1000x1000"), None);
}

#[test]
fn custom_size_parsing() {
    assert_eq!(custom_size("800x600"), Some((800, 600)));
    assert_eq!(custom_size(" 800 x 600 "), Some((800, 600)));
    assert_eq!(custom_size("800"), None);
    assert_eq!(custom_size("ax600"), None);
    assert_eq!(custom_size("-3x+4"), Some((-3, 4)));
}

#[test]
fn image_defaults_from_fresh_settings() {
    let c = Config::with_save_dir("/tmp".to_string());
    let mut f = image_form();
    f.prompt = "old".to_string();
    f.model_index = 1;
    f.mode = Mode::Image;
    f.size_preset_index = 5;
    apply_image_defaults(&mut f, &c);
    assert_eq!(f.prompt, "");
    assert_eq!(f.mode, Mode::Text);
    assert_eq!(f.out_fmt, OutFmt::Url);
    assert_eq!(f.model_index, 0);
    assert_eq!(f.tier_index, 0);
    assert_eq!(f.ratio_index, 0);
    assert_eq!(f.size_preset_index, 0);
}

#[test]
fn image_defaults_carry_an_exact_size_over_to_tiers() {
    let mut c = Config::with_save_dir("/tmp".to_string());
    c.model = "agnes-image-2.1-flash".to_string();
    c.image_tier = String::new();
    c.image_ratio = String::new();
    c.last_size = "2624x1472".to_string();
    c.mode = "image".to_string();
    c.output_format = "b64_json".to_string();
    let mut f = image_form();
    apply_image_defaults(&mut f, &c);
    assert_eq!(f.tier_index, 1);
    assert_eq!(f.ratio_index, 3);
    assert_eq!(f.mode, Mode::Image);
    assert_eq!(f.out_fmt, OutFmt::B64);
    // not a preset: kept as a clamped custom size
    assert_eq!(f.size_preset_index, 11);
    assert_eq!(f.custom_w, 2624);
    assert_eq!(f.custom_h, 1472);
}

#[test]
fn image_defaults_clamp_custom_sizes() {
    let mut c = Config::with_save_dir("/tmp".to_string());
    c.model = "agnes-image-2.0-flash".to_string();
    c.last_size = "10x9000".to_string();
    let mut f = image_form();
    apply_image_defaults(&mut f, &c);
    assert_eq!(f.model_index, 1);
    assert_eq!(f.size_preset_index, 11);
    assert_eq!((f.custom_w, f.custom_h), (64, 4096));
}

#[test]
fn image_request_checks_in_order() {
    let mut c = Config::with_save_dir("/tmp".to_string());
    let f = image_form();
    let r = prepare_image_generation(&f, &mut c, Lang::En);
    assert_eq!(
        r.err().as_deref(),
        Some("No API Key set. Click ⚙ in the top-right corner to open Settings and add one.")
    );
    assert_eq!(c.last_prompt, "");
    let mut c = keyed_config();
    let mut f = image_form();
    f.prompt = "   ".to_string();
    assert_eq!(prepare_image_generation(&f, &mut c, Lang::Zh).err().as_deref(), Some("提示词不能为空。"));
    f.prompt = "p".to_string();
    f.mode = Mode::Image;
    f.input_src = InputSrc::Url;
    f.input_url = "  ".to_string();
    assert_eq!(
        prepare_image_generation(&f, &mut c, Lang::En).err().as_deref(),
        Some("Image-to-image mode requires an input image.")
    );
    assert_eq!(c.mode, "text");
}

#[test]
fn image_request_records_settings() {
    let mut c = keyed_config();
    let mut f = image_form();
    f.tier_index = 2;
    f.ratio_index = 4;
    f.mode = Mode::Image;
    f.input_src = InputSrc::Url;
    f.input_url = "  https://x/a.png ".to_string();
    f.out_fmt = OutFmt::B64;
    let p = prepare_image_generation(&f, &mut c, Lang::En).ok().unwrap();
    assert_eq!(p.api_key, "sk-1");
    assert_eq!(p.model, "agnes-image-2.1-flash");
    assert_eq!(p.size, "3K");
    assert_eq!(p.ratio.as_deref(), Some("9:16"));
    assert_eq!(p.input_image.as_deref(), Some("https://x/a.png"));
    assert_eq!(p.output_format, "b64_json");
    assert_eq!(c.last_prompt, "a cat");
    assert_eq!(c.image_tier, "3K");
    assert_eq!(c.image_ratio, "9:16");
    assert_eq!(c.last_size, "2208x3936");
    assert_eq!(c.mode, "image");
    assert_eq!(c.output_format, "b64_json");
}

#[test]
fn recorded_image_settings_restore_the_form() {
    let mut c = keyed_config();
    let mut f = image_form();
    f.model_index = 1;
    f.size_preset_index = 8;
    f.prompt = "hills".to_string();
    prepare_image_generation(&f, &mut c, Lang::En).ok().unwrap();
    assert_eq!(c.last_size, "2560x1440");
    let mut g = image_form();
    apply_image_defaults(&mut g, &c);
    assert_eq!(g.model_index, 1);
    assert_eq!(g.size_preset_index, 8);
    assert_eq!(g.prompt, "hills");
}

#[test]
fn video_dims_frames_and_rates() {
    let mut v = video_form();
    v.vsize_index = 1;
    assert_eq!(video_dims(&v), (720, 1280));
    v.vsize_index = 5;
    v.vw_custom = 10;
    v.vh_custom = 5000;
    assert_eq!(video_dims(&v), (64, 4096));
    v.vduration_index = 3;
    assert_eq!((video_frames(&v), video_fps(&v)), (441, 24));
    v.vduration_index = 4;
    v.vframes_custom = 0;
    v.vfps_custom = 99;
    assert_eq!((video_frames(&v), video_fps(&v)), (1, 60));
}

#[test]
fn video_defaults_from_fresh_settings() {
    let c = Config::with_save_dir("/tmp".to_string());
    let mut v = video_form();
    v.vmodel_index = 2;
    v.v25_seconds_index = 7;
    apply_video_defaults(&mut v, &c);
    assert_eq!(v.vmodel_index, 0);
    // 1152x768 is no preset
    assert_eq!(v.vsize_index, 0);
    assert_eq!(v.vduration_index, 1);
    assert_eq!(v.vmode, VMode::Text);
    assert_eq!(v.v25_mode, V25Mode::Text);
    assert_eq!(v.v25_seconds_index, 1);
    assert_eq!(v.v25_ar_index, 0);
}

#[test]
fn video_request_checks() {
    let mut c = keyed_config();
    let mut v = video_form();
    v.v25_mode = V25Mode::Keyframe;
    v.v25_first = "  ".to_string();
    assert_eq!(
        prepare_video_generation(&v, &mut c, Lang::En).err().as_deref(),
        Some("Keyframe mode needs at least a first or last frame image URL")
    );
    v.v25_mode = V25Mode::Reference;
    v.v25_images = vec![" ".to_string()];
    assert_eq!(
        prepare_video_generation(&v, &mut c, Lang::En).err().as_deref(),
        Some("Reference mode needs at least one reference (image / audio / video)")
    );
    v.v25_images = (0..6).map(|i| format!("https://x/{}.png", i)).collect();
    assert_eq!(
        prepare_video_generation(&v, &mut c, Lang::En).err().as_deref(),
        Some("Flash allows at most 5 reference images; remove the extras")
    );
    v.v25_images = vec!["https://x/1.png".to_string()];
    v.v25_videos = vec!["https://x/1.mp4".to_string()];
    assert_eq!(
        prepare_video_generation(&v, &mut c, Lang::En).err().as_deref(),
        Some("Flash does not support video references; remove them or switch to Agnes Video 2.5")
    );
    // the full 2.5 model takes video references
    v.vmodel_index = 1;
    assert!(prepare_video_generation(&v, &mut c, Lang::En).is_ok());
    let mut v = video_form();
    v.vmodel_index = 2;
    v.vmode = VMode::Multi;
    v.video_image_urls = vec!["https://x/1.png".to_string(), "".to_string()];
    assert_eq!(
        prepare_video_generation(&v, &mut c, Lang::Zh).err().as_deref(),
        Some("该模式至少需要 2 张图片 URL")
    );
}

#[test]
fn v25_request_is_built_and_recorded() {
    let mut c = keyed_config();
    let mut v = video_form();
    v.v25_mode = V25Mode::Keyframe;
    v.v25_first = " https://x/f.png ".to_string();
    v.v25_seconds_index = 20;
    v.v25_ar_index = 2;
    let (p, model) = prepare_video_generation(&v, &mut c, Lang::En).ok().unwrap();
    assert_eq!(model, "agnes-video-2.5-flash");
    assert_eq!(p.api_key, "sk-1");
    assert_eq!(p.prompt, "waves");
    match p.kind {
        VideoKind::V25 { mode, seconds, aspect_ratio, first_frame, last_frame, flash, .. } => {
            assert_eq!(mode, V25Mode::Keyframe);
            assert_eq!(seconds, "12");
            assert_eq!(aspect_ratio, "21:9");
            assert_eq!(first_frame.as_deref(), Some("https://x/f.png"));
            assert_eq!(last_frame, None);
            assert!(flash);
        },
        _ => panic!("expected a 2.5 request"),
    }
    assert_eq!(c.video_model, "agnes-video-2.5-flash");
    assert_eq!(c.video25_mode, "keyframe");
    assert_eq!(c.video25_seconds, "12");
    assert_eq!(c.video25_ar, "21:9");
    assert_eq!(c.video25_first_frame, " https://x/f.png ");
    assert_eq!(c.last_video_prompt, "waves");
    let mut w = video_form();
    apply_video_defaults(&mut w, &c);
    assert_eq!(w.v25_mode, V25Mode::Keyframe);
    assert_eq!(w.v25_seconds_index, 8);
    assert_eq!(w.v25_ar_index, 2);
}

#[test]
fn v20_request_is_built_and_recorded() {
    let mut c = keyed_config();
    let mut v = video_form();
    v.vmodel_index = 2;
    v.vmode = VMode::Keyframes;
    v.vsize_index = 3;
    v.vduration_index = 2;
    v.video_neg = "blur".to_string();
    v.video_image_urls = vec![" https://x/1.png".to_string(), " ".to_string(), "https://x/2.png ".to_string()];
    let (p, model) = prepare_video_generation(&v, &mut c, Lang::En).ok().unwrap();
    assert_eq!(model, "agnes-video-v2.0");
    match p.kind {
        VideoKind::V20 { negative_prompt, width, height, num_frames, frame_rate, images, keyframes, .. } => {
            assert_eq!(negative_prompt, "blur");
            assert_eq!((width, height), (1024, 768));
            assert_eq!((num_frames, frame_rate), (241, 24));
            assert_eq!(images, vec!["https://x/1.png".to_string(), "https://x/2.png".to_string()]);
            assert!(keyframes);
        },
        _ => panic!("expected a V2.0 request"),
    }
    assert_eq!((c.video_width, c.video_height), (1024, 768));
    assert_eq!(c.video_mode, "keyframes");
    assert_eq!(c.video_duration_preset, 2);
    let mut w = video_form();
    apply_video_defaults(&mut w, &c);
    assert_eq!(w.vmodel_index, 2);
    assert_eq!(w.vsize_index, 3);
    assert_eq!(w.vduration_index, 2);
    assert_eq!(w.vmode, VMode::Keyframes);
    assert_eq!(w.video_neg, "blur");
}

#[test]
fn prepared_requests_pass_the_service_checks() {
    let mut c = keyed_config();
    let p = prepare_image_generation(&image_form(), &mut c, Lang::En).ok().unwrap();
    assert_eq!(agnes_studio::api::check_key_and_prompt(&p.api_key, &p.prompt), Ok(()));
    let (v, _) = prepare_video_generation(&video_form(), &mut c, Lang::En).ok().unwrap();
    assert_eq!(agnes_studio::api::check_key_and_prompt(&v.api_key, &v.prompt), Ok(()));
}
