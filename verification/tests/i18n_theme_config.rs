use agnes_studio::config::{migrate, Config};
use agnes_studio::i18n::{bi, t, tf, Lang};
use agnes_studio::ratelimits::markdown;
use agnes_studio::theme::{css, ThemeMode, COMPONENT_CSS, VARS_DARK, VARS_LIGHT};

#[test]
fn lang_config_values() {
    assert_eq!(Lang::from_cfg("en"), Lang::En);
    assert_eq!(Lang::from_cfg("EN"), Lang::En);
    assert_eq!(Lang::from_cfg("zh"), Lang::Zh);
    assert_eq!(Lang::from_cfg(""), Lang::Zh);
    assert_eq!(Lang::from_cfg("fr"), Lang::Zh);
    for l in [Lang::Zh, Lang::En] {
        assert_eq!(Lang::from_cfg(l.to_cfg()), l);
    }
}

#[test]
fn bi_picks_language() {
    let b = bi("自定义", "Custom");
    assert_eq!(b.l(Lang::Zh), "自定义");
    assert_eq!(b.l(Lang::En), "Custom");
}

#[test]
fn texts_by_key() {
    assert_eq!(t(Lang::Zh, "tab.image"), "图片");
    assert_eq!(t(Lang::En, "tab.image"), "Image");
    assert_eq!(t(Lang::En, "key.type.tokenplan"), "Token Plan");
    assert_eq!(t(Lang::Zh, "nt.novurl"), "视频地址为空，无法保存");
    assert_eq!(t(Lang::En, "err.flashvid"), "Flash does not support video references; remove them or switch to Agnes Video 2.5");
    assert_eq!(t(Lang::En, "no.such.key"), "");
    assert_eq!(t(Lang::Zh, ""), "");
}

#[test]
fn texts_with_placeholders() {
    assert_eq!(tf(Lang::En, "upd.chip", &[("v", "1.2.0")]), "New version v1.2.0");
    assert_eq!(
        tf(Lang::Zh, "img.exact", &[("exact", "1024x1024"), ("size", "1K"), ("ratio", "1:1")]),
        "输出约 1024x1024（1K · 1:1）"
    );
    assert_eq!(tf(Lang::En, "vid.elapsed", &[("s", "3"), ("p", "40")]), "Elapsed 3s · 40%");
    assert_eq!(tf(Lang::En, "img.cur", &[]), "Current: {s}");
    assert_eq!(tf(Lang::En, "img.cur", &[("s", "{s}"), ("s", "x")]), "Current: x");
    assert_eq!(tf(Lang::En, "img.cur", &[("t", "x")]), "Current: {s}");
}

#[test]
fn theme_config_values() {
    assert_eq!(ThemeMode::from_cfg("light"), ThemeMode::Light);
    assert_eq!(ThemeMode::from_cfg("dark"), ThemeMode::Dark);
    assert_eq!(ThemeMode::from_cfg("Dark"), ThemeMode::System);
    assert_eq!(ThemeMode::from_cfg(""), ThemeMode::System);
    for m in [ThemeMode::Light, ThemeMode::Dark, ThemeMode::System] {
        assert_eq!(ThemeMode::from_cfg(m.to_cfg()), m);
        assert_eq!(m.attr(), m.to_cfg());
        assert_ne!(m.cycle(), m);
        assert_eq!(m.cycle().cycle().cycle(), m);
    }
    assert_eq!(ThemeMode::Light.cycle(), ThemeMode::Dark);
    assert_eq!(ThemeMode::System.cycle(), ThemeMode::Light);
    assert_eq!(ThemeMode::Dark.icon(), "🌙");
}

#[test]
fn style_sheet_layout() {
    let s = css();
    let expected = format!(
        ".app{{{VARS_LIGHT}}}\n.app[data-theme=\"dark\"]{{{VARS_DARK}}}\n@media (prefers-color-scheme:dark){{.app[data-theme=\"system\"]{{{VARS_DARK}}}}}\n{COMPONENT_CSS}"
    );
    assert_eq!(s, expected);
    assert!(s.starts_with(".app{color-scheme:light;"));
}

#[test]
fn rate_limit_notes() {
    assert!(markdown(Lang::Zh).starts_with("数据更新：2026-09-04"));
    assert!(markdown(Lang::En).starts_with("Data as of 2026-09-04"));
}

fn config() -> Config {
    Config::with_save_dir("/pictures/AgnesStudio".to_string())
}

#[test]
fn default_settings() {
    let c = config();
    assert_eq!(c.save_dir, "/pictures/AgnesStudio");
    assert_eq!(c.site, "com");
    assert_eq!(c.key_type, "default");
    assert_eq!(c.model, "agnes-image-2.5-flash");
    assert_eq!(c.last_size, "1024x1024");
    assert_eq!(c.video_width, 1152);
    assert_eq!(c.video_height, 768);
    assert_eq!(c.video_num_frames, 121);
    assert_eq!(c.video_duration_preset, 1);
    assert_eq!(c.video_model, "agnes-video-2.5-flash");
    assert_eq!(c.video25_seconds, "5");
    assert_eq!(c.theme, "system");
    assert_eq!(c.lang, "zh");
    assert_eq!(c.api_key, "");
}

#[test]
fn migrate_moves_old_key_and_normalises_site() {
    let mut c = config();
    c.api_key = "old".to_string();
    c.api_key_com = "  ".to_string();
    c.site = "us".to_string();
    c.key_type = String::new();
    migrate(&mut c);
    assert_eq!(c.api_key_com, "old");
    assert_eq!(c.site, "com");
    assert_eq!(c.key_type, "default");

    let mut c = config();
    c.api_key = "old".to_string();
    c.api_key_com = "new".to_string();
    c.site = "CN".to_string();
    c.key_type = "tokenplan".to_string();
    migrate(&mut c);
    assert_eq!(c.api_key_com, "new");
    assert_eq!(c.site, "cn");
    assert_eq!(c.key_type, "tokenplan");

    let mut c = config();
    c.key_type = "Enterprise".to_string();
    migrate(&mut c);
    assert_eq!(c.key_type, "default");
}

#[test]
fn migrate_twice_is_migrate_once() {
    for site in ["", "cn", "Cn", "com", "x"] {
        for kt in ["", "default", "enterprise", "tokenplan", "free"] {
            let mut c = config();
            c.api_key = "k".to_string();
            c.site = site.to_string();
            c.key_type = kt.to_string();
            migrate(&mut c);
            let (k1, s1, t1) = (c.api_key_com.clone(), c.site.clone(), c.key_type.clone());
            migrate(&mut c);
            assert_eq!(c.api_key_com, k1);
            assert_eq!(c.site, s1);
            assert_eq!(c.key_type, t1);
            assert!(c.site == "com" || c.site == "cn");
            assert!(["default", "enterprise", "tokenplan"].contains(&c.key_type.as_str()));
        }
    }
}

#[test]
fn restoring_defaults_keeps_keys_and_preferences() {
    let mut cur = config();
    cur.api_key = "sk-9".to_string();
    cur.api_key_com = "com-1".to_string();
    cur.api_key_com_enterprise = "com-2".to_string();
    cur.api_key_com_tokenplan = "com-3".to_string();
    cur.api_key_cn = "cn-1".to_string();
    cur.api_key_cn_enterprise = "cn-2".to_string();
    cur.api_key_cn_tokenplan = "cn-3".to_string();
    cur.site = "cn".to_string();
    cur.last_size = "800x600".to_string();
    let c = Config::restored_defaults(&cur, ThemeMode::Dark, Lang::En, "/pics".to_string());
    assert_eq!(c.api_key, "sk-9");
    assert_eq!(c.api_key_com, "com-1");
    assert_eq!(c.api_key_com_enterprise, "com-2");
    assert_eq!(c.api_key_com_tokenplan, "com-3");
    assert_eq!(c.api_key_cn, "cn-1");
    assert_eq!(c.api_key_cn_enterprise, "cn-2");
    assert_eq!(c.api_key_cn_tokenplan, "cn-3");
    assert_eq!(c.theme, "dark");
    assert_eq!(c.lang, "en");
    assert_eq!(c.save_dir, "/pics");
    assert_eq!(c.model, "agnes-image-2.5-flash");
    assert_eq!(c.last_size, "1024x1024");
    assert_eq!((c.video_width, c.video_height, c.video_num_frames, c.video_frame_rate), (1152, 768, 121, 24));
    assert_eq!(c.video25_seconds, "5");
    assert_eq!(c.site, "com");
}

#[test]
fn both_languages_fill_the_same_fields() {
    let args = [("size", "2K"), ("model", "m"), ("sec", "5")];
    assert_eq!(tf(Lang::Zh, "vid.info", &args), "· 2K · m · 5秒");
    assert_eq!(tf(Lang::En, "vid.info", &args), "· 2K · m · 5s");
    for l in [Lang::Zh, Lang::En] {
        assert!(!tf(l, "img.exact", &[("exact", "a"), ("size", "b"), ("ratio", "c")]).contains('{'));
    }
}

#[test]
fn theme_selectors_in_the_style_sheet() {
    let c = css();
    assert!(c.starts_with(".app{"));
    assert!(c.contains(".app[data-theme=\"dark\"]"));
    assert!(c.contains(".app[data-theme=\"system\"]"));
    assert!(!c.contains(".app[data-theme=\"light\"]"));
}
