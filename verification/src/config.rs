//! Persisted user settings.
//!
//! Reading and writing the settings file is done by the program; this module
//! holds the settings, their defaults and the normalisation applied after
//! loading.

use vstd::prelude::*;
use crate::i18n::{spec_lang_cfg, Lang};
use crate::text::{eq_ignore_ascii_case, eq_ignore_ascii_case_str, is_blank, is_blank_str, str_eq};
use crate::theme::{spec_theme_cfg, ThemeMode};

verus! {

/// User settings.
#[derive(Clone, Debug)]
pub struct Config {
    /// Single key of older versions (always the international site); only read to migrate it.
    pub api_key: String,
    /// International site: free / default key.
    pub api_key_com: String,
    /// International site: enterprise key.
    pub api_key_com_enterprise: String,
    /// International site: Token Plan key.
    pub api_key_com_tokenplan: String,
    /// China site: free / default key.
    pub api_key_cn: String,
    /// China site: enterprise key.
    pub api_key_cn_enterprise: String,
    /// China site: Token Plan key.
    pub api_key_cn_tokenplan: String,
    /// Active site: "com" | "cn".
    pub site: String,
    /// Active key type: "default" | "enterprise" | "tokenplan".
    pub key_type: String,
    pub save_dir: String,
    pub model: String,
    pub output_format: String,
    pub mode: String,
    pub last_prompt: String,
    pub last_size: String,
    pub last_video_prompt: String,
    pub video_neg_prompt: String,
    pub video_width: i32,
    pub video_height: i32,
    pub video_num_frames: i32,
    pub video_frame_rate: i32,
    pub video_duration_preset: usize,
    /// "text" | "image" | "multi" | "keyframes".
    pub video_mode: String,
    /// Image size tier "1K" | "2K" | "3K" | "4K"; empty = unset.
    pub image_tier: String,
    /// Image aspect ratio such as "1:1"; empty = unset.
    pub image_ratio: String,
    /// "agnes-video-2.5-flash" | "agnes-video-2.5" | "agnes-video-v2.0".
    pub video_model: String,
    /// "text" | "keyframe" | "reference".
    pub video25_mode: String,
    /// "4" to "12".
    pub video25_seconds: String,
    /// Aspect ratio such as "16:9".
    pub video25_ar: String,
    pub video25_first_frame: String,
    pub video25_last_frame: String,
    /// "light" | "dark" | "system"; empty = follow the system.
    pub theme: String,
    /// "zh" | "en"; empty = Chinese.
    pub lang: String,
}

/// Every setting but the API keys and the interface preferences (theme and
/// language) holds its default, with `save_dir` as the output folder.
pub open spec fn holds_defaults(r: Config, save_dir: Seq<char>) -> bool {
    &&& r.site@ == "com"@
    &&& r.key_type@ == "default"@
    &&& r.save_dir@ == save_dir
    &&& r.model@ == "agnes-image-2.5-flash"@
    &&& r.output_format@ == "url"@
    &&& r.mode@ == "text"@
    &&& r.last_prompt@ == Seq::<char>::empty()
    &&& r.last_size@ == "1024x1024"@
    &&& r.last_video_prompt@ == Seq::<char>::empty()
    &&& r.video_neg_prompt@ == Seq::<char>::empty()
    &&& r.video_width == 1152
    &&& r.video_height == 768
    &&& r.video_num_frames == 121
    &&& r.video_frame_rate == 24
    &&& r.video_duration_preset == 1
    &&& r.video_mode@ == "text"@
    &&& r.image_tier@ == "1K"@
    &&& r.image_ratio@ == "1:1"@
    &&& r.video_model@ == "agnes-video-2.5-flash"@
    &&& r.video25_mode@ == "text"@
    &&& r.video25_seconds@ == "5"@
    &&& r.video25_ar@ == "16:9"@
    &&& r.video25_first_frame@ == Seq::<char>::empty()
    &&& r.video25_last_frame@ == Seq::<char>::empty()
}

impl Config {
    /// The default settings, saving to `save_dir`.
    pub fn with_save_dir(save_dir: String) -> (r: Config)
        ensures
            holds_defaults(r, save_dir@),
            r.api_key@ == Seq::<char>::empty(),
            r.api_key_com@ == Seq::<char>::empty(),
            r.api_key_com_enterprise@ == Seq::<char>::empty(),
            r.api_key_com_tokenplan@ == Seq::<char>::empty(),
            r.api_key_cn@ == Seq::<char>::empty(),
            r.api_key_cn_enterprise@ == Seq::<char>::empty(),
            r.api_key_cn_tokenplan@ == Seq::<char>::empty(),
            r.theme@ == "system"@,
            r.lang@ == "zh"@,
    {
        Config {
            api_key: String::new(),
            api_key_com: String::new(),
            api_key_com_enterprise: String::new(),
            api_key_com_tokenplan: String::new(),
            api_key_cn: String::new(),
            api_key_cn_enterprise: String::new(),
            api_key_cn_tokenplan: String::new(),
            site: "com".to_string(),
            key_type: "default".to_string(),
            save_dir,
            model: "agnes-image-2.5-flash".to_string(),
            output_format: "url".to_string(),
            mode: "text".to_string(),
            last_prompt: String::new(),
            last_size: "1024x1024".to_string(),
            last_video_prompt: String::new(),
            video_neg_prompt: String::new(),
            video_width: 1152,
            video_height: 768,
            video_num_frames: 121,
            video_frame_rate: 24,
            video_duration_preset: 1,
            video_mode: "text".to_string(),
            image_tier: "1K".to_string(),
            image_ratio: "1:1".to_string(),
            video_model: "agnes-video-2.5-flash".to_string(),
            video25_mode: "text".to_string(),
            video25_seconds: "5".to_string(),
            video25_ar: "16:9".to_string(),
            video25_first_frame: String::new(),
            video25_last_frame: String::new(),
            theme: "system".to_string(),
            lang: "zh".to_string(),
        }
    }

    /// The settings after "restore defaults": the defaults, saving to
    /// `save_dir`, keeping the API keys of `current` and the interface
    /// preferences.
    pub fn restored_defaults(current: &Config, theme: ThemeMode, lang: Lang, save_dir: String) -> (r: Config)
        ensures
            holds_defaults(r, save_dir@),
            r.api_key == current.api_key,
            r.api_key_com == current.api_key_com,
            r.api_key_com_enterprise == current.api_key_com_enterprise,
            r.api_key_com_tokenplan == current.api_key_com_tokenplan,
            r.api_key_cn == current.api_key_cn,
            r.api_key_cn_enterprise == current.api_key_cn_enterprise,
            r.api_key_cn_tokenplan == current.api_key_cn_tokenplan,
            r.theme@ == spec_theme_cfg(theme),
            r.lang@ == spec_lang_cfg(lang),
    {
        let mut c = Config::with_save_dir(save_dir);
        c.api_key = current.api_key.clone();
        c.api_key_com = current.api_key_com.clone();
        c.api_key_com_enterprise = current.api_key_com_enterprise.clone();
        c.api_key_com_tokenplan = current.api_key_com_tokenplan.clone();
        c.api_key_cn = current.api_key_cn.clone();
        c.api_key_cn_enterprise = current.api_key_cn_enterprise.clone();
        c.api_key_cn_tokenplan = current.api_key_cn_tokenplan.clone();
        c.theme = theme.to_cfg().to_string();
        c.lang = lang.to_cfg().to_string();
        c
    }
}

/// Whether a key type is one of "default", "enterprise" and "tokenplan".
pub open spec fn known_key_type(k: Seq<char>) -> bool {
    k == "default"@ || k == "enterprise"@ || k == "tokenplan"@
}

/// How loading settles a freshly read configuration: a key of older
/// versions becomes the international default key when that is unset; the
/// site becomes "cn" when it reads "cn" in any ASCII case and "com"
/// otherwise; an unknown key type becomes "default".
pub open spec fn migrated(r: Config, c: Config) -> bool {
    &&& r.api_key_com@ == (if is_blank(c.api_key_com@) && !is_blank(c.api_key@) {
        c.api_key@
    } else {
        c.api_key_com@
    })
    &&& r.site@ == (if eq_ignore_ascii_case(c.site@, "cn"@) { "cn"@ } else { "com"@ })
    &&& r.key_type@ == (if known_key_type(c.key_type@) { c.key_type@ } else { "default"@ })
    &&& r == Config { api_key_com: r.api_key_com, site: r.site, key_type: r.key_type, ..c }
}

/// Applies the normalisation done after loading the settings file.
pub fn migrate(cfg: &mut Config)
    ensures
        migrated(*final(cfg), *old(cfg)),
{
    if is_blank_str(cfg.api_key_com.as_str()) && !is_blank_str(cfg.api_key.as_str()) {
        cfg.api_key_com = cfg.api_key.clone();
    }
    if eq_ignore_ascii_case_str(cfg.site.as_str(), "cn") {
        cfg.site = "cn".to_string();
    } else {
        cfg.site = "com".to_string();
    }
    let k = cfg.key_type.as_str();
    if !(str_eq(k, "default") || str_eq(k, "enterprise") || str_eq(k, "tokenplan")) {
        cfg.key_type = "default".to_string();
    }
}

/// After loading, the site is "com" or "cn" and the key type is one of the
/// three known ones.
pub proof fn lemma_migrated_site(r: Config, c: Config)
    requires
        migrated(r, c),
    ensures
        r.site@ == "com"@ || r.site@ == "cn"@,
        known_key_type(r.key_type@),
{
}

/// Normalising twice changes nothing more than normalising once.
pub proof fn lemma_migrate_idempotent(r1: Config, r2: Config, c: Config)
    requires
        migrated(r1, c),
        migrated(r2, r1),
    ensures
        r2.api_key_com@ == r1.api_key_com@,
        r2.site@ == r1.site@,
        r2.key_type@ == r1.key_type@,
        r2 == (Config { api_key_com: r2.api_key_com, site: r2.site, key_type: r2.key_type, ..r1 }),
{
    reveal_strlit("cn");
    reveal_strlit("com");
    assert(eq_ignore_ascii_case("cn"@, "cn"@));
    if r1.site@ == "com"@ {
        assert(!eq_ignore_ascii_case("com"@, "cn"@));
    }
}


/// Normalising after loading keeps each documented key type: a settings
/// file that selects the default, enterprise or token-plan key still
/// selects it.
pub proof fn lemma_migrate_keeps_key_types(r: Config, c: Config)
    requires
        migrated(r, c),
        c.key_type@ == "default"@ || c.key_type@ == "enterprise"@ || c.key_type@ == "tokenplan"@,
    ensures
        r.key_type@ == c.key_type@,
{
}

} // verus!
