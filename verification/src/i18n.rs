//! Bilingual interface texts.
//!
//! `t` looks a text up by key; `tf` also fills in `{name}` placeholders.
//! Static option labels (model names, size presets, …) are `Bi` pairs.

use vstd::prelude::*;
use crate::text::{first_index, lemma_first_index_at, replace_all, replace_str, str_eq, eq_ignore_ascii_case, eq_ignore_ascii_case_str};

verus! {

/// Interface language.
#[derive(Clone, Copy, PartialEq, Eq, Structural, Debug)]
pub enum Lang {
    Zh,
    En,
}

impl Lang {
    /// Configuration value "en" (in any ASCII case) is English; anything
    /// else is Chinese.
    pub fn from_cfg(s: &str) -> (r: Lang)
        ensures
            r == (if eq_ignore_ascii_case(s@, seq!['e', 'n']) { Lang::En } else { Lang::Zh }),
    {
        proof {
            reveal_strlit("en");
            assert("en"@ =~= seq!['e', 'n']);
        }
        if eq_ignore_ascii_case_str(s, "en") {
            Lang::En
        } else {
            Lang::Zh
        }
    }

    /// The configuration value of a language.
    pub fn to_cfg(self) -> (r: &'static str)
        ensures
            r@ == spec_lang_cfg(self),
    {
        match self {
            Lang::Zh => "zh",
            Lang::En => "en",
        }
    }
}

pub open spec fn spec_lang_cfg(l: Lang) -> Seq<char> {
    match l {
        Lang::Zh => "zh"@,
        Lang::En => "en"@,
    }
}

/// Reading back a language's configuration value gives the language.
pub proof fn lemma_lang_cfg_roundtrip(l: Lang)
    ensures
        (if eq_ignore_ascii_case(spec_lang_cfg(l), seq!['e', 'n']) { Lang::En } else { Lang::Zh }) == l,
{
    reveal_strlit("zh");
    reveal_strlit("en");
    if l == Lang::Zh {
        assert(spec_lang_cfg(l)[0] == 'z');
        assert(!eq_ignore_ascii_case(spec_lang_cfg(l), seq!['e', 'n']));
    } else {
        assert(spec_lang_cfg(l) =~= seq!['e', 'n']);
    }
}

/// A text in both languages.
pub struct Bi {
    pub zh: &'static str,
    pub en: &'static str,
}

impl Bi {
    /// The text in `lang`.
    pub fn l(&self, lang: Lang) -> (r: &'static str)
        ensures
            r == (match lang {
                Lang::Zh => self.zh,
                Lang::En => self.en,
            }),
    {
        match lang {
            Lang::Zh => self.zh,
            Lang::En => self.en,
        }
    }
}

/// Builds a `Bi`.
pub fn bi(zh: &'static str, en: &'static str) -> (r: Bi)
    ensures
        r.zh == zh,
        r.en == en,
{
    Bi { zh, en }
}

/// The first of two lookups that answers.
pub open spec fn or_else(a: Option<(Seq<char>, Seq<char>)>, b: Option<(Seq<char>, Seq<char>)>) -> Option<(Seq<char>, Seq<char>)> {
    match a {
        Some(p) => Some(p),
        None => b,
    }
}

/// The view of a looked-up pair.
pub open spec fn pair_view(r: Option<(&str, &str)>) -> Option<(Seq<char>, Seq<char>)> {
    match r {
        Some(p) => Some((p.0@, p.1@)),
        None => None,
    }
}

/// Texts of the top bar (Chinese, English) by key.
pub open spec fn top_bar_texts(key: Seq<char>) -> Option<(Seq<char>, Seq<char>)> {
    if key == "tab.image"@ {
        Some(("图片"@, "Image"@))
    } else if key == "tab.video"@ {
        Some(("视频"@, "Video"@))
    } else if key == "link.web"@ {
        Some(("Agnes 官网"@, "Agnes Website"@))
    } else if key == "key.ok"@ {
        Some(("API Key 已就绪"@, "API Key ready"@))
    } else if key == "key.missing"@ {
        Some(("未设置 API Key"@, "API Key not set"@))
    } else if key == "key.com"@ {
        Some(("国际站"@, "International"@))
    } else if key == "key.cn"@ {
        Some(("国内站"@, "China"@))
    } else if key == "key.type.default"@ {
        Some(("免费"@, "Free"@))
    } else if key == "key.type.enterprise"@ {
        Some(("企业"@, "Enterprise"@))
    } else if key == "key.type.tokenplan"@ {
        Some(("Token Plan"@, "Token Plan"@))
    } else if key == "key.activate"@ {
        Some(("启用"@, "Activate"@))
    } else if key == "key.active"@ {
        Some(("✓ 使用中"@, "✓ Active"@))
    } else if key == "top.gen"@ {
        Some(("生成中"@, "Generating"@))
    } else if key == "upd.chip"@ {
        Some(("有新版本 v{v}"@, "New version v{v}"@))
    } else {
        None
    }
}

fn top_bar_text(key: &str) -> (r: Option<(&'static str, &'static str)>)
    ensures
        pair_view(r) == top_bar_texts(key@),
{
    if str_eq(key, "tab.image") {
        Some(("图片", "Image"))
    } else if str_eq(key, "tab.video") {
        Some(("视频", "Video"))
    } else if str_eq(key, "link.web") {
        Some(("Agnes 官网", "Agnes Website"))
    } else if str_eq(key, "key.ok") {
        Some(("API Key 已就绪", "API Key ready"))
    } else if str_eq(key, "key.missing") {
        Some(("未设置 API Key", "API Key not set"))
    } else if str_eq(key, "key.com") {
        Some(("国际站", "International"))
    } else if str_eq(key, "key.cn") {
        Some(("国内站", "China"))
    } else if str_eq(key, "key.type.default") {
        Some(("免费", "Free"))
    } else if str_eq(key, "key.type.enterprise") {
        Some(("企业", "Enterprise"))
    } else if str_eq(key, "key.type.tokenplan") {
        Some(("Token Plan", "Token Plan"))
    } else if str_eq(key, "key.activate") {
        Some(("启用", "Activate"))
    } else if str_eq(key, "key.active") {
        Some(("✓ 使用中", "✓ Active"))
    } else if str_eq(key, "top.gen") {
        Some(("生成中", "Generating"))
    } else if str_eq(key, "upd.chip") {
        Some(("有新版本 v{v}", "New version v{v}"))
    } else {
        None
    }
}

/// Texts of the card title (Chinese, English) by key.
pub open spec fn card_title_texts(key: Seq<char>) -> Option<(Seq<char>, Seq<char>)> {
    if key == "card.model"@ {
        Some(("模型"@, "Model"@))
    } else if key == "card.mode"@ {
        Some(("模式"@, "Mode"@))
    } else if key == "card.prompt"@ {
        Some(("提示词"@, "Prompt"@))
    } else if key == "card.size"@ {
        Some(("尺寸"@, "Size"@))
    } else if key == "card.tier"@ {
        Some(("档位"@, "Tier"@))
    } else if key == "card.ratio"@ {
        Some(("宽高比"@, "Aspect Ratio"@))
    } else if key == "card.output"@ {
        Some(("输出格式"@, "Output Format"@))
    } else if key == "card.input"@ {
        Some(("输入图片"@, "Input Image"@))
    } else {
        None
    }
}

fn card_title_text(key: &str) -> (r: Option<(&'static str, &'static str)>)
    ensures
        pair_view(r) == card_title_texts(key@),
{
    if str_eq(key, "card.model") {
        Some(("模型", "Model"))
    } else if str_eq(key, "card.mode") {
        Some(("模式", "Mode"))
    } else if str_eq(key, "card.prompt") {
        Some(("提示词", "Prompt"))
    } else if str_eq(key, "card.size") {
        Some(("尺寸", "Size"))
    } else if str_eq(key, "card.tier") {
        Some(("档位", "Tier"))
    } else if str_eq(key, "card.ratio") {
        Some(("宽高比", "Aspect Ratio"))
    } else if str_eq(key, "card.output") {
        Some(("输出格式", "Output Format"))
    } else if str_eq(key, "card.input") {
        Some(("输入图片", "Input Image"))
    } else {
        None
    }
}

/// Texts of the image panel (Chinese, English) by key.
pub open spec fn image_panel_texts(key: Seq<char>) -> Option<(Seq<char>, Seq<char>)> {
    if key == "img.t2i"@ {
        Some(("文生图"@, "Text to Image"@))
    } else if key == "img.i2i"@ {
        Some(("图生图"@, "Image to Image"@))
    } else if key == "img.ph"@ {
        Some(("描述你想生成或编辑的图像…"@, "Describe the image you want to generate or edit…"@))
    } else if key == "img.file"@ {
        Some(("本地文件"@, "Local File"@))
    } else if key == "img.url"@ {
        Some(("图片 URL"@, "Image URL"@))
    } else if key == "img.pick"@ {
        Some(("选择图片…"@, "Choose Image…"@))
    } else if key == "img.clear"@ {
        Some(("清除"@, "Clear"@))
    } else if key == "img.nofile"@ {
        Some(("未选择图片"@, "No image selected"@))
    } else if key == "img.gen"@ {
        Some(("生成图像"@, "Generate Image"@))
    } else if key == "img.wait"@ {
        Some(("生成中…"@, "Generating…"@))
    } else if key == "img.exact"@ {
        Some(("输出约 {exact}（{size} · {ratio}）"@, "Output ≈ {exact} ({size} · {ratio})"@))
    } else if key == "img.cur"@ {
        Some(("当前：{s}"@, "Current: {s}"@))
    } else if key == "img.tieropt"@ {
        Some(("{t} 档"@, "{t}"@))
    } else {
        None
    }
}

fn image_panel_text(key: &str) -> (r: Option<(&'static str, &'static str)>)
    ensures
        pair_view(r) == image_panel_texts(key@),
{
    if str_eq(key, "img.t2i") {
        Some(("文生图", "Text to Image"))
    } else if str_eq(key, "img.i2i") {
        Some(("图生图", "Image to Image"))
    } else if str_eq(key, "img.ph") {
        Some(("描述你想生成或编辑的图像…", "Describe the image you want to generate or edit…"))
    } else if str_eq(key, "img.file") {
        Some(("本地文件", "Local File"))
    } else if str_eq(key, "img.url") {
        Some(("图片 URL", "Image URL"))
    } else if str_eq(key, "img.pick") {
        Some(("选择图片…", "Choose Image…"))
    } else if str_eq(key, "img.clear") {
        Some(("清除", "Clear"))
    } else if str_eq(key, "img.nofile") {
        Some(("未选择图片", "No image selected"))
    } else if str_eq(key, "img.gen") {
        Some(("生成图像", "Generate Image"))
    } else if str_eq(key, "img.wait") {
        Some(("生成中…", "Generating…"))
    } else if str_eq(key, "img.exact") {
        Some(("输出约 {exact}（{size} · {ratio}）", "Output ≈ {exact} ({size} · {ratio})"))
    } else if str_eq(key, "img.cur") {
        Some(("当前：{s}", "Current: {s}"))
    } else if str_eq(key, "img.tieropt") {
        Some(("{t} 档", "{t}"))
    } else {
        None
    }
}

/// Texts of the settings (Chinese, English) by key.
pub open spec fn settings_texts(key: Seq<char>) -> Option<(Seq<char>, Seq<char>)> {
    if key == "set.show"@ {
        Some(("👁 显示"@, "👁 Show"@))
    } else if key == "set.hide"@ {
        Some(("🙈 隐藏"@, "🙈 Hide"@))
    } else if key == "set.key.com"@ {
        Some(("国际站（.com · 美元计费）"@, "International (.com · USD)"@))
    } else if key == "set.key.cn"@ {
        Some(("国内站（.cn · 人民币计费）"@, "China (.cn · CNY)"@))
    } else if key == "set.key.apply"@ {
        Some(("官网申请 ↗"@, "Get a Key ↗"@))
    } else if key == "set.key.note"@ {
        Some(("两站模型能力一致，仅接口地址不同（国际站美元、国内站人民币计费），账户与余额互不互通。每站可保存 3 类密钥，点击「启用」切换当前使用的密钥——同一时刻仅一个生效，不同类型使用不同的限制池。"@, "Both sites offer identical models and differ only in API endpoint (USD on .com, CNY on .cn); accounts and balances are separate. Each site can store 3 key types — click \"Activate\" to switch the key in use. Only one is active at a time; each type has its own rate-limit pool."@))
    } else if key == "set.key.type.default"@ {
        Some(("免费 / 默认密钥"@, "Free / Default key"@))
    } else if key == "set.key.type.enterprise"@ {
        Some(("企业认证密钥"@, "Enterprise key"@))
    } else if key == "set.key.type.tokenplan"@ {
        Some(("Token Plan 密钥"@, "Token Plan key"@))
    } else if key == "ratelimit.title"@ {
        Some(("模型速率限制"@, "Model Rate Limits"@))
    } else if key == "ratelimit.btn"@ {
        Some(("速率限制"@, "Rate Limits"@))
    } else if key == "set.dir"@ {
        Some(("保存目录"@, "Save Directory"@))
    } else if key == "set.browse"@ {
        Some(("浏览"@, "Browse"@))
    } else if key == "set.save"@ {
        Some(("保存设置"@, "Save Settings"@))
    } else if key == "set.reset"@ {
        Some(("恢复默认"@, "Reset Defaults"@))
    } else if key == "set.theme"@ {
        Some(("主题"@, "Theme"@))
    } else if key == "th.light"@ {
        Some(("浅色"@, "Light"@))
    } else if key == "th.dark"@ {
        Some(("深色"@, "Dark"@))
    } else if key == "th.sys"@ {
        Some(("跟随系统"@, "System"@))
    } else if key == "set.lang"@ {
        Some(("界面语言"@, "Language"@))
    } else if key == "set.version"@ {
        Some(("版本 v{v}"@, "Version v{v}"@))
    } else if key == "set.check"@ {
        Some(("检查更新"@, "Check for Updates"@))
    } else if key == "set.checking"@ {
        Some(("检查中…"@, "Checking…"@))
    } else if key == "set.uptodate"@ {
        Some(("当前已是最新版本"@, "You are on the latest version"@))
    } else if key == "set.saved"@ {
        Some(("设置已保存"@, "Settings saved"@))
    } else if key == "set.title"@ {
        Some(("设置"@, "Settings"@))
    } else if key == "set.done"@ {
        Some(("完成"@, "Done"@))
    } else {
        None
    }
}

fn settings_text(key: &str) -> (r: Option<(&'static str, &'static str)>)
    ensures
        pair_view(r) == settings_texts(key@),
{
    if str_eq(key, "set.show") {
        Some(("👁 显示", "👁 Show"))
    } else if str_eq(key, "set.hide") {
        Some(("🙈 隐藏", "🙈 Hide"))
    } else if str_eq(key, "set.key.com") {
        Some(("国际站（.com · 美元计费）", "International (.com · USD)"))
    } else if str_eq(key, "set.key.cn") {
        Some(("国内站（.cn · 人民币计费）", "China (.cn · CNY)"))
    } else if str_eq(key, "set.key.apply") {
        Some(("官网申请 ↗", "Get a Key ↗"))
    } else if str_eq(key, "set.key.note") {
        Some(("两站模型能力一致，仅接口地址不同（国际站美元、国内站人民币计费），账户与余额互不互通。每站可保存 3 类密钥，点击「启用」切换当前使用的密钥——同一时刻仅一个生效，不同类型使用不同的限制池。", "Both sites offer identical models and differ only in API endpoint (USD on .com, CNY on .cn); accounts and balances are separate. Each site can store 3 key types — click \"Activate\" to switch the key in use. Only one is active at a time; each type has its own rate-limit pool."))
    } else if str_eq(key, "set.key.type.default") {
        Some(("免费 / 默认密钥", "Free / Default key"))
    } else if str_eq(key, "set.key.type.enterprise") {
        Some(("企业认证密钥", "Enterprise key"))
    } else if str_eq(key, "set.key.type.tokenplan") {
        Some(("Token Plan 密钥", "Token Plan key"))
    } else if str_eq(key, "ratelimit.title") {
        Some(("模型速率限制", "Model Rate Limits"))
    } else if str_eq(key, "ratelimit.btn") {
        Some(("速率限制", "Rate Limits"))
    } else if str_eq(key, "set.dir") {
        Some(("保存目录", "Save Directory"))
    } else if str_eq(key, "set.browse") {
        Some(("浏览", "Browse"))
    } else if str_eq(key, "set.save") {
        Some(("保存设置", "Save Settings"))
    } else if str_eq(key, "set.reset") {
        Some(("恢复默认", "Reset Defaults"))
    } else if str_eq(key, "set.theme") {
        Some(("主题", "Theme"))
    } else if str_eq(key, "th.light") {
        Some(("浅色", "Light"))
    } else if str_eq(key, "th.dark") {
        Some(("深色", "Dark"))
    } else if str_eq(key, "th.sys") {
        Some(("跟随系统", "System"))
    } else if str_eq(key, "set.lang") {
        Some(("界面语言", "Language"))
    } else if str_eq(key, "set.version") {
        Some(("版本 v{v}", "Version v{v}"))
    } else if str_eq(key, "set.check") {
        Some(("检查更新", "Check for Updates"))
    } else if str_eq(key, "set.checking") {
        Some(("检查中…", "Checking…"))
    } else if str_eq(key, "set.uptodate") {
        Some(("当前已是最新版本", "You are on the latest version"))
    } else if str_eq(key, "set.saved") {
        Some(("设置已保存", "Settings saved"))
    } else if str_eq(key, "set.title") {
        Some(("设置", "Settings"))
    } else if str_eq(key, "set.done") {
        Some(("完成", "Done"))
    } else {
        None
    }
}

/// Texts of the image main (Chinese, English) by key.
pub open spec fn image_main_texts(key: Seq<char>) -> Option<(Seq<char>, Seq<char>)> {
    if key == "main.wait"@ {
        Some(("可能需要数秒到数十秒，请稍候"@, "This usually takes seconds to a minute"@))
    } else if key == "main.welcome"@ {
        Some(("欢迎使用 AgnesStudio"@, "Welcome to AgnesStudio"@))
    } else if key == "main.empty"@ {
        Some(("在左侧输入提示词后点击「生成图像」"@, "Enter a prompt on the left, then click \"Generate Image\""@))
    } else if key == "main.elapsed"@ {
        Some(("已用时 {s} 秒"@, "Elapsed {s}s"@))
    } else if key == "act.reg"@ {
        Some(("🔄 重新生成"@, "🔄 Regenerate"@))
    } else if key == "act.openimg"@ {
        Some(("🌐 打开原图"@, "🌐 Open Original"@))
    } else if key == "act.openvid"@ {
        Some(("🌐 打开原视频"@, "🌐 Open Original"@))
    } else if key == "act.save"@ {
        Some(("💾 保存"@, "💾 Save"@))
    } else if key == "viewer.prompt"@ {
        Some(("提示词"@, "Prompt"@))
    } else {
        None
    }
}

fn image_main_text(key: &str) -> (r: Option<(&'static str, &'static str)>)
    ensures
        pair_view(r) == image_main_texts(key@),
{
    if str_eq(key, "main.wait") {
        Some(("可能需要数秒到数十秒，请稍候", "This usually takes seconds to a minute"))
    } else if str_eq(key, "main.welcome") {
        Some(("欢迎使用 AgnesStudio", "Welcome to AgnesStudio"))
    } else if str_eq(key, "main.empty") {
        Some(("在左侧输入提示词后点击「生成图像」", "Enter a prompt on the left, then click \"Generate Image\""))
    } else if str_eq(key, "main.elapsed") {
        Some(("已用时 {s} 秒", "Elapsed {s}s"))
    } else if str_eq(key, "act.reg") {
        Some(("🔄 重新生成", "🔄 Regenerate"))
    } else if str_eq(key, "act.openimg") {
        Some(("🌐 打开原图", "🌐 Open Original"))
    } else if str_eq(key, "act.openvid") {
        Some(("🌐 打开原视频", "🌐 Open Original"))
    } else if str_eq(key, "act.save") {
        Some(("💾 保存", "💾 Save"))
    } else if str_eq(key, "viewer.prompt") {
        Some(("提示词", "Prompt"))
    } else {
        None
    }
}

/// Texts of the history (Chinese, English) by key.
pub open spec fn history_texts(key: Seq<char>) -> Option<(Seq<char>, Seq<char>)> {
    if key == "hist.img"@ {
        Some(("历史记录 {n}"@, "History {n}"@))
    } else if key == "hist.vid"@ {
        Some(("视频历史 {n}"@, "Video History {n}"@))
    } else {
        None
    }
}

fn history_text(key: &str) -> (r: Option<(&'static str, &'static str)>)
    ensures
        pair_view(r) == history_texts(key@),
{
    if str_eq(key, "hist.img") {
        Some(("历史记录 {n}", "History {n}"))
    } else if str_eq(key, "hist.vid") {
        Some(("视频历史 {n}", "Video History {n}"))
    } else {
        None
    }
}

/// Texts of the preview (Chinese, English) by key.
pub open spec fn preview_texts(key: Seq<char>) -> Option<(Seq<char>, Seq<char>)> {
    if key == "pv.title"@ {
        Some(("原图预览 {w}×{h}"@, "Preview {w}×{h}"@))
    } else if key == "pv.hint"@ {
        Some(("滚轮以中心缩放 · 放大后可拖动查看 · 双击图片或点击百分比复位 · 点击空白处关闭"@, "Scroll to zoom from center · drag to pan when zoomed · double-click to reset · click the backdrop to close"@))
    } else if key == "pv.out"@ {
        Some(("缩小"@, "Zoom out"@))
    } else if key == "pv.in"@ {
        Some(("放大"@, "Zoom in"@))
    } else if key == "pv.fit"@ {
        Some(("复位到 100%"@, "Reset to 100%"@))
    } else if key == "pv.close"@ {
        Some(("关闭"@, "Close"@))
    } else {
        None
    }
}

fn preview_text(key: &str) -> (r: Option<(&'static str, &'static str)>)
    ensures
        pair_view(r) == preview_texts(key@),
{
    if str_eq(key, "pv.title") {
        Some(("原图预览 {w}×{h}", "Preview {w}×{h}"))
    } else if str_eq(key, "pv.hint") {
        Some(("滚轮以中心缩放 · 放大后可拖动查看 · 双击图片或点击百分比复位 · 点击空白处关闭", "Scroll to zoom from center · drag to pan when zoomed · double-click to reset · click the backdrop to close"))
    } else if str_eq(key, "pv.out") {
        Some(("缩小", "Zoom out"))
    } else if str_eq(key, "pv.in") {
        Some(("放大", "Zoom in"))
    } else if str_eq(key, "pv.fit") {
        Some(("复位到 100%", "Reset to 100%"))
    } else if str_eq(key, "pv.close") {
        Some(("关闭", "Close"))
    } else {
        None
    }
}

/// Texts of the update dialog (Chinese, English) by key.
pub open spec fn update_dialog_texts(key: Seq<char>) -> Option<(Seq<char>, Seq<char>)> {
    if key == "upd.title"@ {
        Some(("发现新版本"@, "New Version Available"@))
    } else if key == "upd.nonotes"@ {
        Some(("（此版本未提供更新说明）"@, "(No release notes for this version)"@))
    } else if key == "upd.dl"@ {
        Some(("正在下载更新… {p}%"@, "Downloading update… {p}%"@))
    } else if key == "upd.dling"@ {
        Some(("下载中…"@, "Downloading…"@))
    } else if key == "upd.now"@ {
        Some(("立即更新"@, "Update Now"@))
    } else if key == "upd.goto"@ {
        Some(("前往下载"@, "Get It on GitHub"@))
    } else if key == "upd.later"@ {
        Some(("稍后再说"@, "Later"@))
    } else {
        None
    }
}

fn update_dialog_text(key: &str) -> (r: Option<(&'static str, &'static str)>)
    ensures
        pair_view(r) == update_dialog_texts(key@),
{
    if str_eq(key, "upd.title") {
        Some(("发现新版本", "New Version Available"))
    } else if str_eq(key, "upd.nonotes") {
        Some(("（此版本未提供更新说明）", "(No release notes for this version)"))
    } else if str_eq(key, "upd.dl") {
        Some(("正在下载更新… {p}%", "Downloading update… {p}%"))
    } else if str_eq(key, "upd.dling") {
        Some(("下载中…", "Downloading…"))
    } else if str_eq(key, "upd.now") {
        Some(("立即更新", "Update Now"))
    } else if str_eq(key, "upd.goto") {
        Some(("前往下载", "Get It on GitHub"))
    } else if str_eq(key, "upd.later") {
        Some(("稍后再说", "Later"))
    } else {
        None
    }
}

/// Texts of the video panel (Chinese, English) by key.
pub open spec fn video_panel_texts(key: Seq<char>) -> Option<(Seq<char>, Seq<char>)> {
    if key == "card.vmode"@ {
        Some(("生成模式"@, "Mode"@))
    } else if key == "v25.t2v"@ {
        Some(("文生视频"@, "Text"@))
    } else if key == "v25.kf"@ {
        Some(("首尾帧"@, "Keyframe"@))
    } else if key == "v25.ref"@ {
        Some(("参考生成"@, "Reference"@))
    } else if key == "v20.t2v"@ {
        Some(("文生视频"@, "Text"@))
    } else if key == "v20.i2v"@ {
        Some(("图生视频"@, "Image"@))
    } else if key == "v20.multi"@ {
        Some(("多图视频"@, "Multi"@))
    } else if key == "v20.kf"@ {
        Some(("关键帧"@, "Keyframes"@))
    } else if key == "vid.neg"@ {
        Some(("反向提示词（可选）"@, "Negative Prompt (optional)"@))
    } else if key == "vid.negph"@ {
        Some(("需要避免的内容…"@, "Content to avoid…"@))
    } else if key == "vid.ph"@ {
        Some(("描述视频内容：[主体与场景]+[动作与变化]+[镜头语言]+[视觉风格]+[声音]"@, "Describe the video: [subject & scene] + [motion & change] + [camera language] + [visual style] + [sound]"@))
    } else if key == "vid.ph.reffull"@ {
        Some(("描述视频内容，可用 <Picture 1>、<Audio 1>、<Video 1> 指代参考素材…"@, "Describe the video; refer to inputs as <Picture 1>, <Audio 1>, <Video 1>…"@))
    } else if key == "vid.ph.refflash"@ {
        Some(("描述视频内容，可用 <Picture 1>、<Audio 1> 指代参考素材…"@, "Describe the video; refer to inputs as <Picture 1>, <Audio 1>…"@))
    } else if key == "v25.kfcard"@ {
        Some(("首尾帧（Keyframe）"@, "Keyframes"@))
    } else if key == "v25.kfhint"@ {
        Some(("首帧与尾帧至少提供一个；仅给首帧 = 从首帧开始演绎，仅给尾帧 = 向尾帧过渡"@, "Provide at least one of first/last frame; first only = animate from it, last only = transition toward it"@))
    } else if key == "v25.first"@ {
        Some(("首帧图片 URL"@, "First frame image URL"@))
    } else if key == "v25.last"@ {
        Some(("尾帧图片 URL（可选）"@, "Last frame image URL (optional)"@))
    } else if key == "v25.refcard"@ {
        Some(("参考素材（Reference）"@, "References"@))
    } else if key == "v25.refhint"@ {
        Some(("图片 / 音频 / 视频 URL 需公网可访问；提示词中用 <Picture 1>、<Audio 1>、<Video 1> 指代"@, "Image / audio / video URLs must be publicly accessible; refer to them as <Picture 1>, <Audio 1>, <Video 1>"@))
    } else if key == "v25.refhintflash"@ {
        Some(("图片 / 音频 URL 需公网可访问；Flash 版图片参考最多 5 张、不支持视频参考；提示词中用 <Picture 1>、<Audio 1> 指代"@, "Image / audio URLs must be publicly accessible; Flash allows up to 5 reference images and no video; refer to them as <Picture 1>, <Audio 1>"@))
    } else if key == "v25.addimg"@ {
        Some(("＋ 图片"@, "＋ Image"@))
    } else if key == "v25.addaud"@ {
        Some(("＋ 音频"@, "＋ Audio"@))
    } else if key == "v25.addvid"@ {
        Some(("＋ 视频"@, "＋ Video"@))
    } else if key == "v25.lblimg"@ {
        Some(("图 #{n}"@, "IMG #{n}"@))
    } else if key == "v25.lblaud"@ {
        Some(("音 #{n}"@, "AUD #{n}"@))
    } else if key == "v25.lblvid"@ {
        Some(("视 #{n}"@, "VID #{n}"@))
    } else if key == "v25.fmt"@ {
        Some(("画幅与时长"@, "Format & Duration"@))
    } else if key == "v25.ar"@ {
        Some(("画幅比例（分辨率 720P）"@, "Aspect ratio (720P)"@))
    } else if key == "v25.secs"@ {
        Some(("时长"@, "Duration"@))
    } else if key == "v25.secopt"@ {
        Some(("约 {s} 秒"@, "~{s}s"@))
    } else if key == "v20.imgcard"@ {
        Some(("输入图片 URL"@, "Image URLs"@))
    } else if key == "v20.imghint"@ {
        Some(("视频 API 需要公网可访问的图片 URL（不支持本地文件）"@, "The video API needs publicly accessible image URLs (local files are not supported)"@))
    } else if key == "v20.add"@ {
        Some(("添加"@, "Add"@))
    } else if key == "v20.sizecard"@ {
        Some(("画面尺寸"@, "Frame Size"@))
    } else if key == "v20.cur"@ {
        Some(("当前：{w}×{h}（API 会自动归档到 480p/720p/1080p）"@, "Current: {w}×{h} (snapped to 480p/720p/1080p)"@))
    } else if key == "v20.durcard"@ {
        Some(("时长"@, "Duration"@))
    } else if key == "v20.est"@ {
        Some(("预计时长：{s} 秒（num_frames 需为 8n+1，≤441）"@, "Est. duration: {s}s (num_frames must be 8n+1, ≤441)"@))
    } else if key == "v20.frames"@ {
        Some(("帧 @ 24fps"@, "frames @ 24fps"@))
    } else if key == "vid.gen"@ {
        Some(("生成视频"@, "Generate Video"@))
    } else if key == "vid.info"@ {
        Some(("· {size} · {model} · {sec}秒"@, "· {size} · {model} · {sec}s"@))
    } else {
        None
    }
}

fn video_panel_text(key: &str) -> (r: Option<(&'static str, &'static str)>)
    ensures
        pair_view(r) == video_panel_texts(key@),
{
    if str_eq(key, "card.vmode") {
        Some(("生成模式", "Mode"))
    } else if str_eq(key, "v25.t2v") {
        Some(("文生视频", "Text"))
    } else if str_eq(key, "v25.kf") {
        Some(("首尾帧", "Keyframe"))
    } else if str_eq(key, "v25.ref") {
        Some(("参考生成", "Reference"))
    } else if str_eq(key, "v20.t2v") {
        Some(("文生视频", "Text"))
    } else if str_eq(key, "v20.i2v") {
        Some(("图生视频", "Image"))
    } else if str_eq(key, "v20.multi") {
        Some(("多图视频", "Multi"))
    } else if str_eq(key, "v20.kf") {
        Some(("关键帧", "Keyframes"))
    } else if str_eq(key, "vid.neg") {
        Some(("反向提示词（可选）", "Negative Prompt (optional)"))
    } else if str_eq(key, "vid.negph") {
        Some(("需要避免的内容…", "Content to avoid…"))
    } else if str_eq(key, "vid.ph") {
        Some(("描述视频内容：[主体与场景]+[动作与变化]+[镜头语言]+[视觉风格]+[声音]", "Describe the video: [subject & scene] + [motion & change] + [camera language] + [visual style] + [sound]"))
    } else if str_eq(key, "vid.ph.reffull") {
        Some(("描述视频内容，可用 <Picture 1>、<Audio 1>、<Video 1> 指代参考素材…", "Describe the video; refer to inputs as <Picture 1>, <Audio 1>, <Video 1>…"))
    } else if str_eq(key, "vid.ph.refflash") {
        Some(("描述视频内容，可用 <Picture 1>、<Audio 1> 指代参考素材…", "Describe the video; refer to inputs as <Picture 1>, <Audio 1>…"))
    } else if str_eq(key, "v25.kfcard") {
        Some(("首尾帧（Keyframe）", "Keyframes"))
    } else if str_eq(key, "v25.kfhint") {
        Some(("首帧与尾帧至少提供一个；仅给首帧 = 从首帧开始演绎，仅给尾帧 = 向尾帧过渡", "Provide at least one of first/last frame; first only = animate from it, last only = transition toward it"))
    } else if str_eq(key, "v25.first") {
        Some(("首帧图片 URL", "First frame image URL"))
    } else if str_eq(key, "v25.last") {
        Some(("尾帧图片 URL（可选）", "Last frame image URL (optional)"))
    } else if str_eq(key, "v25.refcard") {
        Some(("参考素材（Reference）", "References"))
    } else if str_eq(key, "v25.refhint") {
        Some(("图片 / 音频 / 视频 URL 需公网可访问；提示词中用 <Picture 1>、<Audio 1>、<Video 1> 指代", "Image / audio / video URLs must be publicly accessible; refer to them as <Picture 1>, <Audio 1>, <Video 1>"))
    } else if str_eq(key, "v25.refhintflash") {
        Some(("图片 / 音频 URL 需公网可访问；Flash 版图片参考最多 5 张、不支持视频参考；提示词中用 <Picture 1>、<Audio 1> 指代", "Image / audio URLs must be publicly accessible; Flash allows up to 5 reference images and no video; refer to them as <Picture 1>, <Audio 1>"))
    } else if str_eq(key, "v25.addimg") {
        Some(("＋ 图片", "＋ Image"))
    } else if str_eq(key, "v25.addaud") {
        Some(("＋ 音频", "＋ Audio"))
    } else if str_eq(key, "v25.addvid") {
        Some(("＋ 视频", "＋ Video"))
    } else if str_eq(key, "v25.lblimg") {
        Some(("图 #{n}", "IMG #{n}"))
    } else if str_eq(key, "v25.lblaud") {
        Some(("音 #{n}", "AUD #{n}"))
    } else if str_eq(key, "v25.lblvid") {
        Some(("视 #{n}", "VID #{n}"))
    } else if str_eq(key, "v25.fmt") {
        Some(("画幅与时长", "Format & Duration"))
    } else if str_eq(key, "v25.ar") {
        Some(("画幅比例（分辨率 720P）", "Aspect ratio (720P)"))
    } else if str_eq(key, "v25.secs") {
        Some(("时长", "Duration"))
    } else if str_eq(key, "v25.secopt") {
        Some(("约 {s} 秒", "~{s}s"))
    } else if str_eq(key, "v20.imgcard") {
        Some(("输入图片 URL", "Image URLs"))
    } else if str_eq(key, "v20.imghint") {
        Some(("视频 API 需要公网可访问的图片 URL（不支持本地文件）", "The video API needs publicly accessible image URLs (local files are not supported)"))
    } else if str_eq(key, "v20.add") {
        Some(("添加", "Add"))
    } else if str_eq(key, "v20.sizecard") {
        Some(("画面尺寸", "Frame Size"))
    } else if str_eq(key, "v20.cur") {
        Some(("当前：{w}×{h}（API 会自动归档到 480p/720p/1080p）", "Current: {w}×{h} (snapped to 480p/720p/1080p)"))
    } else if str_eq(key, "v20.durcard") {
        Some(("时长", "Duration"))
    } else if str_eq(key, "v20.est") {
        Some(("预计时长：{s} 秒（num_frames 需为 8n+1，≤441）", "Est. duration: {s}s (num_frames must be 8n+1, ≤441)"))
    } else if str_eq(key, "v20.frames") {
        Some(("帧 @ 24fps", "frames @ 24fps"))
    } else if str_eq(key, "vid.gen") {
        Some(("生成视频", "Generate Video"))
    } else if str_eq(key, "vid.info") {
        Some(("· {size} · {model} · {sec}秒", "· {size} · {model} · {sec}s"))
    } else {
        None
    }
}

/// Texts of the video status (Chinese, English) by key.
pub open spec fn video_status_texts(key: Seq<char>) -> Option<(Seq<char>, Seq<char>)> {
    if key == "vs.submit"@ {
        Some(("提交任务中…"@, "Submitting task…"@))
    } else if key == "vs.created"@ {
        Some(("任务已创建，等待生成…"@, "Task created, waiting…"@))
    } else if key == "vs.dl"@ {
        Some(("正在下载视频…"@, "Downloading video…"@))
    } else if key == "vs.dldone"@ {
        Some(("下载完成"@, "Download complete"@))
    } else if key == "vs.done"@ {
        Some(("生成完成"@, "Generation complete"@))
    } else if key == "vs.queued"@ {
        Some(("排队中…"@, "Queued…"@))
    } else if key == "vs.running"@ {
        Some(("生成中…"@, "Generating…"@))
    } else if key == "vs.fail"@ {
        Some(("生成失败"@, "Generation failed"@))
    } else if key == "vs.retry429"@ {
        Some(("查询限流，{n} 秒后重试…"@, "Rate limited, retrying in {n}s…"@))
    } else if key == "vs.retry"@ {
        Some(("查询失败，{n} 秒后重试…"@, "Query failed, retrying in {n}s…"@))
    } else if key == "vs.nourl"@ {
        Some(("任务完成但未返回视频地址"@, "Task completed but no video URL was returned"@))
    } else {
        None
    }
}

fn video_status_text(key: &str) -> (r: Option<(&'static str, &'static str)>)
    ensures
        pair_view(r) == video_status_texts(key@),
{
    if str_eq(key, "vs.submit") {
        Some(("提交任务中…", "Submitting task…"))
    } else if str_eq(key, "vs.created") {
        Some(("任务已创建，等待生成…", "Task created, waiting…"))
    } else if str_eq(key, "vs.dl") {
        Some(("正在下载视频…", "Downloading video…"))
    } else if str_eq(key, "vs.dldone") {
        Some(("下载完成", "Download complete"))
    } else if str_eq(key, "vs.done") {
        Some(("生成完成", "Generation complete"))
    } else if str_eq(key, "vs.queued") {
        Some(("排队中…", "Queued…"))
    } else if str_eq(key, "vs.running") {
        Some(("生成中…", "Generating…"))
    } else if str_eq(key, "vs.fail") {
        Some(("生成失败", "Generation failed"))
    } else if str_eq(key, "vs.retry429") {
        Some(("查询限流，{n} 秒后重试…", "Rate limited, retrying in {n}s…"))
    } else if str_eq(key, "vs.retry") {
        Some(("查询失败，{n} 秒后重试…", "Query failed, retrying in {n}s…"))
    } else if str_eq(key, "vs.nourl") {
        Some(("任务完成但未返回视频地址", "Task completed but no video URL was returned"))
    } else {
        None
    }
}

/// Texts of the video main (Chinese, English) by key.
pub open spec fn video_main_texts(key: Seq<char>) -> Option<(Seq<char>, Seq<char>)> {
    if key == "vid.emptyt"@ {
        Some(("视频生成"@, "Video Generation"@))
    } else if key == "vid.empty"@ {
        Some(("在左侧输入提示词，选择尺寸与时长后点击「生成视频」"@, "Enter a prompt, pick size and duration on the left, then click \"Generate Video\""@))
    } else if key == "vid.wait"@ {
        Some(("视频生成通常需要 1~5 分钟，请耐心等待"@, "Video generation usually takes 1–5 minutes"@))
    } else if key == "vid.elapsed"@ {
        Some(("已用时 {s} 秒 · {p}%"@, "Elapsed {s}s · {p}%"@))
    } else {
        None
    }
}

fn video_main_text(key: &str) -> (r: Option<(&'static str, &'static str)>)
    ensures
        pair_view(r) == video_main_texts(key@),
{
    if str_eq(key, "vid.emptyt") {
        Some(("视频生成", "Video Generation"))
    } else if str_eq(key, "vid.empty") {
        Some(("在左侧输入提示词，选择尺寸与时长后点击「生成视频」", "Enter a prompt, pick size and duration on the left, then click \"Generate Video\""))
    } else if str_eq(key, "vid.wait") {
        Some(("视频生成通常需要 1~5 分钟，请耐心等待", "Video generation usually takes 1–5 minutes"))
    } else if str_eq(key, "vid.elapsed") {
        Some(("已用时 {s} 秒 · {p}%", "Elapsed {s}s · {p}%"))
    } else {
        None
    }
}

/// Texts of the validation (Chinese, English) by key.
pub open spec fn validation_texts(key: Seq<char>) -> Option<(Seq<char>, Seq<char>)> {
    if key == "err.nokey"@ {
        Some(("未设置 API Key，请点击右上角 ⚙ 打开设置并填写。"@, "No API Key set. Click ⚙ in the top-right corner to open Settings and add one."@))
    } else if key == "err.noprompt"@ {
        Some(("提示词不能为空。"@, "Prompt cannot be empty."@))
    } else if key == "err.noinput"@ {
        Some(("图生图模式下需要提供输入图片。"@, "Image-to-image mode requires an input image."@))
    } else if key == "err.title"@ {
        Some(("无法生成"@, "Cannot Generate"@))
    } else if key == "err.open_settings"@ {
        Some(("⚙ 打开设置"@, "⚙ Open Settings"@))
    } else if key == "err.dismiss"@ {
        Some(("知道了"@, "Got It"@))
    } else if key == "err.kf"@ {
        Some(("首尾帧模式至少需要提供首帧或尾帧图片 URL"@, "Keyframe mode needs at least a first or last frame image URL"@))
    } else if key == "err.ref"@ {
        Some(("参考生成模式至少需要一种参考素材（图片 / 音频 / 视频）"@, "Reference mode needs at least one reference (image / audio / video)"@))
    } else if key == "err.flashimg"@ {
        Some(("Flash 版参考图片最多 5 张（当前已添加超出，请移除多余的图片）"@, "Flash allows at most 5 reference images; remove the extras"@))
    } else if key == "err.flashvid"@ {
        Some(("Flash 版不支持视频参考素材，请移除视频或切换到 Agnes Video 2.5"@, "Flash does not support video references; remove them or switch to Agnes Video 2.5"@))
    } else if key == "err.1img"@ {
        Some(("图生视频需要 1 张图片 URL"@, "Image-to-video needs 1 image URL"@))
    } else if key == "err.2img"@ {
        Some(("该模式至少需要 2 张图片 URL"@, "This mode needs at least 2 image URLs"@))
    } else {
        None
    }
}

fn validation_text(key: &str) -> (r: Option<(&'static str, &'static str)>)
    ensures
        pair_view(r) == validation_texts(key@),
{
    if str_eq(key, "err.nokey") {
        Some(("未设置 API Key，请点击右上角 ⚙ 打开设置并填写。", "No API Key set. Click ⚙ in the top-right corner to open Settings and add one."))
    } else if str_eq(key, "err.noprompt") {
        Some(("提示词不能为空。", "Prompt cannot be empty."))
    } else if str_eq(key, "err.noinput") {
        Some(("图生图模式下需要提供输入图片。", "Image-to-image mode requires an input image."))
    } else if str_eq(key, "err.title") {
        Some(("无法生成", "Cannot Generate"))
    } else if str_eq(key, "err.open_settings") {
        Some(("⚙ 打开设置", "⚙ Open Settings"))
    } else if str_eq(key, "err.dismiss") {
        Some(("知道了", "Got It"))
    } else if str_eq(key, "err.kf") {
        Some(("首尾帧模式至少需要提供首帧或尾帧图片 URL", "Keyframe mode needs at least a first or last frame image URL"))
    } else if str_eq(key, "err.ref") {
        Some(("参考生成模式至少需要一种参考素材（图片 / 音频 / 视频）", "Reference mode needs at least one reference (image / audio / video)"))
    } else if str_eq(key, "err.flashimg") {
        Some(("Flash 版参考图片最多 5 张（当前已添加超出，请移除多余的图片）", "Flash allows at most 5 reference images; remove the extras"))
    } else if str_eq(key, "err.flashvid") {
        Some(("Flash 版不支持视频参考素材，请移除视频或切换到 Agnes Video 2.5", "Flash does not support video references; remove them or switch to Agnes Video 2.5"))
    } else if str_eq(key, "err.1img") {
        Some(("图生视频需要 1 张图片 URL", "Image-to-video needs 1 image URL"))
    } else if str_eq(key, "err.2img") {
        Some(("该模式至少需要 2 张图片 URL", "This mode needs at least 2 image URLs"))
    } else {
        None
    }
}

/// Texts of the notice (Chinese, English) by key.
pub open spec fn notice_texts(key: Seq<char>) -> Option<(Seq<char>, Seq<char>)> {
    if key == "nt.saved"@ {
        Some(("已保存：{p}"@, "Saved: {p}"@))
    } else if key == "nt.savefail"@ {
        Some(("保存失败：{e}"@, "Save failed: {e}"@))
    } else if key == "nt.mkdir"@ {
        Some(("创建目录失败"@, "Failed to create directory"@))
    } else if key == "nt.redl"@ {
        Some(("本地缓存无效，正在重新下载视频…"@, "Local cache invalid, re-downloading video…"@))
    } else if key == "nt.novurl"@ {
        Some(("视频地址为空，无法保存"@, "Video URL is empty, cannot save"@))
    } else {
        None
    }
}

fn notice_text(key: &str) -> (r: Option<(&'static str, &'static str)>)
    ensures
        pair_view(r) == notice_texts(key@),
{
    if str_eq(key, "nt.saved") {
        Some(("已保存：{p}", "Saved: {p}"))
    } else if str_eq(key, "nt.savefail") {
        Some(("保存失败：{e}", "Save failed: {e}"))
    } else if str_eq(key, "nt.mkdir") {
        Some(("创建目录失败", "Failed to create directory"))
    } else if str_eq(key, "nt.redl") {
        Some(("本地缓存无效，正在重新下载视频…", "Local cache invalid, re-downloading video…"))
    } else if str_eq(key, "nt.novurl") {
        Some(("视频地址为空，无法保存", "Video URL is empty, cannot save"))
    } else {
        None
    }
}

/// Every interface text (Chinese, English) by key.
pub open spec fn texts(key: Seq<char>) -> Option<(Seq<char>, Seq<char>)> {
    or_else(top_bar_texts(key), or_else(card_title_texts(key), or_else(image_panel_texts(key), or_else(settings_texts(key), or_else(image_main_texts(key), or_else(history_texts(key), or_else(preview_texts(key), or_else(update_dialog_texts(key), or_else(video_panel_texts(key), or_else(video_status_texts(key), or_else(video_main_texts(key), or_else(validation_texts(key), or_else(notice_texts(key), None)))))))))))))
}

/// The text for `key` in `lang`; empty for an unknown key.
pub open spec fn spec_t(lang: Lang, key: Seq<char>) -> Seq<char> {
    match texts(key) {
        Some(p) => match lang {
            Lang::Zh => p.0,
            Lang::En => p.1,
        },
        None => Seq::empty(),
    }
}

fn lookup(key: &str) -> (r: Option<(&'static str, &'static str)>)
    ensures
        pair_view(r) == texts(key@),
{
    let r = top_bar_text(key);
    if r.is_some() {
        return r;
    }
    let r = card_title_text(key);
    if r.is_some() {
        return r;
    }
    let r = image_panel_text(key);
    if r.is_some() {
        return r;
    }
    let r = settings_text(key);
    if r.is_some() {
        return r;
    }
    let r = image_main_text(key);
    if r.is_some() {
        return r;
    }
    let r = history_text(key);
    if r.is_some() {
        return r;
    }
    let r = preview_text(key);
    if r.is_some() {
        return r;
    }
    let r = update_dialog_text(key);
    if r.is_some() {
        return r;
    }
    let r = video_panel_text(key);
    if r.is_some() {
        return r;
    }
    let r = video_status_text(key);
    if r.is_some() {
        return r;
    }
    let r = video_main_text(key);
    if r.is_some() {
        return r;
    }
    let r = validation_text(key);
    if r.is_some() {
        return r;
    }
    let r = notice_text(key);
    if r.is_some() {
        return r;
    }
    None
}

/// The interface text for `key` in `lang`; empty for an unknown key.
pub fn t(lang: Lang, key: &str) -> (r: &'static str)
    ensures
        r@ == spec_t(lang, key@),
{
    proof {
        reveal_strlit("");
    }
    let (zh, en) = match lookup(key) {
        Some(p) => p,
        None => ("", ""),
    };
    match lang {
        Lang::Zh => zh,
        Lang::En => en,
    }
}

/// The placeholder `{name}`.
pub open spec fn placeholder(name: Seq<char>) -> Seq<char> {
    seq!['{'] + name + seq!['}']
}

/// `s` with the placeholders of `args` replaced in order, one argument at
/// a time.
pub open spec fn fill(s: Seq<char>, args: Seq<(&str, &str)>) -> Seq<char>
    decreases args.len(),
{
    if args.len() == 0 {
        s
    } else {
        replace_all(fill(s, args.drop_last()), placeholder(args.last().0@), args.last().1@)
    }
}

/// The text for `key` in `lang` with every `{name}` of `args` replaced by
/// its value.
pub fn tf(lang: Lang, key: &str, args: &[(&str, &str)]) -> (r: String)
    ensures
        r@ == fill(spec_t(lang, key@), args@),
{
    let mut s = t(lang, key).to_string();
    let mut i: usize = 0;
    assert(args@.take(0) =~= Seq::<(&str, &str)>::empty());
    while i < args.len()
        invariant
            i <= args@.len(),
            s@ == fill(spec_t(lang, key@), args@.take(i as int)),
        decreases args@.len() - i,
    {
        proof {
            reveal_strlit("{");
            reveal_strlit("}");
        }
        let (k, v) = args[i];
        let mut pat = String::new();
        pat.append("{");
        pat.append(k);
        pat.append("}");
        assert(pat@ =~= placeholder(k@));
        s = replace_str(s.as_str(), pat.as_str(), v);
        assert(args@.take(i + 1).drop_last() =~= args@.take(i as int));
        i = i + 1;
    }
    assert(args@.take(i as int) =~= args@);
    s
}


// ---------------------------------------------------------------------------
// Placeholders of the texts
// ---------------------------------------------------------------------------

/// The names of the `{…}` fields of a text, from the left: each `{` opens a
/// field that the next `}` closes.
pub open spec fn placeholder_names(s: Seq<char>) -> Seq<Seq<char>>
    decreases s.len(),
{
    if s.len() == 0 {
        Seq::empty()
    } else if s[0] == '{' {
        let j = first_index(s.drop_first(), '}');
        if j < s.len() - 1 {
            seq![s.subrange(1, j + 1int)] + placeholder_names(s.skip(j + 2int))
        } else {
            Seq::empty()
        }
    } else {
        placeholder_names(s.drop_first())
    }
}

/// Whether both texts of a pair have the same fields, in the same order.
pub open spec fn same_fields(p: (Seq<char>, Seq<char>)) -> bool {
    placeholder_names(p.0) == placeholder_names(p.1)
}

/// The fields of `s` after position `from` are at the (open, close)
/// positions `pos`: no `{` outside them, no `}` inside them.
pub open spec fn fields_at(s: Seq<char>, pos: Seq<(int, int)>, from: int) -> bool
    decreases pos.len(),
{
    if pos.len() == 0 {
        forall|i: int| from <= i < s.len() ==> s[i] != '{'
    } else {
        let (o, c) = pos[0];
        &&& from <= o < c < s.len()
        &&& s[o] == '{'
        &&& s[c] == '}'
        &&& forall|i: int| from <= i < o ==> s[i] != '{'
        &&& forall|i: int| o < i < c ==> s[i] != '}'
        &&& fields_at(s, pos.drop_first(), c + 1)
    }
}

/// The texts of fields at the given positions.
pub open spec fn field_texts(s: Seq<char>, pos: Seq<(int, int)>) -> Seq<Seq<char>> {
    pos.map_values(|p: (int, int)| s.subrange(p.0 + 1, p.1))
}

proof fn lemma_names_plain(s: Seq<char>, a: int, b: int)
    requires
        0 <= a <= b <= s.len(),
        forall|i: int| a <= i < b ==> s[i] != '{',
    ensures
        placeholder_names(s.skip(a)) == placeholder_names(s.skip(b)),
    decreases b - a,
{
    if a < b {
        assert(s.skip(a).drop_first() =~= s.skip(a + 1));
        assert(s.skip(a)[0] == s[a]);
        lemma_names_plain(s, a + 1, b);
    }
}

proof fn lemma_names_field(s: Seq<char>, o: int, c: int)
    requires
        0 <= o < c < s.len(),
        s[o] == '{',
        s[c] == '}',
        forall|i: int| o < i < c ==> s[i] != '}',
    ensures
        placeholder_names(s.skip(o)) == seq![s.subrange(o + 1, c)] + placeholder_names(s.skip(c + 1)),
{
    let t = s.skip(o);
    let d = t.drop_first();
    assert forall|j: int| 0 <= j < c - o - 1 implies d[j] != '}' by {
        assert(d[j] == s[o + 1 + j]);
    }
    assert(d[c - o - 1] == s[c]);
    lemma_first_index_at(d, '}', (c - o - 1) as nat);
    assert(t.subrange(1, c - o) =~= s.subrange(o + 1, c));
    assert(t.skip(c - o + 1) =~= s.skip(c + 1));
}

/// The fields found at known positions.
proof fn lemma_fields(s: Seq<char>, pos: Seq<(int, int)>, from: int)
    requires
        0 <= from <= s.len(),
        fields_at(s, pos, from),
    ensures
        placeholder_names(s.skip(from)) == field_texts(s, pos),
    decreases pos.len(),
{
    if pos.len() == 0 {
        lemma_names_plain(s, from, s.len() as int);
        assert(s.skip(s.len() as int) =~= Seq::<char>::empty());
        assert(field_texts(s, pos) =~= Seq::<Seq<char>>::empty());
    } else {
        let (o, c) = pos[0];
        lemma_names_plain(s, from, o);
        lemma_names_field(s, o, c);
        lemma_fields(s, pos.drop_first(), c + 1);
        assert(field_texts(s, pos) =~= seq![s.subrange(o + 1, c)] + field_texts(s, pos.drop_first()));
    }
}

/// The fields of a whole text, found at known positions.
proof fn lemma_fields_of(s: Seq<char>, pos: Seq<(int, int)>)
    requires
        fields_at(s, pos, 0),
    ensures
        placeholder_names(s) == field_texts(s, pos),
{
    assert(s.skip(0) =~= s);
    lemma_fields(s, pos, 0);
}

/// In the texts of the top bar, both languages have the same fields.
proof fn lemma_top_bar_fields(key: Seq<char>)
    ensures
        top_bar_texts(key) matches Some(p) ==> same_fields(p),
{
    assert(same_fields(("图片"@, "Image"@))) by {
        reveal_strlit("图片");
        reveal_strlit("Image");
        reveal_with_fuel(fields_at, 1);
        lemma_fields_of("图片"@, seq![]);
        lemma_fields_of("Image"@, seq![]);
        assert(field_texts("图片"@, seq![]) =~= field_texts("Image"@, seq![]));
    }
    assert(same_fields(("视频"@, "Video"@))) by {
        reveal_strlit("视频");
        reveal_strlit("Video");
        reveal_with_fuel(fields_at, 1);
        lemma_fields_of("视频"@, seq![]);
        lemma_fields_of("Video"@, seq![]);
        assert(field_texts("视频"@, seq![]) =~= field_texts("Video"@, seq![]));
    }
    assert(same_fields(("Agnes 官网"@, "Agnes Website"@))) by {
        reveal_strlit("Agnes 官网");
        reveal_strlit("Agnes Website");
        reveal_with_fuel(fields_at, 1);
        lemma_fields_of("Agnes 官网"@, seq![]);
        lemma_fields_of("Agnes Website"@, seq![]);
        assert(field_texts("Agnes 官网"@, seq![]) =~= field_texts("Agnes Website"@, seq![]));
    }
    assert(same_fields(("API Key 已就绪"@, "API Key ready"@))) by {
        reveal_strlit("API Key 已就绪");
        reveal_strlit("API Key ready");
        reveal_with_fuel(fields_at, 1);
        lemma_fields_of("API Key 已就绪"@, seq![]);
        lemma_fields_of("API Key ready"@, seq![]);
        assert(field_texts("API Key 已就绪"@, seq![]) =~= field_texts("API Key ready"@, seq![]));
    }
    assert(same_fields(("未设置 API Key"@, "API Key not set"@))) by {
        reveal_strlit("未设置 API Key");
        reveal_strlit("API Key not set");
        reveal_with_fuel(fields_at, 1);
        lemma_fields_of("未设置 API Key"@, seq![]);
        lemma_fields_of("API Key not set"@, seq![]);
        assert(field_texts("未设置 API Key"@, seq![]) =~= field_texts("API Key not set"@, seq![]));
    }
    assert(same_fields(("国际站"@, "International"@))) by {
        reveal_strlit("国际站");
        reveal_strlit("International");
        reveal_with_fuel(fields_at, 1);
        lemma_fields_of("国际站"@, seq![]);
        lemma_fields_of("International"@, seq![]);
        assert(field_texts("国际站"@, seq![]) =~= field_texts("International"@, seq![]));
    }
    assert(same_fields(("国内站"@, "China"@))) by {
        reveal_strlit("国内站");
        reveal_strlit("China");
        reveal_with_fuel(fields_at, 1);
        lemma_fields_of("国内站"@, seq![]);
        lemma_fields_of("China"@, seq![]);
        assert(field_texts("国内站"@, seq![]) =~= field_texts("China"@, seq![]));
    }
    assert(same_fields(("免费"@, "Free"@))) by {
        reveal_strlit("免费");
        reveal_strlit("Free");
        reveal_with_fuel(fields_at, 1);
        lemma_fields_of("免费"@, seq![]);
        lemma_fields_of("Free"@, seq![]);
        assert(field_texts("免费"@, seq![]) =~= field_texts("Free"@, seq![]));
    }
    assert(same_fields(("企业"@, "Enterprise"@))) by {
        reveal_strlit("企业");
        reveal_strlit("Enterprise");
        reveal_with_fuel(fields_at, 1);
        lemma_fields_of("企业"@, seq![]);
        lemma_fields_of("Enterprise"@, seq![]);
        assert(field_texts("企业"@, seq![]) =~= field_texts("Enterprise"@, seq![]));
    }
    assert(same_fields(("Token Plan"@, "Token Plan"@))) by {
        reveal_strlit("Token Plan");
        reveal_strlit("Token Plan");
        reveal_with_fuel(fields_at, 1);
        lemma_fields_of("Token Plan"@, seq![]);
        lemma_fields_of("Token Plan"@, seq![]);
        assert(field_texts("Token Plan"@, seq![]) =~= field_texts("Token Plan"@, seq![]));
    }
    assert(same_fields(("启用"@, "Activate"@))) by {
        reveal_strlit("启用");
        reveal_strlit("Activate");
        reveal_with_fuel(fields_at, 1);
        lemma_fields_of("启用"@, seq![]);
        lemma_fields_of("Activate"@, seq![]);
        assert(field_texts("启用"@, seq![]) =~= field_texts("Activate"@, seq![]));
    }
    assert(same_fields(("✓ 使用中"@, "✓ Active"@))) by {
        reveal_strlit("✓ 使用中");
        reveal_strlit("✓ Active");
        reveal_with_fuel(fields_at, 1);
        lemma_fields_of("✓ 使用中"@, seq![]);
        lemma_fields_of("✓ Active"@, seq![]);
        assert(field_texts("✓ 使用中"@, seq![]) =~= field_texts("✓ Active"@, seq![]));
    }
    assert(same_fields(("生成中"@, "Generating"@))) by {
        reveal_strlit("生成中");
        reveal_strlit("Generating");
        reveal_with_fuel(fields_at, 1);
        lemma_fields_of("生成中"@, seq![]);
        lemma_fields_of("Generating"@, seq![]);
        assert(field_texts("生成中"@, seq![]) =~= field_texts("Generating"@, seq![]));
    }
    assert(same_fields(("有新版本 v{v}"@, "New version v{v}"@))) by {
        reveal_strlit("有新版本 v{v}");
        reveal_strlit("New version v{v}");
        reveal_with_fuel(fields_at, 2);
        lemma_fields_of("有新版本 v{v}"@, seq![(6int, 8int)]);
        lemma_fields_of("New version v{v}"@, seq![(13int, 15int)]);
        assert("有新版本 v{v}"@.subrange(7, 8) =~= "New version v{v}"@.subrange(14, 15));
        assert(field_texts("有新版本 v{v}"@, seq![(6int, 8int)]) =~= field_texts("New version v{v}"@, seq![(13int, 15int)]));
    }
}

/// In the texts of the card title, both languages have the same fields.
proof fn lemma_card_title_fields(key: Seq<char>)
    ensures
        card_title_texts(key) matches Some(p) ==> same_fields(p),
{
    assert(same_fields(("模型"@, "Model"@))) by {
        reveal_strlit("模型");
        reveal_strlit("Model");
        reveal_with_fuel(fields_at, 1);
        lemma_fields_of("模型"@, seq![]);
        lemma_fields_of("Model"@, seq![]);
        assert(field_texts("模型"@, seq![]) =~= field_texts("Model"@, seq![]));
    }
    assert(same_fields(("模式"@, "Mode"@))) by {
        reveal_strlit("模式");
        reveal_strlit("Mode");
        reveal_with_fuel(fields_at, 1);
        lemma_fields_of("模式"@, seq![]);
        lemma_fields_of("Mode"@, seq![]);
        assert(field_texts("模式"@, seq![]) =~= field_texts("Mode"@, seq![]));
    }
    assert(same_fields(("提示词"@, "Prompt"@))) by {
        reveal_strlit("提示词");
        reveal_strlit("Prompt");
        reveal_with_fuel(fields_at, 1);
        lemma_fields_of("提示词"@, seq![]);
        lemma_fields_of("Prompt"@, seq![]);
        assert(field_texts("提示词"@, seq![]) =~= field_texts("Prompt"@, seq![]));
    }
    assert(same_fields(("尺寸"@, "Size"@))) by {
        reveal_strlit("尺寸");
        reveal_strlit("Size");
        reveal_with_fuel(fields_at, 1);
        lemma_fields_of("尺寸"@, seq![]);
        lemma_fields_of("Size"@, seq![]);
        assert(field_texts("尺寸"@, seq![]) =~= field_texts("Size"@, seq![]));
    }
    assert(same_fields(("档位"@, "Tier"@))) by {
        reveal_strlit("档位");
        reveal_strlit("Tier");
        reveal_with_fuel(fields_at, 1);
        lemma_fields_of("档位"@, seq![]);
        lemma_fields_of("Tier"@, seq![]);
        assert(field_texts("档位"@, seq![]) =~= field_texts("Tier"@, seq![]));
    }
    assert(same_fields(("宽高比"@, "Aspect Ratio"@))) by {
        reveal_strlit("宽高比");
        reveal_strlit("Aspect Ratio");
        reveal_with_fuel(fields_at, 1);
        lemma_fields_of("宽高比"@, seq![]);
        lemma_fields_of("Aspect Ratio"@, seq![]);
        assert(field_texts("宽高比"@, seq![]) =~= field_texts("Aspect Ratio"@, seq![]));
    }
    assert(same_fields(("输出格式"@, "Output Format"@))) by {
        reveal_strlit("输出格式");
        reveal_strlit("Output Format");
        reveal_with_fuel(fields_at, 1);
        lemma_fields_of("输出格式"@, seq![]);
        lemma_fields_of("Output Format"@, seq![]);
        assert(field_texts("输出格式"@, seq![]) =~= field_texts("Output Format"@, seq![]));
    }
    assert(same_fields(("输入图片"@, "Input Image"@))) by {
        reveal_strlit("输入图片");
        reveal_strlit("Input Image");
        reveal_with_fuel(fields_at, 1);
        lemma_fields_of("输入图片"@, seq![]);
        lemma_fields_of("Input Image"@, seq![]);
        assert(field_texts("输入图片"@, seq![]) =~= field_texts("Input Image"@, seq![]));
    }
}

/// In the texts of the image panel, both languages have the same fields.
proof fn lemma_image_panel_fields(key: Seq<char>)
    ensures
        image_panel_texts(key) matches Some(p) ==> same_fields(p),
{
    assert(same_fields(("文生图"@, "Text to Image"@))) by {
        reveal_strlit("文生图");
        reveal_strlit("Text to Image");
        reveal_with_fuel(fields_at, 1);
        lemma_fields_of("文生图"@, seq![]);
        lemma_fields_of("Text to Image"@, seq![]);
        assert(field_texts("文生图"@, seq![]) =~= field_texts("Text to Image"@, seq![]));
    }
    assert(same_fields(("图生图"@, "Image to Image"@))) by {
        reveal_strlit("图生图");
        reveal_strlit("Image to Image");
        reveal_with_fuel(fields_at, 1);
        lemma_fields_of("图生图"@, seq![]);
        lemma_fields_of("Image to Image"@, seq![]);
        assert(field_texts("图生图"@, seq![]) =~= field_texts("Image to Image"@, seq![]));
    }
    assert(same_fields(("描述你想生成或编辑的图像…"@, "Describe the image you want to generate or edit…"@))) by {
        reveal_strlit("描述你想生成或编辑的图像…");
        reveal_strlit("Describe the image you want to generate or edit…");
        reveal_with_fuel(fields_at, 1);
        lemma_fields_of("描述你想生成或编辑的图像…"@, seq![]);
        lemma_fields_of("Describe the image you want to generate or edit…"@, seq![]);
        assert(field_texts("描述你想生成或编辑的图像…"@, seq![]) =~= field_texts("Describe the image you want to generate or edit…"@, seq![]));
    }
    assert(same_fields(("本地文件"@, "Local File"@))) by {
        reveal_strlit("本地文件");
        reveal_strlit("Local File");
        reveal_with_fuel(fields_at, 1);
        lemma_fields_of("本地文件"@, seq![]);
        lemma_fields_of("Local File"@, seq![]);
        assert(field_texts("本地文件"@, seq![]) =~= field_texts("Local File"@, seq![]));
    }
    assert(same_fields(("图片 URL"@, "Image URL"@))) by {
        reveal_strlit("图片 URL");
        reveal_strlit("Image URL");
        reveal_with_fuel(fields_at, 1);
        lemma_fields_of("图片 URL"@, seq![]);
        lemma_fields_of("Image URL"@, seq![]);
        assert(field_texts("图片 URL"@, seq![]) =~= field_texts("Image URL"@, seq![]));
    }
    assert(same_fields(("选择图片…"@, "Choose Image…"@))) by {
        reveal_strlit("选择图片…");
        reveal_strlit("Choose Image…");
        reveal_with_fuel(fields_at, 1);
        lemma_fields_of("选择图片…"@, seq![]);
        lemma_fields_of("Choose Image…"@, seq![]);
        assert(field_texts("选择图片…"@, seq![]) =~= field_texts("Choose Image…"@, seq![]));
    }
    assert(same_fields(("清除"@, "Clear"@))) by {
        reveal_strlit("清除");
        reveal_strlit("Clear");
        reveal_with_fuel(fields_at, 1);
        lemma_fields_of("清除"@, seq![]);
        lemma_fields_of("Clear"@, seq![]);
        assert(field_texts("清除"@, seq![]) =~= field_texts("Clear"@, seq![]));
    }
    assert(same_fields(("未选择图片"@, "No image selected"@))) by {
        reveal_strlit("未选择图片");
        reveal_strlit("No image selected");
        reveal_with_fuel(fields_at, 1);
        lemma_fields_of("未选择图片"@, seq![]);
        lemma_fields_of("No image selected"@, seq![]);
        assert(field_texts("未选择图片"@, seq![]) =~= field_texts("No image selected"@, seq![]));
    }
    assert(same_fields(("生成图像"@, "Generate Image"@))) by {
        reveal_strlit("生成图像");
        reveal_strlit("Generate Image");
        reveal_with_fuel(fields_at, 1);
        lemma_fields_of("生成图像"@, seq![]);
        lemma_fields_of("Generate Image"@, seq![]);
        assert(field_texts("生成图像"@, seq![]) =~= field_texts("Generate Image"@, seq![]));
    }
    assert(same_fields(("生成中…"@, "Generating…"@))) by {
        reveal_strlit("生成中…");
        reveal_strlit("Generating…");
        reveal_with_fuel(fields_at, 1);
        lemma_fields_of("生成中…"@, seq![]);
        lemma_fields_of("Generating…"@, seq![]);
        assert(field_texts("生成中…"@, seq![]) =~= field_texts("Generating…"@, seq![]));
    }
    assert(same_fields(("输出约 {exact}（{size} · {ratio}）"@, "Output ≈ {exact} ({size} · {ratio})"@))) by {
        reveal_strlit("输出约 {exact}（{size} · {ratio}）");
        reveal_strlit("Output ≈ {exact} ({size} · {ratio})");
        reveal_with_fuel(fields_at, 4);
        lemma_fields_of("输出约 {exact}（{size} · {ratio}）"@, seq![(4int, 10int), (12int, 17int), (21int, 27int)]);
        lemma_fields_of("Output ≈ {exact} ({size} · {ratio})"@, seq![(9int, 15int), (18int, 23int), (27int, 33int)]);
        assert("输出约 {exact}（{size} · {ratio}）"@.subrange(5, 10) =~= "Output ≈ {exact} ({size} · {ratio})"@.subrange(10, 15));
        assert("输出约 {exact}（{size} · {ratio}）"@.subrange(13, 17) =~= "Output ≈ {exact} ({size} · {ratio})"@.subrange(19, 23));
        assert("输出约 {exact}（{size} · {ratio}）"@.subrange(22, 27) =~= "Output ≈ {exact} ({size} · {ratio})"@.subrange(28, 33));
        assert(field_texts("输出约 {exact}（{size} · {ratio}）"@, seq![(4int, 10int), (12int, 17int), (21int, 27int)]) =~= field_texts("Output ≈ {exact} ({size} · {ratio})"@, seq![(9int, 15int), (18int, 23int), (27int, 33int)]));
    }
    assert(same_fields(("当前：{s}"@, "Current: {s}"@))) by {
        reveal_strlit("当前：{s}");
        reveal_strlit("Current: {s}");
        reveal_with_fuel(fields_at, 2);
        lemma_fields_of("当前：{s}"@, seq![(3int, 5int)]);
        lemma_fields_of("Current: {s}"@, seq![(9int, 11int)]);
        assert("当前：{s}"@.subrange(4, 5) =~= "Current: {s}"@.subrange(10, 11));
        assert(field_texts("当前：{s}"@, seq![(3int, 5int)]) =~= field_texts("Current: {s}"@, seq![(9int, 11int)]));
    }
    assert(same_fields(("{t} 档"@, "{t}"@))) by {
        reveal_strlit("{t} 档");
        reveal_strlit("{t}");
        reveal_with_fuel(fields_at, 2);
        lemma_fields_of("{t} 档"@, seq![(0int, 2int)]);
        lemma_fields_of("{t}"@, seq![(0int, 2int)]);
        assert("{t} 档"@.subrange(1, 2) =~= "{t}"@.subrange(1, 2));
        assert(field_texts("{t} 档"@, seq![(0int, 2int)]) =~= field_texts("{t}"@, seq![(0int, 2int)]));
    }
}

/// In the texts of the settings, both languages have the same fields.
proof fn lemma_settings_fields(key: Seq<char>)
    ensures
        settings_texts(key) matches Some(p) ==> same_fields(p),
{
    assert(same_fields(("👁 显示"@, "👁 Show"@))) by {
        reveal_strlit("👁 显示");
        reveal_strlit("👁 Show");
        reveal_with_fuel(fields_at, 1);
        lemma_fields_of("👁 显示"@, seq![]);
        lemma_fields_of("👁 Show"@, seq![]);
        assert(field_texts("👁 显示"@, seq![]) =~= field_texts("👁 Show"@, seq![]));
    }
    assert(same_fields(("🙈 隐藏"@, "🙈 Hide"@))) by {
        reveal_strlit("🙈 隐藏");
        reveal_strlit("🙈 Hide");
        reveal_with_fuel(fields_at, 1);
        lemma_fields_of("🙈 隐藏"@, seq![]);
        lemma_fields_of("🙈 Hide"@, seq![]);
        assert(field_texts("🙈 隐藏"@, seq![]) =~= field_texts("🙈 Hide"@, seq![]));
    }
    assert(same_fields(("国际站（.com · 美元计费）"@, "International (.com · USD)"@))) by {
        reveal_strlit("国际站（.com · 美元计费）");
        reveal_strlit("International (.com · USD)");
        reveal_with_fuel(fields_at, 1);
        lemma_fields_of("国际站（.com · 美元计费）"@, seq![]);
        lemma_fields_of("International (.com · USD)"@, seq![]);
        assert(field_texts("国际站（.com · 美元计费）"@, seq![]) =~= field_texts("International (.com · USD)"@, seq![]));
    }
    assert(same_fields(("国内站（.cn · 人民币计费）"@, "China (.cn · CNY)"@))) by {
        reveal_strlit("国内站（.cn · 人民币计费）");
        reveal_strlit("China (.cn · CNY)");
        reveal_with_fuel(fields_at, 1);
        lemma_fields_of("国内站（.cn · 人民币计费）"@, seq![]);
        lemma_fields_of("China (.cn · CNY)"@, seq![]);
        assert(field_texts("国内站（.cn · 人民币计费）"@, seq![]) =~= field_texts("China (.cn · CNY)"@, seq![]));
    }
    assert(same_fields(("官网申请 ↗"@, "Get a Key ↗"@))) by {
        reveal_strlit("官网申请 ↗");
        reveal_strlit("Get a Key ↗");
        reveal_with_fuel(fields_at, 1);
        lemma_fields_of("官网申请 ↗"@, seq![]);
        lemma_fields_of("Get a Key ↗"@, seq![]);
        assert(field_texts("官网申请 ↗"@, seq![]) =~= field_texts("Get a Key ↗"@, seq![]));
    }
    assert(same_fields(("两站模型能力一致，仅接口地址不同（国际站美元、国内站人民币计费），账户与余额互不互通。每站可保存 3 类密钥，点击「启用」切换当前使用的密钥——同一时刻仅一个生效，不同类型使用不同的限制池。"@, "Both sites offer identical models and differ only in API endpoint (USD on .com, CNY on .cn); accounts and balances are separate. Each site can store 3 key types — click \"Activate\" to switch the key in use. Only one is active at a time; each type has its own rate-limit pool."@))) by {
        reveal_strlit("两站模型能力一致，仅接口地址不同（国际站美元、国内站人民币计费），账户与余额互不互通。每站可保存 3 类密钥，点击「启用」切换当前使用的密钥——同一时刻仅一个生效，不同类型使用不同的限制池。");
        reveal_strlit("Both sites offer identical models and differ only in API endpoint (USD on .com, CNY on .cn); accounts and balances are separate. Each site can store 3 key types — click \"Activate\" to switch the key in use. Only one is active at a time; each type has its own rate-limit pool.");
        reveal_with_fuel(fields_at, 1);
        lemma_fields_of("两站模型能力一致，仅接口地址不同（国际站美元、国内站人民币计费），账户与余额互不互通。每站可保存 3 类密钥，点击「启用」切换当前使用的密钥——同一时刻仅一个生效，不同类型使用不同的限制池。"@, seq![]);
        lemma_fields_of("Both sites offer identical models and differ only in API endpoint (USD on .com, CNY on .cn); accounts and balances are separate. Each site can store 3 key types — click \"Activate\" to switch the key in use. Only one is active at a time; each type has its own rate-limit pool."@, seq![]);
        assert(field_texts("两站模型能力一致，仅接口地址不同（国际站美元、国内站人民币计费），账户与余额互不互通。每站可保存 3 类密钥，点击「启用」切换当前使用的密钥——同一时刻仅一个生效，不同类型使用不同的限制池。"@, seq![]) =~= field_texts("Both sites offer identical models and differ only in API endpoint (USD on .com, CNY on .cn); accounts and balances are separate. Each site can store 3 key types — click \"Activate\" to switch the key in use. Only one is active at a time; each type has its own rate-limit pool."@, seq![]));
    }
    assert(same_fields(("免费 / 默认密钥"@, "Free / Default key"@))) by {
        reveal_strlit("免费 / 默认密钥");
        reveal_strlit("Free / Default key");
        reveal_with_fuel(fields_at, 1);
        lemma_fields_of("免费 / 默认密钥"@, seq![]);
        lemma_fields_of("Free / Default key"@, seq![]);
        assert(field_texts("免费 / 默认密钥"@, seq![]) =~= field_texts("Free / Default key"@, seq![]));
    }
    assert(same_fields(("企业认证密钥"@, "Enterprise key"@))) by {
        reveal_strlit("企业认证密钥");
        reveal_strlit("Enterprise key");
        reveal_with_fuel(fields_at, 1);
        lemma_fields_of("企业认证密钥"@, seq![]);
        lemma_fields_of("Enterprise key"@, seq![]);
        assert(field_texts("企业认证密钥"@, seq![]) =~= field_texts("Enterprise key"@, seq![]));
    }
    assert(same_fields(("Token Plan 密钥"@, "Token Plan key"@))) by {
        reveal_strlit("Token Plan 密钥");
        reveal_strlit("Token Plan key");
        reveal_with_fuel(fields_at, 1);
        lemma_fields_of("Token Plan 密钥"@, seq![]);
        lemma_fields_of("Token Plan key"@, seq![]);
        assert(field_texts("Token Plan 密钥"@, seq![]) =~= field_texts("Token Plan key"@, seq![]));
    }
    assert(same_fields(("模型速率限制"@, "Model Rate Limits"@))) by {
        reveal_strlit("模型速率限制");
        reveal_strlit("Model Rate Limits");
        reveal_with_fuel(fields_at, 1);
        lemma_fields_of("模型速率限制"@, seq![]);
        lemma_fields_of("Model Rate Limits"@, seq![]);
        assert(field_texts("模型速率限制"@, seq![]) =~= field_texts("Model Rate Limits"@, seq![]));
    }
    assert(same_fields(("速率限制"@, "Rate Limits"@))) by {
        reveal_strlit("速率限制");
        reveal_strlit("Rate Limits");
        reveal_with_fuel(fields_at, 1);
        lemma_fields_of("速率限制"@, seq![]);
        lemma_fields_of("Rate Limits"@, seq![]);
        assert(field_texts("速率限制"@, seq![]) =~= field_texts("Rate Limits"@, seq![]));
    }
    assert(same_fields(("保存目录"@, "Save Directory"@))) by {
        reveal_strlit("保存目录");
        reveal_strlit("Save Directory");
        reveal_with_fuel(fields_at, 1);
        lemma_fields_of("保存目录"@, seq![]);
        lemma_fields_of("Save Directory"@, seq![]);
        assert(field_texts("保存目录"@, seq![]) =~= field_texts("Save Directory"@, seq![]));
    }
    assert(same_fields(("浏览"@, "Browse"@))) by {
        reveal_strlit("浏览");
        reveal_strlit("Browse");
        reveal_with_fuel(fields_at, 1);
        lemma_fields_of("浏览"@, seq![]);
        lemma_fields_of("Browse"@, seq![]);
        assert(field_texts("浏览"@, seq![]) =~= field_texts("Browse"@, seq![]));
    }
    assert(same_fields(("保存设置"@, "Save Settings"@))) by {
        reveal_strlit("保存设置");
        reveal_strlit("Save Settings");
        reveal_with_fuel(fields_at, 1);
        lemma_fields_of("保存设置"@, seq![]);
        lemma_fields_of("Save Settings"@, seq![]);
        assert(field_texts("保存设置"@, seq![]) =~= field_texts("Save Settings"@, seq![]));
    }
    assert(same_fields(("恢复默认"@, "Reset Defaults"@))) by {
        reveal_strlit("恢复默认");
        reveal_strlit("Reset Defaults");
        reveal_with_fuel(fields_at, 1);
        lemma_fields_of("恢复默认"@, seq![]);
        lemma_fields_of("Reset Defaults"@, seq![]);
        assert(field_texts("恢复默认"@, seq![]) =~= field_texts("Reset Defaults"@, seq![]));
    }
    assert(same_fields(("主题"@, "Theme"@))) by {
        reveal_strlit("主题");
        reveal_strlit("Theme");
        reveal_with_fuel(fields_at, 1);
        lemma_fields_of("主题"@, seq![]);
        lemma_fields_of("Theme"@, seq![]);
        assert(field_texts("主题"@, seq![]) =~= field_texts("Theme"@, seq![]));
    }
    assert(same_fields(("浅色"@, "Light"@))) by {
        reveal_strlit("浅色");
        reveal_strlit("Light");
        reveal_with_fuel(fields_at, 1);
        lemma_fields_of("浅色"@, seq![]);
        lemma_fields_of("Light"@, seq![]);
        assert(field_texts("浅色"@, seq![]) =~= field_texts("Light"@, seq![]));
    }
    assert(same_fields(("深色"@, "Dark"@))) by {
        reveal_strlit("深色");
        reveal_strlit("Dark");
        reveal_with_fuel(fields_at, 1);
        lemma_fields_of("深色"@, seq![]);
        lemma_fields_of("Dark"@, seq![]);
        assert(field_texts("深色"@, seq![]) =~= field_texts("Dark"@, seq![]));
    }
    assert(same_fields(("跟随系统"@, "System"@))) by {
        reveal_strlit("跟随系统");
        reveal_strlit("System");
        reveal_with_fuel(fields_at, 1);
        lemma_fields_of("跟随系统"@, seq![]);
        lemma_fields_of("System"@, seq![]);
        assert(field_texts("跟随系统"@, seq![]) =~= field_texts("System"@, seq![]));
    }
    assert(same_fields(("界面语言"@, "Language"@))) by {
        reveal_strlit("界面语言");
        reveal_strlit("Language");
        reveal_with_fuel(fields_at, 1);
        lemma_fields_of("界面语言"@, seq![]);
        lemma_fields_of("Language"@, seq![]);
        assert(field_texts("界面语言"@, seq![]) =~= field_texts("Language"@, seq![]));
    }
    assert(same_fields(("版本 v{v}"@, "Version v{v}"@))) by {
        reveal_strlit("版本 v{v}");
        reveal_strlit("Version v{v}");
        reveal_with_fuel(fields_at, 2);
        lemma_fields_of("版本 v{v}"@, seq![(4int, 6int)]);
        lemma_fields_of("Version v{v}"@, seq![(9int, 11int)]);
        assert("版本 v{v}"@.subrange(5, 6) =~= "Version v{v}"@.subrange(10, 11));
        assert(field_texts("版本 v{v}"@, seq![(4int, 6int)]) =~= field_texts("Version v{v}"@, seq![(9int, 11int)]));
    }
    assert(same_fields(("检查更新"@, "Check for Updates"@))) by {
        reveal_strlit("检查更新");
        reveal_strlit("Check for Updates");
        reveal_with_fuel(fields_at, 1);
        lemma_fields_of("检查更新"@, seq![]);
        lemma_fields_of("Check for Updates"@, seq![]);
        assert(field_texts("检查更新"@, seq![]) =~= field_texts("Check for Updates"@, seq![]));
    }
    assert(same_fields(("检查中…"@, "Checking…"@))) by {
        reveal_strlit("检查中…");
        reveal_strlit("Checking…");
        reveal_with_fuel(fields_at, 1);
        lemma_fields_of("检查中…"@, seq![]);
        lemma_fields_of("Checking…"@, seq![]);
        assert(field_texts("检查中…"@, seq![]) =~= field_texts("Checking…"@, seq![]));
    }
    assert(same_fields(("当前已是最新版本"@, "You are on the latest version"@))) by {
        reveal_strlit("当前已是最新版本");
        reveal_strlit("You are on the latest version");
        reveal_with_fuel(fields_at, 1);
        lemma_fields_of("当前已是最新版本"@, seq![]);
        lemma_fields_of("You are on the latest version"@, seq![]);
        assert(field_texts("当前已是最新版本"@, seq![]) =~= field_texts("You are on the latest version"@, seq![]));
    }
    assert(same_fields(("设置已保存"@, "Settings saved"@))) by {
        reveal_strlit("设置已保存");
        reveal_strlit("Settings saved");
        reveal_with_fuel(fields_at, 1);
        lemma_fields_of("设置已保存"@, seq![]);
        lemma_fields_of("Settings saved"@, seq![]);
        assert(field_texts("设置已保存"@, seq![]) =~= field_texts("Settings saved"@, seq![]));
    }
    assert(same_fields(("设置"@, "Settings"@))) by {
        reveal_strlit("设置");
        reveal_strlit("Settings");
        reveal_with_fuel(fields_at, 1);
        lemma_fields_of("设置"@, seq![]);
        lemma_fields_of("Settings"@, seq![]);
        assert(field_texts("设置"@, seq![]) =~= field_texts("Settings"@, seq![]));
    }
    assert(same_fields(("完成"@, "Done"@))) by {
        reveal_strlit("完成");
        reveal_strlit("Done");
        reveal_with_fuel(fields_at, 1);
        lemma_fields_of("完成"@, seq![]);
        lemma_fields_of("Done"@, seq![]);
        assert(field_texts("完成"@, seq![]) =~= field_texts("Done"@, seq![]));
    }
}

/// In the texts of the image main, both languages have the same fields.
proof fn lemma_image_main_fields(key: Seq<char>)
    ensures
        image_main_texts(key) matches Some(p) ==> same_fields(p),
{
    assert(same_fields(("可能需要数秒到数十秒，请稍候"@, "This usually takes seconds to a minute"@))) by {
        reveal_strlit("可能需要数秒到数十秒，请稍候");
        reveal_strlit("This usually takes seconds to a minute");
        reveal_with_fuel(fields_at, 1);
        lemma_fields_of("可能需要数秒到数十秒，请稍候"@, seq![]);
        lemma_fields_of("This usually takes seconds to a minute"@, seq![]);
        assert(field_texts("可能需要数秒到数十秒，请稍候"@, seq![]) =~= field_texts("This usually takes seconds to a minute"@, seq![]));
    }
    assert(same_fields(("欢迎使用 AgnesStudio"@, "Welcome to AgnesStudio"@))) by {
        reveal_strlit("欢迎使用 AgnesStudio");
        reveal_strlit("Welcome to AgnesStudio");
        reveal_with_fuel(fields_at, 1);
        lemma_fields_of("欢迎使用 AgnesStudio"@, seq![]);
        lemma_fields_of("Welcome to AgnesStudio"@, seq![]);
        assert(field_texts("欢迎使用 AgnesStudio"@, seq![]) =~= field_texts("Welcome to AgnesStudio"@, seq![]));
    }
    assert(same_fields(("在左侧输入提示词后点击「生成图像」"@, "Enter a prompt on the left, then click \"Generate Image\""@))) by {
        reveal_strlit("在左侧输入提示词后点击「生成图像」");
        reveal_strlit("Enter a prompt on the left, then click \"Generate Image\"");
        reveal_with_fuel(fields_at, 1);
        lemma_fields_of("在左侧输入提示词后点击「生成图像」"@, seq![]);
        lemma_fields_of("Enter a prompt on the left, then click \"Generate Image\""@, seq![]);
        assert(field_texts("在左侧输入提示词后点击「生成图像」"@, seq![]) =~= field_texts("Enter a prompt on the left, then click \"Generate Image\""@, seq![]));
    }
    assert(same_fields(("已用时 {s} 秒"@, "Elapsed {s}s"@))) by {
        reveal_strlit("已用时 {s} 秒");
        reveal_strlit("Elapsed {s}s");
        reveal_with_fuel(fields_at, 2);
        lemma_fields_of("已用时 {s} 秒"@, seq![(4int, 6int)]);
        lemma_fields_of("Elapsed {s}s"@, seq![(8int, 10int)]);
        assert("已用时 {s} 秒"@.subrange(5, 6) =~= "Elapsed {s}s"@.subrange(9, 10));
        assert(field_texts("已用时 {s} 秒"@, seq![(4int, 6int)]) =~= field_texts("Elapsed {s}s"@, seq![(8int, 10int)]));
    }
    assert(same_fields(("🔄 重新生成"@, "🔄 Regenerate"@))) by {
        reveal_strlit("🔄 重新生成");
        reveal_strlit("🔄 Regenerate");
        reveal_with_fuel(fields_at, 1);
        lemma_fields_of("🔄 重新生成"@, seq![]);
        lemma_fields_of("🔄 Regenerate"@, seq![]);
        assert(field_texts("🔄 重新生成"@, seq![]) =~= field_texts("🔄 Regenerate"@, seq![]));
    }
    assert(same_fields(("🌐 打开原图"@, "🌐 Open Original"@))) by {
        reveal_strlit("🌐 打开原图");
        reveal_strlit("🌐 Open Original");
        reveal_with_fuel(fields_at, 1);
        lemma_fields_of("🌐 打开原图"@, seq![]);
        lemma_fields_of("🌐 Open Original"@, seq![]);
        assert(field_texts("🌐 打开原图"@, seq![]) =~= field_texts("🌐 Open Original"@, seq![]));
    }
    assert(same_fields(("🌐 打开原视频"@, "🌐 Open Original"@))) by {
        reveal_strlit("🌐 打开原视频");
        reveal_strlit("🌐 Open Original");
        reveal_with_fuel(fields_at, 1);
        lemma_fields_of("🌐 打开原视频"@, seq![]);
        lemma_fields_of("🌐 Open Original"@, seq![]);
        assert(field_texts("🌐 打开原视频"@, seq![]) =~= field_texts("🌐 Open Original"@, seq![]));
    }
    assert(same_fields(("💾 保存"@, "💾 Save"@))) by {
        reveal_strlit("💾 保存");
        reveal_strlit("💾 Save");
        reveal_with_fuel(fields_at, 1);
        lemma_fields_of("💾 保存"@, seq![]);
        lemma_fields_of("💾 Save"@, seq![]);
        assert(field_texts("💾 保存"@, seq![]) =~= field_texts("💾 Save"@, seq![]));
    }
    assert(same_fields(("提示词"@, "Prompt"@))) by {
        reveal_strlit("提示词");
        reveal_strlit("Prompt");
        reveal_with_fuel(fields_at, 1);
        lemma_fields_of("提示词"@, seq![]);
        lemma_fields_of("Prompt"@, seq![]);
        assert(field_texts("提示词"@, seq![]) =~= field_texts("Prompt"@, seq![]));
    }
}

/// In the texts of the history, both languages have the same fields.
proof fn lemma_history_fields(key: Seq<char>)
    ensures
        history_texts(key) matches Some(p) ==> same_fields(p),
{
    assert(same_fields(("历史记录 {n}"@, "History {n}"@))) by {
        reveal_strlit("历史记录 {n}");
        reveal_strlit("History {n}");
        reveal_with_fuel(fields_at, 2);
        lemma_fields_of("历史记录 {n}"@, seq![(5int, 7int)]);
        lemma_fields_of("History {n}"@, seq![(8int, 10int)]);
        assert("历史记录 {n}"@.subrange(6, 7) =~= "History {n}"@.subrange(9, 10));
        assert(field_texts("历史记录 {n}"@, seq![(5int, 7int)]) =~= field_texts("History {n}"@, seq![(8int, 10int)]));
    }
    assert(same_fields(("视频历史 {n}"@, "Video History {n}"@))) by {
        reveal_strlit("视频历史 {n}");
        reveal_strlit("Video History {n}");
        reveal_with_fuel(fields_at, 2);
        lemma_fields_of("视频历史 {n}"@, seq![(5int, 7int)]);
        lemma_fields_of("Video History {n}"@, seq![(14int, 16int)]);
        assert("视频历史 {n}"@.subrange(6, 7) =~= "Video History {n}"@.subrange(15, 16));
        assert(field_texts("视频历史 {n}"@, seq![(5int, 7int)]) =~= field_texts("Video History {n}"@, seq![(14int, 16int)]));
    }
}

/// In the texts of the preview, both languages have the same fields.
proof fn lemma_preview_fields(key: Seq<char>)
    ensures
        preview_texts(key) matches Some(p) ==> same_fields(p),
{
    assert(same_fields(("原图预览 {w}×{h}"@, "Preview {w}×{h}"@))) by {
        reveal_strlit("原图预览 {w}×{h}");
        reveal_strlit("Preview {w}×{h}");
        reveal_with_fuel(fields_at, 3);
        lemma_fields_of("原图预览 {w}×{h}"@, seq![(5int, 7int), (9int, 11int)]);
        lemma_fields_of("Preview {w}×{h}"@, seq![(8int, 10int), (12int, 14int)]);
        assert("原图预览 {w}×{h}"@.subrange(6, 7) =~= "Preview {w}×{h}"@.subrange(9, 10));
        assert("原图预览 {w}×{h}"@.subrange(10, 11) =~= "Preview {w}×{h}"@.subrange(13, 14));
        assert(field_texts("原图预览 {w}×{h}"@, seq![(5int, 7int), (9int, 11int)]) =~= field_texts("Preview {w}×{h}"@, seq![(8int, 10int), (12int, 14int)]));
    }
    assert(same_fields(("滚轮以中心缩放 · 放大后可拖动查看 · 双击图片或点击百分比复位 · 点击空白处关闭"@, "Scroll to zoom from center · drag to pan when zoomed · double-click to reset · click the backdrop to close"@))) by {
        reveal_strlit("滚轮以中心缩放 · 放大后可拖动查看 · 双击图片或点击百分比复位 · 点击空白处关闭");
        reveal_strlit("Scroll to zoom from center · drag to pan when zoomed · double-click to reset · click the backdrop to close");
        reveal_with_fuel(fields_at, 1);
        lemma_fields_of("滚轮以中心缩放 · 放大后可拖动查看 · 双击图片或点击百分比复位 · 点击空白处关闭"@, seq![]);
        lemma_fields_of("Scroll to zoom from center · drag to pan when zoomed · double-click to reset · click the backdrop to close"@, seq![]);
        assert(field_texts("滚轮以中心缩放 · 放大后可拖动查看 · 双击图片或点击百分比复位 · 点击空白处关闭"@, seq![]) =~= field_texts("Scroll to zoom from center · drag to pan when zoomed · double-click to reset · click the backdrop to close"@, seq![]));
    }
    assert(same_fields(("缩小"@, "Zoom out"@))) by {
        reveal_strlit("缩小");
        reveal_strlit("Zoom out");
        reveal_with_fuel(fields_at, 1);
        lemma_fields_of("缩小"@, seq![]);
        lemma_fields_of("Zoom out"@, seq![]);
        assert(field_texts("缩小"@, seq![]) =~= field_texts("Zoom out"@, seq![]));
    }
    assert(same_fields(("放大"@, "Zoom in"@))) by {
        reveal_strlit("放大");
        reveal_strlit("Zoom in");
        reveal_with_fuel(fields_at, 1);
        lemma_fields_of("放大"@, seq![]);
        lemma_fields_of("Zoom in"@, seq![]);
        assert(field_texts("放大"@, seq![]) =~= field_texts("Zoom in"@, seq![]));
    }
    assert(same_fields(("复位到 100%"@, "Reset to 100%"@))) by {
        reveal_strlit("复位到 100%");
        reveal_strlit("Reset to 100%");
        reveal_with_fuel(fields_at, 1);
        lemma_fields_of("复位到 100%"@, seq![]);
        lemma_fields_of("Reset to 100%"@, seq![]);
        assert(field_texts("复位到 100%"@, seq![]) =~= field_texts("Reset to 100%"@, seq![]));
    }
    assert(same_fields(("关闭"@, "Close"@))) by {
        reveal_strlit("关闭");
        reveal_strlit("Close");
        reveal_with_fuel(fields_at, 1);
        lemma_fields_of("关闭"@, seq![]);
        lemma_fields_of("Close"@, seq![]);
        assert(field_texts("关闭"@, seq![]) =~= field_texts("Close"@, seq![]));
    }
}

/// In the texts of the update dialog, both languages have the same fields.
proof fn lemma_update_dialog_fields(key: Seq<char>)
    ensures
        update_dialog_texts(key) matches Some(p) ==> same_fields(p),
{
    assert(same_fields(("发现新版本"@, "New Version Available"@))) by {
        reveal_strlit("发现新版本");
        reveal_strlit("New Version Available");
        reveal_with_fuel(fields_at, 1);
        lemma_fields_of("发现新版本"@, seq![]);
        lemma_fields_of("New Version Available"@, seq![]);
        assert(field_texts("发现新版本"@, seq![]) =~= field_texts("New Version Available"@, seq![]));
    }
    assert(same_fields(("（此版本未提供更新说明）"@, "(No release notes for this version)"@))) by {
        reveal_strlit("（此版本未提供更新说明）");
        reveal_strlit("(No release notes for this version)");
        reveal_with_fuel(fields_at, 1);
        lemma_fields_of("（此版本未提供更新说明）"@, seq![]);
        lemma_fields_of("(No release notes for this version)"@, seq![]);
        assert(field_texts("（此版本未提供更新说明）"@, seq![]) =~= field_texts("(No release notes for this version)"@, seq![]));
    }
    assert(same_fields(("正在下载更新… {p}%"@, "Downloading update… {p}%"@))) by {
        reveal_strlit("正在下载更新… {p}%");
        reveal_strlit("Downloading update… {p}%");
        reveal_with_fuel(fields_at, 2);
        lemma_fields_of("正在下载更新… {p}%"@, seq![(8int, 10int)]);
        lemma_fields_of("Downloading update… {p}%"@, seq![(20int, 22int)]);
        assert("正在下载更新… {p}%"@.subrange(9, 10) =~= "Downloading update… {p}%"@.subrange(21, 22));
        assert(field_texts("正在下载更新… {p}%"@, seq![(8int, 10int)]) =~= field_texts("Downloading update… {p}%"@, seq![(20int, 22int)]));
    }
    assert(same_fields(("下载中…"@, "Downloading…"@))) by {
        reveal_strlit("下载中…");
        reveal_strlit("Downloading…");
        reveal_with_fuel(fields_at, 1);
        lemma_fields_of("下载中…"@, seq![]);
        lemma_fields_of("Downloading…"@, seq![]);
        assert(field_texts("下载中…"@, seq![]) =~= field_texts("Downloading…"@, seq![]));
    }
    assert(same_fields(("立即更新"@, "Update Now"@))) by {
        reveal_strlit("立即更新");
        reveal_strlit("Update Now");
        reveal_with_fuel(fields_at, 1);
        lemma_fields_of("立即更新"@, seq![]);
        lemma_fields_of("Update Now"@, seq![]);
        assert(field_texts("立即更新"@, seq![]) =~= field_texts("Update Now"@, seq![]));
    }
    assert(same_fields(("前往下载"@, "Get It on GitHub"@))) by {
        reveal_strlit("前往下载");
        reveal_strlit("Get It on GitHub");
        reveal_with_fuel(fields_at, 1);
        lemma_fields_of("前往下载"@, seq![]);
        lemma_fields_of("Get It on GitHub"@, seq![]);
        assert(field_texts("前往下载"@, seq![]) =~= field_texts("Get It on GitHub"@, seq![]));
    }
    assert(same_fields(("稍后再说"@, "Later"@))) by {
        reveal_strlit("稍后再说");
        reveal_strlit("Later");
        reveal_with_fuel(fields_at, 1);
        lemma_fields_of("稍后再说"@, seq![]);
        lemma_fields_of("Later"@, seq![]);
        assert(field_texts("稍后再说"@, seq![]) =~= field_texts("Later"@, seq![]));
    }
}

/// In the texts of the video panel, both languages have the same fields.
proof fn lemma_video_panel_fields(key: Seq<char>)
    ensures
        video_panel_texts(key) matches Some(p) ==> same_fields(p),
{
    assert(same_fields(("生成模式"@, "Mode"@))) by {
        reveal_strlit("生成模式");
        reveal_strlit("Mode");
        reveal_with_fuel(fields_at, 1);
        lemma_fields_of("生成模式"@, seq![]);
        lemma_fields_of("Mode"@, seq![]);
        assert(field_texts("生成模式"@, seq![]) =~= field_texts("Mode"@, seq![]));
    }
    assert(same_fields(("文生视频"@, "Text"@))) by {
        reveal_strlit("文生视频");
        reveal_strlit("Text");
        reveal_with_fuel(fields_at, 1);
        lemma_fields_of("文生视频"@, seq![]);
        lemma_fields_of("Text"@, seq![]);
        assert(field_texts("文生视频"@, seq![]) =~= field_texts("Text"@, seq![]));
    }
    assert(same_fields(("首尾帧"@, "Keyframe"@))) by {
        reveal_strlit("首尾帧");
        reveal_strlit("Keyframe");
        reveal_with_fuel(fields_at, 1);
        lemma_fields_of("首尾帧"@, seq![]);
        lemma_fields_of("Keyframe"@, seq![]);
        assert(field_texts("首尾帧"@, seq![]) =~= field_texts("Keyframe"@, seq![]));
    }
    assert(same_fields(("参考生成"@, "Reference"@))) by {
        reveal_strlit("参考生成");
        reveal_strlit("Reference");
        reveal_with_fuel(fields_at, 1);
        lemma_fields_of("参考生成"@, seq![]);
        lemma_fields_of("Reference"@, seq![]);
        assert(field_texts("参考生成"@, seq![]) =~= field_texts("Reference"@, seq![]));
    }
    assert(same_fields(("文生视频"@, "Text"@))) by {
        reveal_strlit("文生视频");
        reveal_strlit("Text");
        reveal_with_fuel(fields_at, 1);
        lemma_fields_of("文生视频"@, seq![]);
        lemma_fields_of("Text"@, seq![]);
        assert(field_texts("文生视频"@, seq![]) =~= field_texts("Text"@, seq![]));
    }
    assert(same_fields(("图生视频"@, "Image"@))) by {
        reveal_strlit("图生视频");
        reveal_strlit("Image");
        reveal_with_fuel(fields_at, 1);
        lemma_fields_of("图生视频"@, seq![]);
        lemma_fields_of("Image"@, seq![]);
        assert(field_texts("图生视频"@, seq![]) =~= field_texts("Image"@, seq![]));
    }
    assert(same_fields(("多图视频"@, "Multi"@))) by {
        reveal_strlit("多图视频");
        reveal_strlit("Multi");
        reveal_with_fuel(fields_at, 1);
        lemma_fields_of("多图视频"@, seq![]);
        lemma_fields_of("Multi"@, seq![]);
        assert(field_texts("多图视频"@, seq![]) =~= field_texts("Multi"@, seq![]));
    }
    assert(same_fields(("关键帧"@, "Keyframes"@))) by {
        reveal_strlit("关键帧");
        reveal_strlit("Keyframes");
        reveal_with_fuel(fields_at, 1);
        lemma_fields_of("关键帧"@, seq![]);
        lemma_fields_of("Keyframes"@, seq![]);
        assert(field_texts("关键帧"@, seq![]) =~= field_texts("Keyframes"@, seq![]));
    }
    assert(same_fields(("反向提示词（可选）"@, "Negative Prompt (optional)"@))) by {
        reveal_strlit("反向提示词（可选）");
        reveal_strlit("Negative Prompt (optional)");
        reveal_with_fuel(fields_at, 1);
        lemma_fields_of("反向提示词（可选）"@, seq![]);
        lemma_fields_of("Negative Prompt (optional)"@, seq![]);
        assert(field_texts("反向提示词（可选）"@, seq![]) =~= field_texts("Negative Prompt (optional)"@, seq![]));
    }
    assert(same_fields(("需要避免的内容…"@, "Content to avoid…"@))) by {
        reveal_strlit("需要避免的内容…");
        reveal_strlit("Content to avoid…");
        reveal_with_fuel(fields_at, 1);
        lemma_fields_of("需要避免的内容…"@, seq![]);
        lemma_fields_of("Content to avoid…"@, seq![]);
        assert(field_texts("需要避免的内容…"@, seq![]) =~= field_texts("Content to avoid…"@, seq![]));
    }
    assert(same_fields(("描述视频内容：[主体与场景]+[动作与变化]+[镜头语言]+[视觉风格]+[声音]"@, "Describe the video: [subject & scene] + [motion & change] + [camera language] + [visual style] + [sound]"@))) by {
        reveal_strlit("描述视频内容：[主体与场景]+[动作与变化]+[镜头语言]+[视觉风格]+[声音]");
        reveal_strlit("Describe the video: [subject & scene] + [motion & change] + [camera language] + [visual style] + [sound]");
        reveal_with_fuel(fields_at, 1);
        lemma_fields_of("描述视频内容：[主体与场景]+[动作与变化]+[镜头语言]+[视觉风格]+[声音]"@, seq![]);
        lemma_fields_of("Describe the video: [subject & scene] + [motion & change] + [camera language] + [visual style] + [sound]"@, seq![]);
        assert(field_texts("描述视频内容：[主体与场景]+[动作与变化]+[镜头语言]+[视觉风格]+[声音]"@, seq![]) =~= field_texts("Describe the video: [subject & scene] + [motion & change] + [camera language] + [visual style] + [sound]"@, seq![]));
    }
    assert(same_fields(("描述视频内容，可用 <Picture 1>、<Audio 1>、<Video 1> 指代参考素材…"@, "Describe the video; refer to inputs as <Picture 1>, <Audio 1>, <Video 1>…"@))) by {
        reveal_strlit("描述视频内容，可用 <Picture 1>、<Audio 1>、<Video 1> 指代参考素材…");
        reveal_strlit("Describe the video; refer to inputs as <Picture 1>, <Audio 1>, <Video 1>…");
        reveal_with_fuel(fields_at, 1);
        lemma_fields_of("描述视频内容，可用 <Picture 1>、<Audio 1>、<Video 1> 指代参考素材…"@, seq![]);
        lemma_fields_of("Describe the video; refer to inputs as <Picture 1>, <Audio 1>, <Video 1>…"@, seq![]);
        assert(field_texts("描述视频内容，可用 <Picture 1>、<Audio 1>、<Video 1> 指代参考素材…"@, seq![]) =~= field_texts("Describe the video; refer to inputs as <Picture 1>, <Audio 1>, <Video 1>…"@, seq![]));
    }
    assert(same_fields(("描述视频内容，可用 <Picture 1>、<Audio 1> 指代参考素材…"@, "Describe the video; refer to inputs as <Picture 1>, <Audio 1>…"@))) by {
        reveal_strlit("描述视频内容，可用 <Picture 1>、<Audio 1> 指代参考素材…");
        reveal_strlit("Describe the video; refer to inputs as <Picture 1>, <Audio 1>…");
        reveal_with_fuel(fields_at, 1);
        lemma_fields_of("描述视频内容，可用 <Picture 1>、<Audio 1> 指代参考素材…"@, seq![]);
        lemma_fields_of("Describe the video; refer to inputs as <Picture 1>, <Audio 1>…"@, seq![]);
        assert(field_texts("描述视频内容，可用 <Picture 1>、<Audio 1> 指代参考素材…"@, seq![]) =~= field_texts("Describe the video; refer to inputs as <Picture 1>, <Audio 1>…"@, seq![]));
    }
    assert(same_fields(("首尾帧（Keyframe）"@, "Keyframes"@))) by {
        reveal_strlit("首尾帧（Keyframe）");
        reveal_strlit("Keyframes");
        reveal_with_fuel(fields_at, 1);
        lemma_fields_of("首尾帧（Keyframe）"@, seq![]);
        lemma_fields_of("Keyframes"@, seq![]);
        assert(field_texts("首尾帧（Keyframe）"@, seq![]) =~= field_texts("Keyframes"@, seq![]));
    }
    assert(same_fields(("首帧与尾帧至少提供一个；仅给首帧 = 从首帧开始演绎，仅给尾帧 = 向尾帧过渡"@, "Provide at least one of first/last frame; first only = animate from it, last only = transition toward it"@))) by {
        reveal_strlit("首帧与尾帧至少提供一个；仅给首帧 = 从首帧开始演绎，仅给尾帧 = 向尾帧过渡");
        reveal_strlit("Provide at least one of first/last frame; first only = animate from it, last only = transition toward it");
        reveal_with_fuel(fields_at, 1);
        lemma_fields_of("首帧与尾帧至少提供一个；仅给首帧 = 从首帧开始演绎，仅给尾帧 = 向尾帧过渡"@, seq![]);
        lemma_fields_of("Provide at least one of first/last frame; first only = animate from it, last only = transition toward it"@, seq![]);
        assert(field_texts("首帧与尾帧至少提供一个；仅给首帧 = 从首帧开始演绎，仅给尾帧 = 向尾帧过渡"@, seq![]) =~= field_texts("Provide at least one of first/last frame; first only = animate from it, last only = transition toward it"@, seq![]));
    }
    assert(same_fields(("首帧图片 URL"@, "First frame image URL"@))) by {
        reveal_strlit("首帧图片 URL");
        reveal_strlit("First frame image URL");
        reveal_with_fuel(fields_at, 1);
        lemma_fields_of("首帧图片 URL"@, seq![]);
        lemma_fields_of("First frame image URL"@, seq![]);
        assert(field_texts("首帧图片 URL"@, seq![]) =~= field_texts("First frame image URL"@, seq![]));
    }
    assert(same_fields(("尾帧图片 URL（可选）"@, "Last frame image URL (optional)"@))) by {
        reveal_strlit("尾帧图片 URL（可选）");
        reveal_strlit("Last frame image URL (optional)");
        reveal_with_fuel(fields_at, 1);
        lemma_fields_of("尾帧图片 URL（可选）"@, seq![]);
        lemma_fields_of("Last frame image URL (optional)"@, seq![]);
        assert(field_texts("尾帧图片 URL（可选）"@, seq![]) =~= field_texts("Last frame image URL (optional)"@, seq![]));
    }
    assert(same_fields(("参考素材（Reference）"@, "References"@))) by {
        reveal_strlit("参考素材（Reference）");
        reveal_strlit("References");
        reveal_with_fuel(fields_at, 1);
        lemma_fields_of("参考素材（Reference）"@, seq![]);
        lemma_fields_of("References"@, seq![]);
        assert(field_texts("参考素材（Reference）"@, seq![]) =~= field_texts("References"@, seq![]));
    }
    assert(same_fields(("图片 / 音频 / 视频 URL 需公网可访问；提示词中用 <Picture 1>、<Audio 1>、<Video 1> 指代"@, "Image / audio / video URLs must be publicly accessible; refer to them as <Picture 1>, <Audio 1>, <Video 1>"@))) by {
        reveal_strlit("图片 / 音频 / 视频 URL 需公网可访问；提示词中用 <Picture 1>、<Audio 1>、<Video 1> 指代");
        reveal_strlit("Image / audio / video URLs must be publicly accessible; refer to them as <Picture 1>, <Audio 1>, <Video 1>");
        reveal_with_fuel(fields_at, 1);
        lemma_fields_of("图片 / 音频 / 视频 URL 需公网可访问；提示词中用 <Picture 1>、<Audio 1>、<Video 1> 指代"@, seq![]);
        lemma_fields_of("Image / audio / video URLs must be publicly accessible; refer to them as <Picture 1>, <Audio 1>, <Video 1>"@, seq![]);
        assert(field_texts("图片 / 音频 / 视频 URL 需公网可访问；提示词中用 <Picture 1>、<Audio 1>、<Video 1> 指代"@, seq![]) =~= field_texts("Image / audio / video URLs must be publicly accessible; refer to them as <Picture 1>, <Audio 1>, <Video 1>"@, seq![]));
    }
    assert(same_fields(("图片 / 音频 URL 需公网可访问；Flash 版图片参考最多 5 张、不支持视频参考；提示词中用 <Picture 1>、<Audio 1> 指代"@, "Image / audio URLs must be publicly accessible; Flash allows up to 5 reference images and no video; refer to them as <Picture 1>, <Audio 1>"@))) by {
        reveal_strlit("图片 / 音频 URL 需公网可访问；Flash 版图片参考最多 5 张、不支持视频参考；提示词中用 <Picture 1>、<Audio 1> 指代");
        reveal_strlit("Image / audio URLs must be publicly accessible; Flash allows up to 5 reference images and no video; refer to them as <Picture 1>, <Audio 1>");
        reveal_with_fuel(fields_at, 1);
        lemma_fields_of("图片 / 音频 URL 需公网可访问；Flash 版图片参考最多 5 张、不支持视频参考；提示词中用 <Picture 1>、<Audio 1> 指代"@, seq![]);
        lemma_fields_of("Image / audio URLs must be publicly accessible; Flash allows up to 5 reference images and no video; refer to them as <Picture 1>, <Audio 1>"@, seq![]);
        assert(field_texts("图片 / 音频 URL 需公网可访问；Flash 版图片参考最多 5 张、不支持视频参考；提示词中用 <Picture 1>、<Audio 1> 指代"@, seq![]) =~= field_texts("Image / audio URLs must be publicly accessible; Flash allows up to 5 reference images and no video; refer to them as <Picture 1>, <Audio 1>"@, seq![]));
    }
    assert(same_fields(("＋ 图片"@, "＋ Image"@))) by {
        reveal_strlit("＋ 图片");
        reveal_strlit("＋ Image");
        reveal_with_fuel(fields_at, 1);
        lemma_fields_of("＋ 图片"@, seq![]);
        lemma_fields_of("＋ Image"@, seq![]);
        assert(field_texts("＋ 图片"@, seq![]) =~= field_texts("＋ Image"@, seq![]));
    }
    assert(same_fields(("＋ 音频"@, "＋ Audio"@))) by {
        reveal_strlit("＋ 音频");
        reveal_strlit("＋ Audio");
        reveal_with_fuel(fields_at, 1);
        lemma_fields_of("＋ 音频"@, seq![]);
        lemma_fields_of("＋ Audio"@, seq![]);
        assert(field_texts("＋ 音频"@, seq![]) =~= field_texts("＋ Audio"@, seq![]));
    }
    assert(same_fields(("＋ 视频"@, "＋ Video"@))) by {
        reveal_strlit("＋ 视频");
        reveal_strlit("＋ Video");
        reveal_with_fuel(fields_at, 1);
        lemma_fields_of("＋ 视频"@, seq![]);
        lemma_fields_of("＋ Video"@, seq![]);
        assert(field_texts("＋ 视频"@, seq![]) =~= field_texts("＋ Video"@, seq![]));
    }
    assert(same_fields(("图 #{n}"@, "IMG #{n}"@))) by {
        reveal_strlit("图 #{n}");
        reveal_strlit("IMG #{n}");
        reveal_with_fuel(fields_at, 2);
        lemma_fields_of("图 #{n}"@, seq![(3int, 5int)]);
        lemma_fields_of("IMG #{n}"@, seq![(5int, 7int)]);
        assert("图 #{n}"@.subrange(4, 5) =~= "IMG #{n}"@.subrange(6, 7));
        assert(field_texts("图 #{n}"@, seq![(3int, 5int)]) =~= field_texts("IMG #{n}"@, seq![(5int, 7int)]));
    }
    assert(same_fields(("音 #{n}"@, "AUD #{n}"@))) by {
        reveal_strlit("音 #{n}");
        reveal_strlit("AUD #{n}");
        reveal_with_fuel(fields_at, 2);
        lemma_fields_of("音 #{n}"@, seq![(3int, 5int)]);
        lemma_fields_of("AUD #{n}"@, seq![(5int, 7int)]);
        assert("音 #{n}"@.subrange(4, 5) =~= "AUD #{n}"@.subrange(6, 7));
        assert(field_texts("音 #{n}"@, seq![(3int, 5int)]) =~= field_texts("AUD #{n}"@, seq![(5int, 7int)]));
    }
    assert(same_fields(("视 #{n}"@, "VID #{n}"@))) by {
        reveal_strlit("视 #{n}");
        reveal_strlit("VID #{n}");
        reveal_with_fuel(fields_at, 2);
        lemma_fields_of("视 #{n}"@, seq![(3int, 5int)]);
        lemma_fields_of("VID #{n}"@, seq![(5int, 7int)]);
        assert("视 #{n}"@.subrange(4, 5) =~= "VID #{n}"@.subrange(6, 7));
        assert(field_texts("视 #{n}"@, seq![(3int, 5int)]) =~= field_texts("VID #{n}"@, seq![(5int, 7int)]));
    }
    assert(same_fields(("画幅与时长"@, "Format & Duration"@))) by {
        reveal_strlit("画幅与时长");
        reveal_strlit("Format & Duration");
        reveal_with_fuel(fields_at, 1);
        lemma_fields_of("画幅与时长"@, seq![]);
        lemma_fields_of("Format & Duration"@, seq![]);
        assert(field_texts("画幅与时长"@, seq![]) =~= field_texts("Format & Duration"@, seq![]));
    }
    assert(same_fields(("画幅比例（分辨率 720P）"@, "Aspect ratio (720P)"@))) by {
        reveal_strlit("画幅比例（分辨率 720P）");
        reveal_strlit("Aspect ratio (720P)");
        reveal_with_fuel(fields_at, 1);
        lemma_fields_of("画幅比例（分辨率 720P）"@, seq![]);
        lemma_fields_of("Aspect ratio (720P)"@, seq![]);
        assert(field_texts("画幅比例（分辨率 720P）"@, seq![]) =~= field_texts("Aspect ratio (720P)"@, seq![]));
    }
    assert(same_fields(("时长"@, "Duration"@))) by {
        reveal_strlit("时长");
        reveal_strlit("Duration");
        reveal_with_fuel(fields_at, 1);
        lemma_fields_of("时长"@, seq![]);
        lemma_fields_of("Duration"@, seq![]);
        assert(field_texts("时长"@, seq![]) =~= field_texts("Duration"@, seq![]));
    }
    assert(same_fields(("约 {s} 秒"@, "~{s}s"@))) by {
        reveal_strlit("约 {s} 秒");
        reveal_strlit("~{s}s");
        reveal_with_fuel(fields_at, 2);
        lemma_fields_of("约 {s} 秒"@, seq![(2int, 4int)]);
        lemma_fields_of("~{s}s"@, seq![(1int, 3int)]);
        assert("约 {s} 秒"@.subrange(3, 4) =~= "~{s}s"@.subrange(2, 3));
        assert(field_texts("约 {s} 秒"@, seq![(2int, 4int)]) =~= field_texts("~{s}s"@, seq![(1int, 3int)]));
    }
    assert(same_fields(("输入图片 URL"@, "Image URLs"@))) by {
        reveal_strlit("输入图片 URL");
        reveal_strlit("Image URLs");
        reveal_with_fuel(fields_at, 1);
        lemma_fields_of("输入图片 URL"@, seq![]);
        lemma_fields_of("Image URLs"@, seq![]);
        assert(field_texts("输入图片 URL"@, seq![]) =~= field_texts("Image URLs"@, seq![]));
    }
    assert(same_fields(("视频 API 需要公网可访问的图片 URL（不支持本地文件）"@, "The video API needs publicly accessible image URLs (local files are not supported)"@))) by {
        reveal_strlit("视频 API 需要公网可访问的图片 URL（不支持本地文件）");
        reveal_strlit("The video API needs publicly accessible image URLs (local files are not supported)");
        reveal_with_fuel(fields_at, 1);
        lemma_fields_of("视频 API 需要公网可访问的图片 URL（不支持本地文件）"@, seq![]);
        lemma_fields_of("The video API needs publicly accessible image URLs (local files are not supported)"@, seq![]);
        assert(field_texts("视频 API 需要公网可访问的图片 URL（不支持本地文件）"@, seq![]) =~= field_texts("The video API needs publicly accessible image URLs (local files are not supported)"@, seq![]));
    }
    assert(same_fields(("添加"@, "Add"@))) by {
        reveal_strlit("添加");
        reveal_strlit("Add");
        reveal_with_fuel(fields_at, 1);
        lemma_fields_of("添加"@, seq![]);
        lemma_fields_of("Add"@, seq![]);
        assert(field_texts("添加"@, seq![]) =~= field_texts("Add"@, seq![]));
    }
    assert(same_fields(("画面尺寸"@, "Frame Size"@))) by {
        reveal_strlit("画面尺寸");
        reveal_strlit("Frame Size");
        reveal_with_fuel(fields_at, 1);
        lemma_fields_of("画面尺寸"@, seq![]);
        lemma_fields_of("Frame Size"@, seq![]);
        assert(field_texts("画面尺寸"@, seq![]) =~= field_texts("Frame Size"@, seq![]));
    }
    assert(same_fields(("当前：{w}×{h}（API 会自动归档到 480p/720p/1080p）"@, "Current: {w}×{h} (snapped to 480p/720p/1080p)"@))) by {
        reveal_strlit("当前：{w}×{h}（API 会自动归档到 480p/720p/1080p）");
        reveal_strlit("Current: {w}×{h} (snapped to 480p/720p/1080p)");
        reveal_with_fuel(fields_at, 3);
        lemma_fields_of("当前：{w}×{h}（API 会自动归档到 480p/720p/1080p）"@, seq![(3int, 5int), (7int, 9int)]);
        lemma_fields_of("Current: {w}×{h} (snapped to 480p/720p/1080p)"@, seq![(9int, 11int), (13int, 15int)]);
        assert("当前：{w}×{h}（API 会自动归档到 480p/720p/1080p）"@.subrange(4, 5) =~= "Current: {w}×{h} (snapped to 480p/720p/1080p)"@.subrange(10, 11));
        assert("当前：{w}×{h}（API 会自动归档到 480p/720p/1080p）"@.subrange(8, 9) =~= "Current: {w}×{h} (snapped to 480p/720p/1080p)"@.subrange(14, 15));
        assert(field_texts("当前：{w}×{h}（API 会自动归档到 480p/720p/1080p）"@, seq![(3int, 5int), (7int, 9int)]) =~= field_texts("Current: {w}×{h} (snapped to 480p/720p/1080p)"@, seq![(9int, 11int), (13int, 15int)]));
    }
    assert(same_fields(("时长"@, "Duration"@))) by {
        reveal_strlit("时长");
        reveal_strlit("Duration");
        reveal_with_fuel(fields_at, 1);
        lemma_fields_of("时长"@, seq![]);
        lemma_fields_of("Duration"@, seq![]);
        assert(field_texts("时长"@, seq![]) =~= field_texts("Duration"@, seq![]));
    }
    assert(same_fields(("预计时长：{s} 秒（num_frames 需为 8n+1，≤441）"@, "Est. duration: {s}s (num_frames must be 8n+1, ≤441)"@))) by {
        reveal_strlit("预计时长：{s} 秒（num_frames 需为 8n+1，≤441）");
        reveal_strlit("Est. duration: {s}s (num_frames must be 8n+1, ≤441)");
        reveal_with_fuel(fields_at, 2);
        lemma_fields_of("预计时长：{s} 秒（num_frames 需为 8n+1，≤441）"@, seq![(5int, 7int)]);
        lemma_fields_of("Est. duration: {s}s (num_frames must be 8n+1, ≤441)"@, seq![(15int, 17int)]);
        assert("预计时长：{s} 秒（num_frames 需为 8n+1，≤441）"@.subrange(6, 7) =~= "Est. duration: {s}s (num_frames must be 8n+1, ≤441)"@.subrange(16, 17));
        assert(field_texts("预计时长：{s} 秒（num_frames 需为 8n+1，≤441）"@, seq![(5int, 7int)]) =~= field_texts("Est. duration: {s}s (num_frames must be 8n+1, ≤441)"@, seq![(15int, 17int)]));
    }
    assert(same_fields(("帧 @ 24fps"@, "frames @ 24fps"@))) by {
        reveal_strlit("帧 @ 24fps");
        reveal_strlit("frames @ 24fps");
        reveal_with_fuel(fields_at, 1);
        lemma_fields_of("帧 @ 24fps"@, seq![]);
        lemma_fields_of("frames @ 24fps"@, seq![]);
        assert(field_texts("帧 @ 24fps"@, seq![]) =~= field_texts("frames @ 24fps"@, seq![]));
    }
    assert(same_fields(("生成视频"@, "Generate Video"@))) by {
        reveal_strlit("生成视频");
        reveal_strlit("Generate Video");
        reveal_with_fuel(fields_at, 1);
        lemma_fields_of("生成视频"@, seq![]);
        lemma_fields_of("Generate Video"@, seq![]);
        assert(field_texts("生成视频"@, seq![]) =~= field_texts("Generate Video"@, seq![]));
    }
    assert(same_fields(("· {size} · {model} · {sec}秒"@, "· {size} · {model} · {sec}s"@))) by {
        reveal_strlit("· {size} · {model} · {sec}秒");
        reveal_strlit("· {size} · {model} · {sec}s");
        reveal_with_fuel(fields_at, 4);
        lemma_fields_of("· {size} · {model} · {sec}秒"@, seq![(2int, 7int), (11int, 17int), (21int, 25int)]);
        lemma_fields_of("· {size} · {model} · {sec}s"@, seq![(2int, 7int), (11int, 17int), (21int, 25int)]);
        assert("· {size} · {model} · {sec}秒"@.subrange(3, 7) =~= "· {size} · {model} · {sec}s"@.subrange(3, 7));
        assert("· {size} · {model} · {sec}秒"@.subrange(12, 17) =~= "· {size} · {model} · {sec}s"@.subrange(12, 17));
        assert("· {size} · {model} · {sec}秒"@.subrange(22, 25) =~= "· {size} · {model} · {sec}s"@.subrange(22, 25));
        assert(field_texts("· {size} · {model} · {sec}秒"@, seq![(2int, 7int), (11int, 17int), (21int, 25int)]) =~= field_texts("· {size} · {model} · {sec}s"@, seq![(2int, 7int), (11int, 17int), (21int, 25int)]));
    }
}

/// In the texts of the video status, both languages have the same fields.
proof fn lemma_video_status_fields(key: Seq<char>)
    ensures
        video_status_texts(key) matches Some(p) ==> same_fields(p),
{
    assert(same_fields(("提交任务中…"@, "Submitting task…"@))) by {
        reveal_strlit("提交任务中…");
        reveal_strlit("Submitting task…");
        reveal_with_fuel(fields_at, 1);
        lemma_fields_of("提交任务中…"@, seq![]);
        lemma_fields_of("Submitting task…"@, seq![]);
        assert(field_texts("提交任务中…"@, seq![]) =~= field_texts("Submitting task…"@, seq![]));
    }
    assert(same_fields(("任务已创建，等待生成…"@, "Task created, waiting…"@))) by {
        reveal_strlit("任务已创建，等待生成…");
        reveal_strlit("Task created, waiting…");
        reveal_with_fuel(fields_at, 1);
        lemma_fields_of("任务已创建，等待生成…"@, seq![]);
        lemma_fields_of("Task created, waiting…"@, seq![]);
        assert(field_texts("任务已创建，等待生成…"@, seq![]) =~= field_texts("Task created, waiting…"@, seq![]));
    }
    assert(same_fields(("正在下载视频…"@, "Downloading video…"@))) by {
        reveal_strlit("正在下载视频…");
        reveal_strlit("Downloading video…");
        reveal_with_fuel(fields_at, 1);
        lemma_fields_of("正在下载视频…"@, seq![]);
        lemma_fields_of("Downloading video…"@, seq![]);
        assert(field_texts("正在下载视频…"@, seq![]) =~= field_texts("Downloading video…"@, seq![]));
    }
    assert(same_fields(("下载完成"@, "Download complete"@))) by {
        reveal_strlit("下载完成");
        reveal_strlit("Download complete");
        reveal_with_fuel(fields_at, 1);
        lemma_fields_of("下载完成"@, seq![]);
        lemma_fields_of("Download complete"@, seq![]);
        assert(field_texts("下载完成"@, seq![]) =~= field_texts("Download complete"@, seq![]));
    }
    assert(same_fields(("生成完成"@, "Generation complete"@))) by {
        reveal_strlit("生成完成");
        reveal_strlit("Generation complete");
        reveal_with_fuel(fields_at, 1);
        lemma_fields_of("生成完成"@, seq![]);
        lemma_fields_of("Generation complete"@, seq![]);
        assert(field_texts("生成完成"@, seq![]) =~= field_texts("Generation complete"@, seq![]));
    }
    assert(same_fields(("排队中…"@, "Queued…"@))) by {
        reveal_strlit("排队中…");
        reveal_strlit("Queued…");
        reveal_with_fuel(fields_at, 1);
        lemma_fields_of("排队中…"@, seq![]);
        lemma_fields_of("Queued…"@, seq![]);
        assert(field_texts("排队中…"@, seq![]) =~= field_texts("Queued…"@, seq![]));
    }
    assert(same_fields(("生成中…"@, "Generating…"@))) by {
        reveal_strlit("生成中…");
        reveal_strlit("Generating…");
        reveal_with_fuel(fields_at, 1);
        lemma_fields_of("生成中…"@, seq![]);
        lemma_fields_of("Generating…"@, seq![]);
        assert(field_texts("生成中…"@, seq![]) =~= field_texts("Generating…"@, seq![]));
    }
    assert(same_fields(("生成失败"@, "Generation failed"@))) by {
        reveal_strlit("生成失败");
        reveal_strlit("Generation failed");
        reveal_with_fuel(fields_at, 1);
        lemma_fields_of("生成失败"@, seq![]);
        lemma_fields_of("Generation failed"@, seq![]);
        assert(field_texts("生成失败"@, seq![]) =~= field_texts("Generation failed"@, seq![]));
    }
    assert(same_fields(("查询限流，{n} 秒后重试…"@, "Rate limited, retrying in {n}s…"@))) by {
        reveal_strlit("查询限流，{n} 秒后重试…");
        reveal_strlit("Rate limited, retrying in {n}s…");
        reveal_with_fuel(fields_at, 2);
        lemma_fields_of("查询限流，{n} 秒后重试…"@, seq![(5int, 7int)]);
        lemma_fields_of("Rate limited, retrying in {n}s…"@, seq![(26int, 28int)]);
        assert("查询限流，{n} 秒后重试…"@.subrange(6, 7) =~= "Rate limited, retrying in {n}s…"@.subrange(27, 28));
        assert(field_texts("查询限流，{n} 秒后重试…"@, seq![(5int, 7int)]) =~= field_texts("Rate limited, retrying in {n}s…"@, seq![(26int, 28int)]));
    }
    assert(same_fields(("查询失败，{n} 秒后重试…"@, "Query failed, retrying in {n}s…"@))) by {
        reveal_strlit("查询失败，{n} 秒后重试…");
        reveal_strlit("Query failed, retrying in {n}s…");
        reveal_with_fuel(fields_at, 2);
        lemma_fields_of("查询失败，{n} 秒后重试…"@, seq![(5int, 7int)]);
        lemma_fields_of("Query failed, retrying in {n}s…"@, seq![(26int, 28int)]);
        assert("查询失败，{n} 秒后重试…"@.subrange(6, 7) =~= "Query failed, retrying in {n}s…"@.subrange(27, 28));
        assert(field_texts("查询失败，{n} 秒后重试…"@, seq![(5int, 7int)]) =~= field_texts("Query failed, retrying in {n}s…"@, seq![(26int, 28int)]));
    }
    assert(same_fields(("任务完成但未返回视频地址"@, "Task completed but no video URL was returned"@))) by {
        reveal_strlit("任务完成但未返回视频地址");
        reveal_strlit("Task completed but no video URL was returned");
        reveal_with_fuel(fields_at, 1);
        lemma_fields_of("任务完成但未返回视频地址"@, seq![]);
        lemma_fields_of("Task completed but no video URL was returned"@, seq![]);
        assert(field_texts("任务完成但未返回视频地址"@, seq![]) =~= field_texts("Task completed but no video URL was returned"@, seq![]));
    }
}

/// In the texts of the video main, both languages have the same fields.
proof fn lemma_video_main_fields(key: Seq<char>)
    ensures
        video_main_texts(key) matches Some(p) ==> same_fields(p),
{
    assert(same_fields(("视频生成"@, "Video Generation"@))) by {
        reveal_strlit("视频生成");
        reveal_strlit("Video Generation");
        reveal_with_fuel(fields_at, 1);
        lemma_fields_of("视频生成"@, seq![]);
        lemma_fields_of("Video Generation"@, seq![]);
        assert(field_texts("视频生成"@, seq![]) =~= field_texts("Video Generation"@, seq![]));
    }
    assert(same_fields(("在左侧输入提示词，选择尺寸与时长后点击「生成视频」"@, "Enter a prompt, pick size and duration on the left, then click \"Generate Video\""@))) by {
        reveal_strlit("在左侧输入提示词，选择尺寸与时长后点击「生成视频」");
        reveal_strlit("Enter a prompt, pick size and duration on the left, then click \"Generate Video\"");
        reveal_with_fuel(fields_at, 1);
        lemma_fields_of("在左侧输入提示词，选择尺寸与时长后点击「生成视频」"@, seq![]);
        lemma_fields_of("Enter a prompt, pick size and duration on the left, then click \"Generate Video\""@, seq![]);
        assert(field_texts("在左侧输入提示词，选择尺寸与时长后点击「生成视频」"@, seq![]) =~= field_texts("Enter a prompt, pick size and duration on the left, then click \"Generate Video\""@, seq![]));
    }
    assert(same_fields(("视频生成通常需要 1~5 分钟，请耐心等待"@, "Video generation usually takes 1–5 minutes"@))) by {
        reveal_strlit("视频生成通常需要 1~5 分钟，请耐心等待");
        reveal_strlit("Video generation usually takes 1–5 minutes");
        reveal_with_fuel(fields_at, 1);
        lemma_fields_of("视频生成通常需要 1~5 分钟，请耐心等待"@, seq![]);
        lemma_fields_of("Video generation usually takes 1–5 minutes"@, seq![]);
        assert(field_texts("视频生成通常需要 1~5 分钟，请耐心等待"@, seq![]) =~= field_texts("Video generation usually takes 1–5 minutes"@, seq![]));
    }
    assert(same_fields(("已用时 {s} 秒 · {p}%"@, "Elapsed {s}s · {p}%"@))) by {
        reveal_strlit("已用时 {s} 秒 · {p}%");
        reveal_strlit("Elapsed {s}s · {p}%");
        reveal_with_fuel(fields_at, 3);
        lemma_fields_of("已用时 {s} 秒 · {p}%"@, seq![(4int, 6int), (12int, 14int)]);
        lemma_fields_of("Elapsed {s}s · {p}%"@, seq![(8int, 10int), (15int, 17int)]);
        assert("已用时 {s} 秒 · {p}%"@.subrange(5, 6) =~= "Elapsed {s}s · {p}%"@.subrange(9, 10));
        assert("已用时 {s} 秒 · {p}%"@.subrange(13, 14) =~= "Elapsed {s}s · {p}%"@.subrange(16, 17));
        assert(field_texts("已用时 {s} 秒 · {p}%"@, seq![(4int, 6int), (12int, 14int)]) =~= field_texts("Elapsed {s}s · {p}%"@, seq![(8int, 10int), (15int, 17int)]));
    }
}

/// In the texts of the validation, both languages have the same fields.
proof fn lemma_validation_fields(key: Seq<char>)
    ensures
        validation_texts(key) matches Some(p) ==> same_fields(p),
{
    assert(same_fields(("未设置 API Key，请点击右上角 ⚙ 打开设置并填写。"@, "No API Key set. Click ⚙ in the top-right corner to open Settings and add one."@))) by {
        reveal_strlit("未设置 API Key，请点击右上角 ⚙ 打开设置并填写。");
        reveal_strlit("No API Key set. Click ⚙ in the top-right corner to open Settings and add one.");
        reveal_with_fuel(fields_at, 1);
        lemma_fields_of("未设置 API Key，请点击右上角 ⚙ 打开设置并填写。"@, seq![]);
        lemma_fields_of("No API Key set. Click ⚙ in the top-right corner to open Settings and add one."@, seq![]);
        assert(field_texts("未设置 API Key，请点击右上角 ⚙ 打开设置并填写。"@, seq![]) =~= field_texts("No API Key set. Click ⚙ in the top-right corner to open Settings and add one."@, seq![]));
    }
    assert(same_fields(("提示词不能为空。"@, "Prompt cannot be empty."@))) by {
        reveal_strlit("提示词不能为空。");
        reveal_strlit("Prompt cannot be empty.");
        reveal_with_fuel(fields_at, 1);
        lemma_fields_of("提示词不能为空。"@, seq![]);
        lemma_fields_of("Prompt cannot be empty."@, seq![]);
        assert(field_texts("提示词不能为空。"@, seq![]) =~= field_texts("Prompt cannot be empty."@, seq![]));
    }
    assert(same_fields(("图生图模式下需要提供输入图片。"@, "Image-to-image mode requires an input image."@))) by {
        reveal_strlit("图生图模式下需要提供输入图片。");
        reveal_strlit("Image-to-image mode requires an input image.");
        reveal_with_fuel(fields_at, 1);
        lemma_fields_of("图生图模式下需要提供输入图片。"@, seq![]);
        lemma_fields_of("Image-to-image mode requires an input image."@, seq![]);
        assert(field_texts("图生图模式下需要提供输入图片。"@, seq![]) =~= field_texts("Image-to-image mode requires an input image."@, seq![]));
    }
    assert(same_fields(("无法生成"@, "Cannot Generate"@))) by {
        reveal_strlit("无法生成");
        reveal_strlit("Cannot Generate");
        reveal_with_fuel(fields_at, 1);
        lemma_fields_of("无法生成"@, seq![]);
        lemma_fields_of("Cannot Generate"@, seq![]);
        assert(field_texts("无法生成"@, seq![]) =~= field_texts("Cannot Generate"@, seq![]));
    }
    assert(same_fields(("⚙ 打开设置"@, "⚙ Open Settings"@))) by {
        reveal_strlit("⚙ 打开设置");
        reveal_strlit("⚙ Open Settings");
        reveal_with_fuel(fields_at, 1);
        lemma_fields_of("⚙ 打开设置"@, seq![]);
        lemma_fields_of("⚙ Open Settings"@, seq![]);
        assert(field_texts("⚙ 打开设置"@, seq![]) =~= field_texts("⚙ Open Settings"@, seq![]));
    }
    assert(same_fields(("知道了"@, "Got It"@))) by {
        reveal_strlit("知道了");
        reveal_strlit("Got It");
        reveal_with_fuel(fields_at, 1);
        lemma_fields_of("知道了"@, seq![]);
        lemma_fields_of("Got It"@, seq![]);
        assert(field_texts("知道了"@, seq![]) =~= field_texts("Got It"@, seq![]));
    }
    assert(same_fields(("首尾帧模式至少需要提供首帧或尾帧图片 URL"@, "Keyframe mode needs at least a first or last frame image URL"@))) by {
        reveal_strlit("首尾帧模式至少需要提供首帧或尾帧图片 URL");
        reveal_strlit("Keyframe mode needs at least a first or last frame image URL");
        reveal_with_fuel(fields_at, 1);
        lemma_fields_of("首尾帧模式至少需要提供首帧或尾帧图片 URL"@, seq![]);
        lemma_fields_of("Keyframe mode needs at least a first or last frame image URL"@, seq![]);
        assert(field_texts("首尾帧模式至少需要提供首帧或尾帧图片 URL"@, seq![]) =~= field_texts("Keyframe mode needs at least a first or last frame image URL"@, seq![]));
    }
    assert(same_fields(("参考生成模式至少需要一种参考素材（图片 / 音频 / 视频）"@, "Reference mode needs at least one reference (image / audio / video)"@))) by {
        reveal_strlit("参考生成模式至少需要一种参考素材（图片 / 音频 / 视频）");
        reveal_strlit("Reference mode needs at least one reference (image / audio / video)");
        reveal_with_fuel(fields_at, 1);
        lemma_fields_of("参考生成模式至少需要一种参考素材（图片 / 音频 / 视频）"@, seq![]);
        lemma_fields_of("Reference mode needs at least one reference (image / audio / video)"@, seq![]);
        assert(field_texts("参考生成模式至少需要一种参考素材（图片 / 音频 / 视频）"@, seq![]) =~= field_texts("Reference mode needs at least one reference (image / audio / video)"@, seq![]));
    }
    assert(same_fields(("Flash 版参考图片最多 5 张（当前已添加超出，请移除多余的图片）"@, "Flash allows at most 5 reference images; remove the extras"@))) by {
        reveal_strlit("Flash 版参考图片最多 5 张（当前已添加超出，请移除多余的图片）");
        reveal_strlit("Flash allows at most 5 reference images; remove the extras");
        reveal_with_fuel(fields_at, 1);
        lemma_fields_of("Flash 版参考图片最多 5 张（当前已添加超出，请移除多余的图片）"@, seq![]);
        lemma_fields_of("Flash allows at most 5 reference images; remove the extras"@, seq![]);
        assert(field_texts("Flash 版参考图片最多 5 张（当前已添加超出，请移除多余的图片）"@, seq![]) =~= field_texts("Flash allows at most 5 reference images; remove the extras"@, seq![]));
    }
    assert(same_fields(("Flash 版不支持视频参考素材，请移除视频或切换到 Agnes Video 2.5"@, "Flash does not support video references; remove them or switch to Agnes Video 2.5"@))) by {
        reveal_strlit("Flash 版不支持视频参考素材，请移除视频或切换到 Agnes Video 2.5");
        reveal_strlit("Flash does not support video references; remove them or switch to Agnes Video 2.5");
        reveal_with_fuel(fields_at, 1);
        lemma_fields_of("Flash 版不支持视频参考素材，请移除视频或切换到 Agnes Video 2.5"@, seq![]);
        lemma_fields_of("Flash does not support video references; remove them or switch to Agnes Video 2.5"@, seq![]);
        assert(field_texts("Flash 版不支持视频参考素材，请移除视频或切换到 Agnes Video 2.5"@, seq![]) =~= field_texts("Flash does not support video references; remove them or switch to Agnes Video 2.5"@, seq![]));
    }
    assert(same_fields(("图生视频需要 1 张图片 URL"@, "Image-to-video needs 1 image URL"@))) by {
        reveal_strlit("图生视频需要 1 张图片 URL");
        reveal_strlit("Image-to-video needs 1 image URL");
        reveal_with_fuel(fields_at, 1);
        lemma_fields_of("图生视频需要 1 张图片 URL"@, seq![]);
        lemma_fields_of("Image-to-video needs 1 image URL"@, seq![]);
        assert(field_texts("图生视频需要 1 张图片 URL"@, seq![]) =~= field_texts("Image-to-video needs 1 image URL"@, seq![]));
    }
    assert(same_fields(("该模式至少需要 2 张图片 URL"@, "This mode needs at least 2 image URLs"@))) by {
        reveal_strlit("该模式至少需要 2 张图片 URL");
        reveal_strlit("This mode needs at least 2 image URLs");
        reveal_with_fuel(fields_at, 1);
        lemma_fields_of("该模式至少需要 2 张图片 URL"@, seq![]);
        lemma_fields_of("This mode needs at least 2 image URLs"@, seq![]);
        assert(field_texts("该模式至少需要 2 张图片 URL"@, seq![]) =~= field_texts("This mode needs at least 2 image URLs"@, seq![]));
    }
}

/// In the texts of the notice, both languages have the same fields.
proof fn lemma_notice_fields(key: Seq<char>)
    ensures
        notice_texts(key) matches Some(p) ==> same_fields(p),
{
    assert(same_fields(("已保存：{p}"@, "Saved: {p}"@))) by {
        reveal_strlit("已保存：{p}");
        reveal_strlit("Saved: {p}");
        reveal_with_fuel(fields_at, 2);
        lemma_fields_of("已保存：{p}"@, seq![(4int, 6int)]);
        lemma_fields_of("Saved: {p}"@, seq![(7int, 9int)]);
        assert("已保存：{p}"@.subrange(5, 6) =~= "Saved: {p}"@.subrange(8, 9));
        assert(field_texts("已保存：{p}"@, seq![(4int, 6int)]) =~= field_texts("Saved: {p}"@, seq![(7int, 9int)]));
    }
    assert(same_fields(("保存失败：{e}"@, "Save failed: {e}"@))) by {
        reveal_strlit("保存失败：{e}");
        reveal_strlit("Save failed: {e}");
        reveal_with_fuel(fields_at, 2);
        lemma_fields_of("保存失败：{e}"@, seq![(5int, 7int)]);
        lemma_fields_of("Save failed: {e}"@, seq![(13int, 15int)]);
        assert("保存失败：{e}"@.subrange(6, 7) =~= "Save failed: {e}"@.subrange(14, 15));
        assert(field_texts("保存失败：{e}"@, seq![(5int, 7int)]) =~= field_texts("Save failed: {e}"@, seq![(13int, 15int)]));
    }
    assert(same_fields(("创建目录失败"@, "Failed to create directory"@))) by {
        reveal_strlit("创建目录失败");
        reveal_strlit("Failed to create directory");
        reveal_with_fuel(fields_at, 1);
        lemma_fields_of("创建目录失败"@, seq![]);
        lemma_fields_of("Failed to create directory"@, seq![]);
        assert(field_texts("创建目录失败"@, seq![]) =~= field_texts("Failed to create directory"@, seq![]));
    }
    assert(same_fields(("本地缓存无效，正在重新下载视频…"@, "Local cache invalid, re-downloading video…"@))) by {
        reveal_strlit("本地缓存无效，正在重新下载视频…");
        reveal_strlit("Local cache invalid, re-downloading video…");
        reveal_with_fuel(fields_at, 1);
        lemma_fields_of("本地缓存无效，正在重新下载视频…"@, seq![]);
        lemma_fields_of("Local cache invalid, re-downloading video…"@, seq![]);
        assert(field_texts("本地缓存无效，正在重新下载视频…"@, seq![]) =~= field_texts("Local cache invalid, re-downloading video…"@, seq![]));
    }
    assert(same_fields(("视频地址为空，无法保存"@, "Video URL is empty, cannot save"@))) by {
        reveal_strlit("视频地址为空，无法保存");
        reveal_strlit("Video URL is empty, cannot save");
        reveal_with_fuel(fields_at, 1);
        lemma_fields_of("视频地址为空，无法保存"@, seq![]);
        lemma_fields_of("Video URL is empty, cannot save"@, seq![]);
        assert(field_texts("视频地址为空，无法保存"@, seq![]) =~= field_texts("Video URL is empty, cannot save"@, seq![]));
    }
}

/// Every interface text has the same `{…}` placeholders, in the same
/// order, in Chinese and in English, so `tf` fills the same fields in both.
pub proof fn lemma_texts_same_fields(key: Seq<char>)
    ensures
        texts(key) matches Some(p) ==> same_fields(p),
{
    lemma_top_bar_fields(key);
    lemma_card_title_fields(key);
    lemma_image_panel_fields(key);
    lemma_settings_fields(key);
    lemma_image_main_fields(key);
    lemma_history_fields(key);
    lemma_preview_fields(key);
    lemma_update_dialog_fields(key);
    lemma_video_panel_fields(key);
    lemma_video_status_fields(key);
    lemma_video_main_fields(key);
    lemma_validation_fields(key);
    lemma_notice_fields(key);
}


// ---------------------------------------------------------------------------
// Languages of the texts
// ---------------------------------------------------------------------------

/// A character of the CJK blocks (radicals, punctuation, kana and Han
/// ideographs: U+2E80 to U+9FFF).
pub open spec fn is_cjk(c: char) -> bool {
    0x2E80 <= (c as u32) && (c as u32) <= 0x9FFF
}

/// Whether a text holds a CJK character.
pub open spec fn has_cjk(s: Seq<char>) -> bool {
    exists|i: int| 0 <= i < s.len() && #[trigger] is_cjk(s[i])
}

/// The first text of a pair is Chinese and the second English: the English
/// text holds no CJK character, the Chinese one holds some unless both
/// languages use the same text.
pub open spec fn chinese_then_english(p: (Seq<char>, Seq<char>)) -> bool {
    &&& !has_cjk(p.1)
    &&& (p.0 == p.1 || has_cjk(p.0))
}

/// In the texts of the top bar, the Chinese text comes first and the English second.
proof fn lemma_top_bar_languages(key: Seq<char>)
    ensures
        top_bar_texts(key) matches Some(p) ==> chinese_then_english(p),
{
    assert(chinese_then_english(("图片"@, "Image"@))) by {
        reveal_strlit("图片");
        reveal_strlit("Image");
        assert(forall|i: int| 0 <= i < "Image"@.len() ==> !is_cjk(#[trigger] "Image"@[i]));
        assert(is_cjk("图片"@[0]));
    }
    assert(chinese_then_english(("视频"@, "Video"@))) by {
        reveal_strlit("视频");
        reveal_strlit("Video");
        assert(forall|i: int| 0 <= i < "Video"@.len() ==> !is_cjk(#[trigger] "Video"@[i]));
        assert(is_cjk("视频"@[0]));
    }
    assert(chinese_then_english(("Agnes 官网"@, "Agnes Website"@))) by {
        reveal_strlit("Agnes 官网");
        reveal_strlit("Agnes Website");
        assert(forall|i: int| 0 <= i < "Agnes Website"@.len() ==> !is_cjk(#[trigger] "Agnes Website"@[i]));
        assert(is_cjk("Agnes 官网"@[6]));
    }
    assert(chinese_then_english(("API Key 已就绪"@, "API Key ready"@))) by {
        reveal_strlit("API Key 已就绪");
        reveal_strlit("API Key ready");
        assert(forall|i: int| 0 <= i < "API Key ready"@.len() ==> !is_cjk(#[trigger] "API Key ready"@[i]));
        assert(is_cjk("API Key 已就绪"@[8]));
    }
    assert(chinese_then_english(("未设置 API Key"@, "API Key not set"@))) by {
        reveal_strlit("未设置 API Key");
        reveal_strlit("API Key not set");
        assert(forall|i: int| 0 <= i < "API Key not set"@.len() ==> !is_cjk(#[trigger] "API Key not set"@[i]));
        assert(is_cjk("未设置 API Key"@[0]));
    }
    assert(chinese_then_english(("国际站"@, "International"@))) by {
        reveal_strlit("国际站");
        reveal_strlit("International");
        assert(forall|i: int| 0 <= i < "International"@.len() ==> !is_cjk(#[trigger] "International"@[i]));
        assert(is_cjk("国际站"@[0]));
    }
    assert(chinese_then_english(("国内站"@, "China"@))) by {
        reveal_strlit("国内站");
        reveal_strlit("China");
        assert(forall|i: int| 0 <= i < "China"@.len() ==> !is_cjk(#[trigger] "China"@[i]));
        assert(is_cjk("国内站"@[0]));
    }
    assert(chinese_then_english(("免费"@, "Free"@))) by {
        reveal_strlit("免费");
        reveal_strlit("Free");
        assert(forall|i: int| 0 <= i < "Free"@.len() ==> !is_cjk(#[trigger] "Free"@[i]));
        assert(is_cjk("免费"@[0]));
    }
    assert(chinese_then_english(("企业"@, "Enterprise"@))) by {
        reveal_strlit("企业");
        reveal_strlit("Enterprise");
        assert(forall|i: int| 0 <= i < "Enterprise"@.len() ==> !is_cjk(#[trigger] "Enterprise"@[i]));
        assert(is_cjk("企业"@[0]));
    }
    assert(chinese_then_english(("Token Plan"@, "Token Plan"@))) by {
        reveal_strlit("Token Plan");
        reveal_strlit("Token Plan");
        assert(forall|i: int| 0 <= i < "Token Plan"@.len() ==> !is_cjk(#[trigger] "Token Plan"@[i]));
        assert("Token Plan"@ =~= "Token Plan"@);
    }
    assert(chinese_then_english(("启用"@, "Activate"@))) by {
        reveal_strlit("启用");
        reveal_strlit("Activate");
        assert(forall|i: int| 0 <= i < "Activate"@.len() ==> !is_cjk(#[trigger] "Activate"@[i]));
        assert(is_cjk("启用"@[0]));
    }
    assert(chinese_then_english(("✓ 使用中"@, "✓ Active"@))) by {
        reveal_strlit("✓ 使用中");
        reveal_strlit("✓ Active");
        assert(forall|i: int| 0 <= i < "✓ Active"@.len() ==> !is_cjk(#[trigger] "✓ Active"@[i]));
        assert(is_cjk("✓ 使用中"@[2]));
    }
    assert(chinese_then_english(("生成中"@, "Generating"@))) by {
        reveal_strlit("生成中");
        reveal_strlit("Generating");
        assert(forall|i: int| 0 <= i < "Generating"@.len() ==> !is_cjk(#[trigger] "Generating"@[i]));
        assert(is_cjk("生成中"@[0]));
    }
    assert(chinese_then_english(("有新版本 v{v}"@, "New version v{v}"@))) by {
        reveal_strlit("有新版本 v{v}");
        reveal_strlit("New version v{v}");
        assert(forall|i: int| 0 <= i < "New version v{v}"@.len() ==> !is_cjk(#[trigger] "New version v{v}"@[i]));
        assert(is_cjk("有新版本 v{v}"@[0]));
    }
}

/// In the texts of the card title, the Chinese text comes first and the English second.
proof fn lemma_card_title_languages(key: Seq<char>)
    ensures
        card_title_texts(key) matches Some(p) ==> chinese_then_english(p),
{
    assert(chinese_then_english(("模型"@, "Model"@))) by {
        reveal_strlit("模型");
        reveal_strlit("Model");
        assert(forall|i: int| 0 <= i < "Model"@.len() ==> !is_cjk(#[trigger] "Model"@[i]));
        assert(is_cjk("模型"@[0]));
    }
    assert(chinese_then_english(("模式"@, "Mode"@))) by {
        reveal_strlit("模式");
        reveal_strlit("Mode");
        assert(forall|i: int| 0 <= i < "Mode"@.len() ==> !is_cjk(#[trigger] "Mode"@[i]));
        assert(is_cjk("模式"@[0]));
    }
    assert(chinese_then_english(("提示词"@, "Prompt"@))) by {
        reveal_strlit("提示词");
        reveal_strlit("Prompt");
        assert(forall|i: int| 0 <= i < "Prompt"@.len() ==> !is_cjk(#[trigger] "Prompt"@[i]));
        assert(is_cjk("提示词"@[0]));
    }
    assert(chinese_then_english(("尺寸"@, "Size"@))) by {
        reveal_strlit("尺寸");
        reveal_strlit("Size");
        assert(forall|i: int| 0 <= i < "Size"@.len() ==> !is_cjk(#[trigger] "Size"@[i]));
        assert(is_cjk("尺寸"@[0]));
    }
    assert(chinese_then_english(("档位"@, "Tier"@))) by {
        reveal_strlit("档位");
        reveal_strlit("Tier");
        assert(forall|i: int| 0 <= i < "Tier"@.len() ==> !is_cjk(#[trigger] "Tier"@[i]));
        assert(is_cjk("档位"@[0]));
    }
    assert(chinese_then_english(("宽高比"@, "Aspect Ratio"@))) by {
        reveal_strlit("宽高比");
        reveal_strlit("Aspect Ratio");
        assert(forall|i: int| 0 <= i < "Aspect Ratio"@.len() ==> !is_cjk(#[trigger] "Aspect Ratio"@[i]));
        assert(is_cjk("宽高比"@[0]));
    }
    assert(chinese_then_english(("输出格式"@, "Output Format"@))) by {
        reveal_strlit("输出格式");
        reveal_strlit("Output Format");
        assert(forall|i: int| 0 <= i < "Output Format"@.len() ==> !is_cjk(#[trigger] "Output Format"@[i]));
        assert(is_cjk("输出格式"@[0]));
    }
    assert(chinese_then_english(("输入图片"@, "Input Image"@))) by {
        reveal_strlit("输入图片");
        reveal_strlit("Input Image");
        assert(forall|i: int| 0 <= i < "Input Image"@.len() ==> !is_cjk(#[trigger] "Input Image"@[i]));
        assert(is_cjk("输入图片"@[0]));
    }
}

/// In the texts of the image panel, the Chinese text comes first and the English second.
proof fn lemma_image_panel_languages(key: Seq<char>)
    ensures
        image_panel_texts(key) matches Some(p) ==> chinese_then_english(p),
{
    assert(chinese_then_english(("文生图"@, "Text to Image"@))) by {
        reveal_strlit("文生图");
        reveal_strlit("Text to Image");
        assert(forall|i: int| 0 <= i < "Text to Image"@.len() ==> !is_cjk(#[trigger] "Text to Image"@[i]));
        assert(is_cjk("文生图"@[0]));
    }
    assert(chinese_then_english(("图生图"@, "Image to Image"@))) by {
        reveal_strlit("图生图");
        reveal_strlit("Image to Image");
        assert(forall|i: int| 0 <= i < "Image to Image"@.len() ==> !is_cjk(#[trigger] "Image to Image"@[i]));
        assert(is_cjk("图生图"@[0]));
    }
    assert(chinese_then_english(("描述你想生成或编辑的图像…"@, "Describe the image you want to generate or edit…"@))) by {
        reveal_strlit("描述你想生成或编辑的图像…");
        reveal_strlit("Describe the image you want to generate or edit…");
        assert(forall|i: int| 0 <= i < "Describe the image you want to generate or edit…"@.len() ==> !is_cjk(#[trigger] "Describe the image you want to generate or edit…"@[i]));
        assert(is_cjk("描述你想生成或编辑的图像…"@[0]));
    }
    assert(chinese_then_english(("本地文件"@, "Local File"@))) by {
        reveal_strlit("本地文件");
        reveal_strlit("Local File");
        assert(forall|i: int| 0 <= i < "Local File"@.len() ==> !is_cjk(#[trigger] "Local File"@[i]));
        assert(is_cjk("本地文件"@[0]));
    }
    assert(chinese_then_english(("图片 URL"@, "Image URL"@))) by {
        reveal_strlit("图片 URL");
        reveal_strlit("Image URL");
        assert(forall|i: int| 0 <= i < "Image URL"@.len() ==> !is_cjk(#[trigger] "Image URL"@[i]));
        assert(is_cjk("图片 URL"@[0]));
    }
    assert(chinese_then_english(("选择图片…"@, "Choose Image…"@))) by {
        reveal_strlit("选择图片…");
        reveal_strlit("Choose Image…");
        assert(forall|i: int| 0 <= i < "Choose Image…"@.len() ==> !is_cjk(#[trigger] "Choose Image…"@[i]));
        assert(is_cjk("选择图片…"@[0]));
    }
    assert(chinese_then_english(("清除"@, "Clear"@))) by {
        reveal_strlit("清除");
        reveal_strlit("Clear");
        assert(forall|i: int| 0 <= i < "Clear"@.len() ==> !is_cjk(#[trigger] "Clear"@[i]));
        assert(is_cjk("清除"@[0]));
    }
    assert(chinese_then_english(("未选择图片"@, "No image selected"@))) by {
        reveal_strlit("未选择图片");
        reveal_strlit("No image selected");
        assert(forall|i: int| 0 <= i < "No image selected"@.len() ==> !is_cjk(#[trigger] "No image selected"@[i]));
        assert(is_cjk("未选择图片"@[0]));
    }
    assert(chinese_then_english(("生成图像"@, "Generate Image"@))) by {
        reveal_strlit("生成图像");
        reveal_strlit("Generate Image");
        assert(forall|i: int| 0 <= i < "Generate Image"@.len() ==> !is_cjk(#[trigger] "Generate Image"@[i]));
        assert(is_cjk("生成图像"@[0]));
    }
    assert(chinese_then_english(("生成中…"@, "Generating…"@))) by {
        reveal_strlit("生成中…");
        reveal_strlit("Generating…");
        assert(forall|i: int| 0 <= i < "Generating…"@.len() ==> !is_cjk(#[trigger] "Generating…"@[i]));
        assert(is_cjk("生成中…"@[0]));
    }
    assert(chinese_then_english(("输出约 {exact}（{size} · {ratio}）"@, "Output ≈ {exact} ({size} · {ratio})"@))) by {
        reveal_strlit("输出约 {exact}（{size} · {ratio}）");
        reveal_strlit("Output ≈ {exact} ({size} · {ratio})");
        assert(forall|i: int| 0 <= i < "Output ≈ {exact} ({size} · {ratio})"@.len() ==> !is_cjk(#[trigger] "Output ≈ {exact} ({size} · {ratio})"@[i]));
        assert(is_cjk("输出约 {exact}（{size} · {ratio}）"@[0]));
    }
    assert(chinese_then_english(("当前：{s}"@, "Current: {s}"@))) by {
        reveal_strlit("当前：{s}");
        reveal_strlit("Current: {s}");
        assert(forall|i: int| 0 <= i < "Current: {s}"@.len() ==> !is_cjk(#[trigger] "Current: {s}"@[i]));
        assert(is_cjk("当前：{s}"@[0]));
    }
    assert(chinese_then_english(("{t} 档"@, "{t}"@))) by {
        reveal_strlit("{t} 档");
        reveal_strlit("{t}");
        assert(forall|i: int| 0 <= i < "{t}"@.len() ==> !is_cjk(#[trigger] "{t}"@[i]));
        assert(is_cjk("{t} 档"@[4]));
    }
}

/// In the texts of the settings, the Chinese text comes first and the English second.
proof fn lemma_settings_languages(key: Seq<char>)
    ensures
        settings_texts(key) matches Some(p) ==> chinese_then_english(p),
{
    assert(chinese_then_english(("👁 显示"@, "👁 Show"@))) by {
        reveal_strlit("👁 显示");
        reveal_strlit("👁 Show");
        assert(forall|i: int| 0 <= i < "👁 Show"@.len() ==> !is_cjk(#[trigger] "👁 Show"@[i]));
        assert(is_cjk("👁 显示"@[2]));
    }
    assert(chinese_then_english(("🙈 隐藏"@, "🙈 Hide"@))) by {
        reveal_strlit("🙈 隐藏");
        reveal_strlit("🙈 Hide");
        assert(forall|i: int| 0 <= i < "🙈 Hide"@.len() ==> !is_cjk(#[trigger] "🙈 Hide"@[i]));
        assert(is_cjk("🙈 隐藏"@[2]));
    }
    assert(chinese_then_english(("国际站（.com · 美元计费）"@, "International (.com · USD)"@))) by {
        reveal_strlit("国际站（.com · 美元计费）");
        reveal_strlit("International (.com · USD)");
        assert(forall|i: int| 0 <= i < "International (.com · USD)"@.len() ==> !is_cjk(#[trigger] "International (.com · USD)"@[i]));
        assert(is_cjk("国际站（.com · 美元计费）"@[0]));
    }
    assert(chinese_then_english(("国内站（.cn · 人民币计费）"@, "China (.cn · CNY)"@))) by {
        reveal_strlit("国内站（.cn · 人民币计费）");
        reveal_strlit("China (.cn · CNY)");
        assert(forall|i: int| 0 <= i < "China (.cn · CNY)"@.len() ==> !is_cjk(#[trigger] "China (.cn · CNY)"@[i]));
        assert(is_cjk("国内站（.cn · 人民币计费）"@[0]));
    }
    assert(chinese_then_english(("官网申请 ↗"@, "Get a Key ↗"@))) by {
        reveal_strlit("官网申请 ↗");
        reveal_strlit("Get a Key ↗");
        assert(forall|i: int| 0 <= i < "Get a Key ↗"@.len() ==> !is_cjk(#[trigger] "Get a Key ↗"@[i]));
        assert(is_cjk("官网申请 ↗"@[0]));
    }
    assert(chinese_then_english(("两站模型能力一致，仅接口地址不同（国际站美元、国内站人民币计费），账户与余额互不互通。每站可保存 3 类密钥，点击「启用」切换当前使用的密钥——同一时刻仅一个生效，不同类型使用不同的限制池。"@, "Both sites offer identical models and differ only in API endpoint (USD on .com, CNY on .cn); accounts and balances are separate. Each site can store 3 key types — click \"Activate\" to switch the key in use. Only one is active at a time; each type has its own rate-limit pool."@))) by {
        reveal_strlit("两站模型能力一致，仅接口地址不同（国际站美元、国内站人民币计费），账户与余额互不互通。每站可保存 3 类密钥，点击「启用」切换当前使用的密钥——同一时刻仅一个生效，不同类型使用不同的限制池。");
        reveal_strlit("Both sites offer identical models and differ only in API endpoint (USD on .com, CNY on .cn); accounts and balances are separate. Each site can store 3 key types — click \"Activate\" to switch the key in use. Only one is active at a time; each type has its own rate-limit pool.");
        assert(forall|i: int| 0 <= i < "Both sites offer identical models and differ only in API endpoint (USD on .com, CNY on .cn); accounts and balances are separate. Each site can store 3 key types — click \"Activate\" to switch the key in use. Only one is active at a time; each type has its own rate-limit pool."@.len() ==> !is_cjk(#[trigger] "Both sites offer identical models and differ only in API endpoint (USD on .com, CNY on .cn); accounts and balances are separate. Each site can store 3 key types — click \"Activate\" to switch the key in use. Only one is active at a time; each type has its own rate-limit pool."@[i]));
        assert(is_cjk("两站模型能力一致，仅接口地址不同（国际站美元、国内站人民币计费），账户与余额互不互通。每站可保存 3 类密钥，点击「启用」切换当前使用的密钥——同一时刻仅一个生效，不同类型使用不同的限制池。"@[0]));
    }
    assert(chinese_then_english(("免费 / 默认密钥"@, "Free / Default key"@))) by {
        reveal_strlit("免费 / 默认密钥");
        reveal_strlit("Free / Default key");
        assert(forall|i: int| 0 <= i < "Free / Default key"@.len() ==> !is_cjk(#[trigger] "Free / Default key"@[i]));
        assert(is_cjk("免费 / 默认密钥"@[0]));
    }
    assert(chinese_then_english(("企业认证密钥"@, "Enterprise key"@))) by {
        reveal_strlit("企业认证密钥");
        reveal_strlit("Enterprise key");
        assert(forall|i: int| 0 <= i < "Enterprise key"@.len() ==> !is_cjk(#[trigger] "Enterprise key"@[i]));
        assert(is_cjk("企业认证密钥"@[0]));
    }
    assert(chinese_then_english(("Token Plan 密钥"@, "Token Plan key"@))) by {
        reveal_strlit("Token Plan 密钥");
        reveal_strlit("Token Plan key");
        assert(forall|i: int| 0 <= i < "Token Plan key"@.len() ==> !is_cjk(#[trigger] "Token Plan key"@[i]));
        assert(is_cjk("Token Plan 密钥"@[11]));
    }
    assert(chinese_then_english(("模型速率限制"@, "Model Rate Limits"@))) by {
        reveal_strlit("模型速率限制");
        reveal_strlit("Model Rate Limits");
        assert(forall|i: int| 0 <= i < "Model Rate Limits"@.len() ==> !is_cjk(#[trigger] "Model Rate Limits"@[i]));
        assert(is_cjk("模型速率限制"@[0]));
    }
    assert(chinese_then_english(("速率限制"@, "Rate Limits"@))) by {
        reveal_strlit("速率限制");
        reveal_strlit("Rate Limits");
        assert(forall|i: int| 0 <= i < "Rate Limits"@.len() ==> !is_cjk(#[trigger] "Rate Limits"@[i]));
        assert(is_cjk("速率限制"@[0]));
    }
    assert(chinese_then_english(("保存目录"@, "Save Directory"@))) by {
        reveal_strlit("保存目录");
        reveal_strlit("Save Directory");
        assert(forall|i: int| 0 <= i < "Save Directory"@.len() ==> !is_cjk(#[trigger] "Save Directory"@[i]));
        assert(is_cjk("保存目录"@[0]));
    }
    assert(chinese_then_english(("浏览"@, "Browse"@))) by {
        reveal_strlit("浏览");
        reveal_strlit("Browse");
        assert(forall|i: int| 0 <= i < "Browse"@.len() ==> !is_cjk(#[trigger] "Browse"@[i]));
        assert(is_cjk("浏览"@[0]));
    }
    assert(chinese_then_english(("保存设置"@, "Save Settings"@))) by {
        reveal_strlit("保存设置");
        reveal_strlit("Save Settings");
        assert(forall|i: int| 0 <= i < "Save Settings"@.len() ==> !is_cjk(#[trigger] "Save Settings"@[i]));
        assert(is_cjk("保存设置"@[0]));
    }
    assert(chinese_then_english(("恢复默认"@, "Reset Defaults"@))) by {
        reveal_strlit("恢复默认");
        reveal_strlit("Reset Defaults");
        assert(forall|i: int| 0 <= i < "Reset Defaults"@.len() ==> !is_cjk(#[trigger] "Reset Defaults"@[i]));
        assert(is_cjk("恢复默认"@[0]));
    }
    assert(chinese_then_english(("主题"@, "Theme"@))) by {
        reveal_strlit("主题");
        reveal_strlit("Theme");
        assert(forall|i: int| 0 <= i < "Theme"@.len() ==> !is_cjk(#[trigger] "Theme"@[i]));
        assert(is_cjk("主题"@[0]));
    }
    assert(chinese_then_english(("浅色"@, "Light"@))) by {
        reveal_strlit("浅色");
        reveal_strlit("Light");
        assert(forall|i: int| 0 <= i < "Light"@.len() ==> !is_cjk(#[trigger] "Light"@[i]));
        assert(is_cjk("浅色"@[0]));
    }
    assert(chinese_then_english(("深色"@, "Dark"@))) by {
        reveal_strlit("深色");
        reveal_strlit("Dark");
        assert(forall|i: int| 0 <= i < "Dark"@.len() ==> !is_cjk(#[trigger] "Dark"@[i]));
        assert(is_cjk("深色"@[0]));
    }
    assert(chinese_then_english(("跟随系统"@, "System"@))) by {
        reveal_strlit("跟随系统");
        reveal_strlit("System");
        assert(forall|i: int| 0 <= i < "System"@.len() ==> !is_cjk(#[trigger] "System"@[i]));
        assert(is_cjk("跟随系统"@[0]));
    }
    assert(chinese_then_english(("界面语言"@, "Language"@))) by {
        reveal_strlit("界面语言");
        reveal_strlit("Language");
        assert(forall|i: int| 0 <= i < "Language"@.len() ==> !is_cjk(#[trigger] "Language"@[i]));
        assert(is_cjk("界面语言"@[0]));
    }
    assert(chinese_then_english(("版本 v{v}"@, "Version v{v}"@))) by {
        reveal_strlit("版本 v{v}");
        reveal_strlit("Version v{v}");
        assert(forall|i: int| 0 <= i < "Version v{v}"@.len() ==> !is_cjk(#[trigger] "Version v{v}"@[i]));
        assert(is_cjk("版本 v{v}"@[0]));
    }
    assert(chinese_then_english(("检查更新"@, "Check for Updates"@))) by {
        reveal_strlit("检查更新");
        reveal_strlit("Check for Updates");
        assert(forall|i: int| 0 <= i < "Check for Updates"@.len() ==> !is_cjk(#[trigger] "Check for Updates"@[i]));
        assert(is_cjk("检查更新"@[0]));
    }
    assert(chinese_then_english(("检查中…"@, "Checking…"@))) by {
        reveal_strlit("检查中…");
        reveal_strlit("Checking…");
        assert(forall|i: int| 0 <= i < "Checking…"@.len() ==> !is_cjk(#[trigger] "Checking…"@[i]));
        assert(is_cjk("检查中…"@[0]));
    }
    assert(chinese_then_english(("当前已是最新版本"@, "You are on the latest version"@))) by {
        reveal_strlit("当前已是最新版本");
        reveal_strlit("You are on the latest version");
        assert(forall|i: int| 0 <= i < "You are on the latest version"@.len() ==> !is_cjk(#[trigger] "You are on the latest version"@[i]));
        assert(is_cjk("当前已是最新版本"@[0]));
    }
    assert(chinese_then_english(("设置已保存"@, "Settings saved"@))) by {
        reveal_strlit("设置已保存");
        reveal_strlit("Settings saved");
        assert(forall|i: int| 0 <= i < "Settings saved"@.len() ==> !is_cjk(#[trigger] "Settings saved"@[i]));
        assert(is_cjk("设置已保存"@[0]));
    }
    assert(chinese_then_english(("设置"@, "Settings"@))) by {
        reveal_strlit("设置");
        reveal_strlit("Settings");
        assert(forall|i: int| 0 <= i < "Settings"@.len() ==> !is_cjk(#[trigger] "Settings"@[i]));
        assert(is_cjk("设置"@[0]));
    }
    assert(chinese_then_english(("完成"@, "Done"@))) by {
        reveal_strlit("完成");
        reveal_strlit("Done");
        assert(forall|i: int| 0 <= i < "Done"@.len() ==> !is_cjk(#[trigger] "Done"@[i]));
        assert(is_cjk("完成"@[0]));
    }
}

/// In the texts of the image main, the Chinese text comes first and the English second.
proof fn lemma_image_main_languages(key: Seq<char>)
    ensures
        image_main_texts(key) matches Some(p) ==> chinese_then_english(p),
{
    assert(chinese_then_english(("可能需要数秒到数十秒，请稍候"@, "This usually takes seconds to a minute"@))) by {
        reveal_strlit("可能需要数秒到数十秒，请稍候");
        reveal_strlit("This usually takes seconds to a minute");
        assert(forall|i: int| 0 <= i < "This usually takes seconds to a minute"@.len() ==> !is_cjk(#[trigger] "This usually takes seconds to a minute"@[i]));
        assert(is_cjk("可能需要数秒到数十秒，请稍候"@[0]));
    }
    assert(chinese_then_english(("欢迎使用 AgnesStudio"@, "Welcome to AgnesStudio"@))) by {
        reveal_strlit("欢迎使用 AgnesStudio");
        reveal_strlit("Welcome to AgnesStudio");
        assert(forall|i: int| 0 <= i < "Welcome to AgnesStudio"@.len() ==> !is_cjk(#[trigger] "Welcome to AgnesStudio"@[i]));
        assert(is_cjk("欢迎使用 AgnesStudio"@[0]));
    }
    assert(chinese_then_english(("在左侧输入提示词后点击「生成图像」"@, "Enter a prompt on the left, then click \"Generate Image\""@))) by {
        reveal_strlit("在左侧输入提示词后点击「生成图像」");
        reveal_strlit("Enter a prompt on the left, then click \"Generate Image\"");
        assert(forall|i: int| 0 <= i < "Enter a prompt on the left, then click \"Generate Image\""@.len() ==> !is_cjk(#[trigger] "Enter a prompt on the left, then click \"Generate Image\""@[i]));
        assert(is_cjk("在左侧输入提示词后点击「生成图像」"@[0]));
    }
    assert(chinese_then_english(("已用时 {s} 秒"@, "Elapsed {s}s"@))) by {
        reveal_strlit("已用时 {s} 秒");
        reveal_strlit("Elapsed {s}s");
        assert(forall|i: int| 0 <= i < "Elapsed {s}s"@.len() ==> !is_cjk(#[trigger] "Elapsed {s}s"@[i]));
        assert(is_cjk("已用时 {s} 秒"@[0]));
    }
    assert(chinese_then_english(("🔄 重新生成"@, "🔄 Regenerate"@))) by {
        reveal_strlit("🔄 重新生成");
        reveal_strlit("🔄 Regenerate");
        assert(forall|i: int| 0 <= i < "🔄 Regenerate"@.len() ==> !is_cjk(#[trigger] "🔄 Regenerate"@[i]));
        assert(is_cjk("🔄 重新生成"@[2]));
    }
    assert(chinese_then_english(("🌐 打开原图"@, "🌐 Open Original"@))) by {
        reveal_strlit("🌐 打开原图");
        reveal_strlit("🌐 Open Original");
        assert(forall|i: int| 0 <= i < "🌐 Open Original"@.len() ==> !is_cjk(#[trigger] "🌐 Open Original"@[i]));
        assert(is_cjk("🌐 打开原图"@[2]));
    }
    assert(chinese_then_english(("🌐 打开原视频"@, "🌐 Open Original"@))) by {
        reveal_strlit("🌐 打开原视频");
        reveal_strlit("🌐 Open Original");
        assert(forall|i: int| 0 <= i < "🌐 Open Original"@.len() ==> !is_cjk(#[trigger] "🌐 Open Original"@[i]));
        assert(is_cjk("🌐 打开原视频"@[2]));
    }
    assert(chinese_then_english(("💾 保存"@, "💾 Save"@))) by {
        reveal_strlit("💾 保存");
        reveal_strlit("💾 Save");
        assert(forall|i: int| 0 <= i < "💾 Save"@.len() ==> !is_cjk(#[trigger] "💾 Save"@[i]));
        assert(is_cjk("💾 保存"@[2]));
    }
    assert(chinese_then_english(("提示词"@, "Prompt"@))) by {
        reveal_strlit("提示词");
        reveal_strlit("Prompt");
        assert(forall|i: int| 0 <= i < "Prompt"@.len() ==> !is_cjk(#[trigger] "Prompt"@[i]));
        assert(is_cjk("提示词"@[0]));
    }
}

/// In the texts of the history, the Chinese text comes first and the English second.
proof fn lemma_history_languages(key: Seq<char>)
    ensures
        history_texts(key) matches Some(p) ==> chinese_then_english(p),
{
    assert(chinese_then_english(("历史记录 {n}"@, "History {n}"@))) by {
        reveal_strlit("历史记录 {n}");
        reveal_strlit("History {n}");
        assert(forall|i: int| 0 <= i < "History {n}"@.len() ==> !is_cjk(#[trigger] "History {n}"@[i]));
        assert(is_cjk("历史记录 {n}"@[0]));
    }
    assert(chinese_then_english(("视频历史 {n}"@, "Video History {n}"@))) by {
        reveal_strlit("视频历史 {n}");
        reveal_strlit("Video History {n}");
        assert(forall|i: int| 0 <= i < "Video History {n}"@.len() ==> !is_cjk(#[trigger] "Video History {n}"@[i]));
        assert(is_cjk("视频历史 {n}"@[0]));
    }
}

/// In the texts of the preview, the Chinese text comes first and the English second.
proof fn lemma_preview_languages(key: Seq<char>)
    ensures
        preview_texts(key) matches Some(p) ==> chinese_then_english(p),
{
    assert(chinese_then_english(("原图预览 {w}×{h}"@, "Preview {w}×{h}"@))) by {
        reveal_strlit("原图预览 {w}×{h}");
        reveal_strlit("Preview {w}×{h}");
        assert(forall|i: int| 0 <= i < "Preview {w}×{h}"@.len() ==> !is_cjk(#[trigger] "Preview {w}×{h}"@[i]));
        assert(is_cjk("原图预览 {w}×{h}"@[0]));
    }
    assert(chinese_then_english(("滚轮以中心缩放 · 放大后可拖动查看 · 双击图片或点击百分比复位 · 点击空白处关闭"@, "Scroll to zoom from center · drag to pan when zoomed · double-click to reset · click the backdrop to close"@))) by {
        reveal_strlit("滚轮以中心缩放 · 放大后可拖动查看 · 双击图片或点击百分比复位 · 点击空白处关闭");
        reveal_strlit("Scroll to zoom from center · drag to pan when zoomed · double-click to reset · click the backdrop to close");
        assert(forall|i: int| 0 <= i < "Scroll to zoom from center · drag to pan when zoomed · double-click to reset · click the backdrop to close"@.len() ==> !is_cjk(#[trigger] "Scroll to zoom from center · drag to pan when zoomed · double-click to reset · click the backdrop to close"@[i]));
        assert(is_cjk("滚轮以中心缩放 · 放大后可拖动查看 · 双击图片或点击百分比复位 · 点击空白处关闭"@[0]));
    }
    assert(chinese_then_english(("缩小"@, "Zoom out"@))) by {
        reveal_strlit("缩小");
        reveal_strlit("Zoom out");
        assert(forall|i: int| 0 <= i < "Zoom out"@.len() ==> !is_cjk(#[trigger] "Zoom out"@[i]));
        assert(is_cjk("缩小"@[0]));
    }
    assert(chinese_then_english(("放大"@, "Zoom in"@))) by {
        reveal_strlit("放大");
        reveal_strlit("Zoom in");
        assert(forall|i: int| 0 <= i < "Zoom in"@.len() ==> !is_cjk(#[trigger] "Zoom in"@[i]));
        assert(is_cjk("放大"@[0]));
    }
    assert(chinese_then_english(("复位到 100%"@, "Reset to 100%"@))) by {
        reveal_strlit("复位到 100%");
        reveal_strlit("Reset to 100%");
        assert(forall|i: int| 0 <= i < "Reset to 100%"@.len() ==> !is_cjk(#[trigger] "Reset to 100%"@[i]));
        assert(is_cjk("复位到 100%"@[0]));
    }
    assert(chinese_then_english(("关闭"@, "Close"@))) by {
        reveal_strlit("关闭");
        reveal_strlit("Close");
        assert(forall|i: int| 0 <= i < "Close"@.len() ==> !is_cjk(#[trigger] "Close"@[i]));
        assert(is_cjk("关闭"@[0]));
    }
}

/// In the texts of the update dialog, the Chinese text comes first and the English second.
proof fn lemma_update_dialog_languages(key: Seq<char>)
    ensures
        update_dialog_texts(key) matches Some(p) ==> chinese_then_english(p),
{
    assert(chinese_then_english(("发现新版本"@, "New Version Available"@))) by {
        reveal_strlit("发现新版本");
        reveal_strlit("New Version Available");
        assert(forall|i: int| 0 <= i < "New Version Available"@.len() ==> !is_cjk(#[trigger] "New Version Available"@[i]));
        assert(is_cjk("发现新版本"@[0]));
    }
    assert(chinese_then_english(("（此版本未提供更新说明）"@, "(No release notes for this version)"@))) by {
        reveal_strlit("（此版本未提供更新说明）");
        reveal_strlit("(No release notes for this version)");
        assert(forall|i: int| 0 <= i < "(No release notes for this version)"@.len() ==> !is_cjk(#[trigger] "(No release notes for this version)"@[i]));
        assert(is_cjk("（此版本未提供更新说明）"@[1]));
    }
    assert(chinese_then_english(("正在下载更新… {p}%"@, "Downloading update… {p}%"@))) by {
        reveal_strlit("正在下载更新… {p}%");
        reveal_strlit("Downloading update… {p}%");
        assert(forall|i: int| 0 <= i < "Downloading update… {p}%"@.len() ==> !is_cjk(#[trigger] "Downloading update… {p}%"@[i]));
        assert(is_cjk("正在下载更新… {p}%"@[0]));
    }
    assert(chinese_then_english(("下载中…"@, "Downloading…"@))) by {
        reveal_strlit("下载中…");
        reveal_strlit("Downloading…");
        assert(forall|i: int| 0 <= i < "Downloading…"@.len() ==> !is_cjk(#[trigger] "Downloading…"@[i]));
        assert(is_cjk("下载中…"@[0]));
    }
    assert(chinese_then_english(("立即更新"@, "Update Now"@))) by {
        reveal_strlit("立即更新");
        reveal_strlit("Update Now");
        assert(forall|i: int| 0 <= i < "Update Now"@.len() ==> !is_cjk(#[trigger] "Update Now"@[i]));
        assert(is_cjk("立即更新"@[0]));
    }
    assert(chinese_then_english(("前往下载"@, "Get It on GitHub"@))) by {
        reveal_strlit("前往下载");
        reveal_strlit("Get It on GitHub");
        assert(forall|i: int| 0 <= i < "Get It on GitHub"@.len() ==> !is_cjk(#[trigger] "Get It on GitHub"@[i]));
        assert(is_cjk("前往下载"@[0]));
    }
    assert(chinese_then_english(("稍后再说"@, "Later"@))) by {
        reveal_strlit("稍后再说");
        reveal_strlit("Later");
        assert(forall|i: int| 0 <= i < "Later"@.len() ==> !is_cjk(#[trigger] "Later"@[i]));
        assert(is_cjk("稍后再说"@[0]));
    }
}

/// In the texts of the video panel, the Chinese text comes first and the English second.
proof fn lemma_video_panel_languages(key: Seq<char>)
    ensures
        video_panel_texts(key) matches Some(p) ==> chinese_then_english(p),
{
    assert(chinese_then_english(("生成模式"@, "Mode"@))) by {
        reveal_strlit("生成模式");
        reveal_strlit("Mode");
        assert(forall|i: int| 0 <= i < "Mode"@.len() ==> !is_cjk(#[trigger] "Mode"@[i]));
        assert(is_cjk("生成模式"@[0]));
    }
    assert(chinese_then_english(("文生视频"@, "Text"@))) by {
        reveal_strlit("文生视频");
        reveal_strlit("Text");
        assert(forall|i: int| 0 <= i < "Text"@.len() ==> !is_cjk(#[trigger] "Text"@[i]));
        assert(is_cjk("文生视频"@[0]));
    }
    assert(chinese_then_english(("首尾帧"@, "Keyframe"@))) by {
        reveal_strlit("首尾帧");
        reveal_strlit("Keyframe");
        assert(forall|i: int| 0 <= i < "Keyframe"@.len() ==> !is_cjk(#[trigger] "Keyframe"@[i]));
        assert(is_cjk("首尾帧"@[0]));
    }
    assert(chinese_then_english(("参考生成"@, "Reference"@))) by {
        reveal_strlit("参考生成");
        reveal_strlit("Reference");
        assert(forall|i: int| 0 <= i < "Reference"@.len() ==> !is_cjk(#[trigger] "Reference"@[i]));
        assert(is_cjk("参考生成"@[0]));
    }
    assert(chinese_then_english(("文生视频"@, "Text"@))) by {
        reveal_strlit("文生视频");
        reveal_strlit("Text");
        assert(forall|i: int| 0 <= i < "Text"@.len() ==> !is_cjk(#[trigger] "Text"@[i]));
        assert(is_cjk("文生视频"@[0]));
    }
    assert(chinese_then_english(("图生视频"@, "Image"@))) by {
        reveal_strlit("图生视频");
        reveal_strlit("Image");
        assert(forall|i: int| 0 <= i < "Image"@.len() ==> !is_cjk(#[trigger] "Image"@[i]));
        assert(is_cjk("图生视频"@[0]));
    }
    assert(chinese_then_english(("多图视频"@, "Multi"@))) by {
        reveal_strlit("多图视频");
        reveal_strlit("Multi");
        assert(forall|i: int| 0 <= i < "Multi"@.len() ==> !is_cjk(#[trigger] "Multi"@[i]));
        assert(is_cjk("多图视频"@[0]));
    }
    assert(chinese_then_english(("关键帧"@, "Keyframes"@))) by {
        reveal_strlit("关键帧");
        reveal_strlit("Keyframes");
        assert(forall|i: int| 0 <= i < "Keyframes"@.len() ==> !is_cjk(#[trigger] "Keyframes"@[i]));
        assert(is_cjk("关键帧"@[0]));
    }
    assert(chinese_then_english(("反向提示词（可选）"@, "Negative Prompt (optional)"@))) by {
        reveal_strlit("反向提示词（可选）");
        reveal_strlit("Negative Prompt (optional)");
        assert(forall|i: int| 0 <= i < "Negative Prompt (optional)"@.len() ==> !is_cjk(#[trigger] "Negative Prompt (optional)"@[i]));
        assert(is_cjk("反向提示词（可选）"@[0]));
    }
    assert(chinese_then_english(("需要避免的内容…"@, "Content to avoid…"@))) by {
        reveal_strlit("需要避免的内容…");
        reveal_strlit("Content to avoid…");
        assert(forall|i: int| 0 <= i < "Content to avoid…"@.len() ==> !is_cjk(#[trigger] "Content to avoid…"@[i]));
        assert(is_cjk("需要避免的内容…"@[0]));
    }
    assert(chinese_then_english(("描述视频内容：[主体与场景]+[动作与变化]+[镜头语言]+[视觉风格]+[声音]"@, "Describe the video: [subject & scene] + [motion & change] + [camera language] + [visual style] + [sound]"@))) by {
        reveal_strlit("描述视频内容：[主体与场景]+[动作与变化]+[镜头语言]+[视觉风格]+[声音]");
        reveal_strlit("Describe the video: [subject & scene] + [motion & change] + [camera language] + [visual style] + [sound]");
        assert(forall|i: int| 0 <= i < "Describe the video: [subject & scene] + [motion & change] + [camera language] + [visual style] + [sound]"@.len() ==> !is_cjk(#[trigger] "Describe the video: [subject & scene] + [motion & change] + [camera language] + [visual style] + [sound]"@[i]));
        assert(is_cjk("描述视频内容：[主体与场景]+[动作与变化]+[镜头语言]+[视觉风格]+[声音]"@[0]));
    }
    assert(chinese_then_english(("描述视频内容，可用 <Picture 1>、<Audio 1>、<Video 1> 指代参考素材…"@, "Describe the video; refer to inputs as <Picture 1>, <Audio 1>, <Video 1>…"@))) by {
        reveal_strlit("描述视频内容，可用 <Picture 1>、<Audio 1>、<Video 1> 指代参考素材…");
        reveal_strlit("Describe the video; refer to inputs as <Picture 1>, <Audio 1>, <Video 1>…");
        assert(forall|i: int| 0 <= i < "Describe the video; refer to inputs as <Picture 1>, <Audio 1>, <Video 1>…"@.len() ==> !is_cjk(#[trigger] "Describe the video; refer to inputs as <Picture 1>, <Audio 1>, <Video 1>…"@[i]));
        assert(is_cjk("描述视频内容，可用 <Picture 1>、<Audio 1>、<Video 1> 指代参考素材…"@[0]));
    }
    assert(chinese_then_english(("描述视频内容，可用 <Picture 1>、<Audio 1> 指代参考素材…"@, "Describe the video; refer to inputs as <Picture 1>, <Audio 1>…"@))) by {
        reveal_strlit("描述视频内容，可用 <Picture 1>、<Audio 1> 指代参考素材…");
        reveal_strlit("Describe the video; refer to inputs as <Picture 1>, <Audio 1>…");
        assert(forall|i: int| 0 <= i < "Describe the video; refer to inputs as <Picture 1>, <Audio 1>…"@.len() ==> !is_cjk(#[trigger] "Describe the video; refer to inputs as <Picture 1>, <Audio 1>…"@[i]));
        assert(is_cjk("描述视频内容，可用 <Picture 1>、<Audio 1> 指代参考素材…"@[0]));
    }
    assert(chinese_then_english(("首尾帧（Keyframe）"@, "Keyframes"@))) by {
        reveal_strlit("首尾帧（Keyframe）");
        reveal_strlit("Keyframes");
        assert(forall|i: int| 0 <= i < "Keyframes"@.len() ==> !is_cjk(#[trigger] "Keyframes"@[i]));
        assert(is_cjk("首尾帧（Keyframe）"@[0]));
    }
    assert(chinese_then_english(("首帧与尾帧至少提供一个；仅给首帧 = 从首帧开始演绎，仅给尾帧 = 向尾帧过渡"@, "Provide at least one of first/last frame; first only = animate from it, last only = transition toward it"@))) by {
        reveal_strlit("首帧与尾帧至少提供一个；仅给首帧 = 从首帧开始演绎，仅给尾帧 = 向尾帧过渡");
        reveal_strlit("Provide at least one of first/last frame; first only = animate from it, last only = transition toward it");
        assert(forall|i: int| 0 <= i < "Provide at least one of first/last frame; first only = animate from it, last only = transition toward it"@.len() ==> !is_cjk(#[trigger] "Provide at least one of first/last frame; first only = animate from it, last only = transition toward it"@[i]));
        assert(is_cjk("首帧与尾帧至少提供一个；仅给首帧 = 从首帧开始演绎，仅给尾帧 = 向尾帧过渡"@[0]));
    }
    assert(chinese_then_english(("首帧图片 URL"@, "First frame image URL"@))) by {
        reveal_strlit("首帧图片 URL");
        reveal_strlit("First frame image URL");
        assert(forall|i: int| 0 <= i < "First frame image URL"@.len() ==> !is_cjk(#[trigger] "First frame image URL"@[i]));
        assert(is_cjk("首帧图片 URL"@[0]));
    }
    assert(chinese_then_english(("尾帧图片 URL（可选）"@, "Last frame image URL (optional)"@))) by {
        reveal_strlit("尾帧图片 URL（可选）");
        reveal_strlit("Last frame image URL (optional)");
        assert(forall|i: int| 0 <= i < "Last frame image URL (optional)"@.len() ==> !is_cjk(#[trigger] "Last frame image URL (optional)"@[i]));
        assert(is_cjk("尾帧图片 URL（可选）"@[0]));
    }
    assert(chinese_then_english(("参考素材（Reference）"@, "References"@))) by {
        reveal_strlit("参考素材（Reference）");
        reveal_strlit("References");
        assert(forall|i: int| 0 <= i < "References"@.len() ==> !is_cjk(#[trigger] "References"@[i]));
        assert(is_cjk("参考素材（Reference）"@[0]));
    }
    assert(chinese_then_english(("图片 / 音频 / 视频 URL 需公网可访问；提示词中用 <Picture 1>、<Audio 1>、<Video 1> 指代"@, "Image / audio / video URLs must be publicly accessible; refer to them as <Picture 1>, <Audio 1>, <Video 1>"@))) by {
        reveal_strlit("图片 / 音频 / 视频 URL 需公网可访问；提示词中用 <Picture 1>、<Audio 1>、<Video 1> 指代");
        reveal_strlit("Image / audio / video URLs must be publicly accessible; refer to them as <Picture 1>, <Audio 1>, <Video 1>");
        assert(forall|i: int| 0 <= i < "Image / audio / video URLs must be publicly accessible; refer to them as <Picture 1>, <Audio 1>, <Video 1>"@.len() ==> !is_cjk(#[trigger] "Image / audio / video URLs must be publicly accessible; refer to them as <Picture 1>, <Audio 1>, <Video 1>"@[i]));
        assert(is_cjk("图片 / 音频 / 视频 URL 需公网可访问；提示词中用 <Picture 1>、<Audio 1>、<Video 1> 指代"@[0]));
    }
    assert(chinese_then_english(("图片 / 音频 URL 需公网可访问；Flash 版图片参考最多 5 张、不支持视频参考；提示词中用 <Picture 1>、<Audio 1> 指代"@, "Image / audio URLs must be publicly accessible; Flash allows up to 5 reference images and no video; refer to them as <Picture 1>, <Audio 1>"@))) by {
        reveal_strlit("图片 / 音频 URL 需公网可访问；Flash 版图片参考最多 5 张、不支持视频参考；提示词中用 <Picture 1>、<Audio 1> 指代");
        reveal_strlit("Image / audio URLs must be publicly accessible; Flash allows up to 5 reference images and no video; refer to them as <Picture 1>, <Audio 1>");
        assert(forall|i: int| 0 <= i < "Image / audio URLs must be publicly accessible; Flash allows up to 5 reference images and no video; refer to them as <Picture 1>, <Audio 1>"@.len() ==> !is_cjk(#[trigger] "Image / audio URLs must be publicly accessible; Flash allows up to 5 reference images and no video; refer to them as <Picture 1>, <Audio 1>"@[i]));
        assert(is_cjk("图片 / 音频 URL 需公网可访问；Flash 版图片参考最多 5 张、不支持视频参考；提示词中用 <Picture 1>、<Audio 1> 指代"@[0]));
    }
    assert(chinese_then_english(("＋ 图片"@, "＋ Image"@))) by {
        reveal_strlit("＋ 图片");
        reveal_strlit("＋ Image");
        assert(forall|i: int| 0 <= i < "＋ Image"@.len() ==> !is_cjk(#[trigger] "＋ Image"@[i]));
        assert(is_cjk("＋ 图片"@[2]));
    }
    assert(chinese_then_english(("＋ 音频"@, "＋ Audio"@))) by {
        reveal_strlit("＋ 音频");
        reveal_strlit("＋ Audio");
        assert(forall|i: int| 0 <= i < "＋ Audio"@.len() ==> !is_cjk(#[trigger] "＋ Audio"@[i]));
        assert(is_cjk("＋ 音频"@[2]));
    }
    assert(chinese_then_english(("＋ 视频"@, "＋ Video"@))) by {
        reveal_strlit("＋ 视频");
        reveal_strlit("＋ Video");
        assert(forall|i: int| 0 <= i < "＋ Video"@.len() ==> !is_cjk(#[trigger] "＋ Video"@[i]));
        assert(is_cjk("＋ 视频"@[2]));
    }
    assert(chinese_then_english(("图 #{n}"@, "IMG #{n}"@))) by {
        reveal_strlit("图 #{n}");
        reveal_strlit("IMG #{n}");
        assert(forall|i: int| 0 <= i < "IMG #{n}"@.len() ==> !is_cjk(#[trigger] "IMG #{n}"@[i]));
        assert(is_cjk("图 #{n}"@[0]));
    }
    assert(chinese_then_english(("音 #{n}"@, "AUD #{n}"@))) by {
        reveal_strlit("音 #{n}");
        reveal_strlit("AUD #{n}");
        assert(forall|i: int| 0 <= i < "AUD #{n}"@.len() ==> !is_cjk(#[trigger] "AUD #{n}"@[i]));
        assert(is_cjk("音 #{n}"@[0]));
    }
    assert(chinese_then_english(("视 #{n}"@, "VID #{n}"@))) by {
        reveal_strlit("视 #{n}");
        reveal_strlit("VID #{n}");
        assert(forall|i: int| 0 <= i < "VID #{n}"@.len() ==> !is_cjk(#[trigger] "VID #{n}"@[i]));
        assert(is_cjk("视 #{n}"@[0]));
    }
    assert(chinese_then_english(("画幅与时长"@, "Format & Duration"@))) by {
        reveal_strlit("画幅与时长");
        reveal_strlit("Format & Duration");
        assert(forall|i: int| 0 <= i < "Format & Duration"@.len() ==> !is_cjk(#[trigger] "Format & Duration"@[i]));
        assert(is_cjk("画幅与时长"@[0]));
    }
    assert(chinese_then_english(("画幅比例（分辨率 720P）"@, "Aspect ratio (720P)"@))) by {
        reveal_strlit("画幅比例（分辨率 720P）");
        reveal_strlit("Aspect ratio (720P)");
        assert(forall|i: int| 0 <= i < "Aspect ratio (720P)"@.len() ==> !is_cjk(#[trigger] "Aspect ratio (720P)"@[i]));
        assert(is_cjk("画幅比例（分辨率 720P）"@[0]));
    }
    assert(chinese_then_english(("时长"@, "Duration"@))) by {
        reveal_strlit("时长");
        reveal_strlit("Duration");
        assert(forall|i: int| 0 <= i < "Duration"@.len() ==> !is_cjk(#[trigger] "Duration"@[i]));
        assert(is_cjk("时长"@[0]));
    }
    assert(chinese_then_english(("约 {s} 秒"@, "~{s}s"@))) by {
        reveal_strlit("约 {s} 秒");
        reveal_strlit("~{s}s");
        assert(forall|i: int| 0 <= i < "~{s}s"@.len() ==> !is_cjk(#[trigger] "~{s}s"@[i]));
        assert(is_cjk("约 {s} 秒"@[0]));
    }
    assert(chinese_then_english(("输入图片 URL"@, "Image URLs"@))) by {
        reveal_strlit("输入图片 URL");
        reveal_strlit("Image URLs");
        assert(forall|i: int| 0 <= i < "Image URLs"@.len() ==> !is_cjk(#[trigger] "Image URLs"@[i]));
        assert(is_cjk("输入图片 URL"@[0]));
    }
    assert(chinese_then_english(("视频 API 需要公网可访问的图片 URL（不支持本地文件）"@, "The video API needs publicly accessible image URLs (local files are not supported)"@))) by {
        reveal_strlit("视频 API 需要公网可访问的图片 URL（不支持本地文件）");
        reveal_strlit("The video API needs publicly accessible image URLs (local files are not supported)");
        assert(forall|i: int| 0 <= i < "The video API needs publicly accessible image URLs (local files are not supported)"@.len() ==> !is_cjk(#[trigger] "The video API needs publicly accessible image URLs (local files are not supported)"@[i]));
        assert(is_cjk("视频 API 需要公网可访问的图片 URL（不支持本地文件）"@[0]));
    }
    assert(chinese_then_english(("添加"@, "Add"@))) by {
        reveal_strlit("添加");
        reveal_strlit("Add");
        assert(forall|i: int| 0 <= i < "Add"@.len() ==> !is_cjk(#[trigger] "Add"@[i]));
        assert(is_cjk("添加"@[0]));
    }
    assert(chinese_then_english(("画面尺寸"@, "Frame Size"@))) by {
        reveal_strlit("画面尺寸");
        reveal_strlit("Frame Size");
        assert(forall|i: int| 0 <= i < "Frame Size"@.len() ==> !is_cjk(#[trigger] "Frame Size"@[i]));
        assert(is_cjk("画面尺寸"@[0]));
    }
    assert(chinese_then_english(("当前：{w}×{h}（API 会自动归档到 480p/720p/1080p）"@, "Current: {w}×{h} (snapped to 480p/720p/1080p)"@))) by {
        reveal_strlit("当前：{w}×{h}（API 会自动归档到 480p/720p/1080p）");
        reveal_strlit("Current: {w}×{h} (snapped to 480p/720p/1080p)");
        assert(forall|i: int| 0 <= i < "Current: {w}×{h} (snapped to 480p/720p/1080p)"@.len() ==> !is_cjk(#[trigger] "Current: {w}×{h} (snapped to 480p/720p/1080p)"@[i]));
        assert(is_cjk("当前：{w}×{h}（API 会自动归档到 480p/720p/1080p）"@[0]));
    }
    assert(chinese_then_english(("时长"@, "Duration"@))) by {
        reveal_strlit("时长");
        reveal_strlit("Duration");
        assert(forall|i: int| 0 <= i < "Duration"@.len() ==> !is_cjk(#[trigger] "Duration"@[i]));
        assert(is_cjk("时长"@[0]));
    }
    assert(chinese_then_english(("预计时长：{s} 秒（num_frames 需为 8n+1，≤441）"@, "Est. duration: {s}s (num_frames must be 8n+1, ≤441)"@))) by {
        reveal_strlit("预计时长：{s} 秒（num_frames 需为 8n+1，≤441）");
        reveal_strlit("Est. duration: {s}s (num_frames must be 8n+1, ≤441)");
        assert(forall|i: int| 0 <= i < "Est. duration: {s}s (num_frames must be 8n+1, ≤441)"@.len() ==> !is_cjk(#[trigger] "Est. duration: {s}s (num_frames must be 8n+1, ≤441)"@[i]));
        assert(is_cjk("预计时长：{s} 秒（num_frames 需为 8n+1，≤441）"@[0]));
    }
    assert(chinese_then_english(("帧 @ 24fps"@, "frames @ 24fps"@))) by {
        reveal_strlit("帧 @ 24fps");
        reveal_strlit("frames @ 24fps");
        assert(forall|i: int| 0 <= i < "frames @ 24fps"@.len() ==> !is_cjk(#[trigger] "frames @ 24fps"@[i]));
        assert(is_cjk("帧 @ 24fps"@[0]));
    }
    assert(chinese_then_english(("生成视频"@, "Generate Video"@))) by {
        reveal_strlit("生成视频");
        reveal_strlit("Generate Video");
        assert(forall|i: int| 0 <= i < "Generate Video"@.len() ==> !is_cjk(#[trigger] "Generate Video"@[i]));
        assert(is_cjk("生成视频"@[0]));
    }
    assert(chinese_then_english(("· {size} · {model} · {sec}秒"@, "· {size} · {model} · {sec}s"@))) by {
        reveal_strlit("· {size} · {model} · {sec}秒");
        reveal_strlit("· {size} · {model} · {sec}s");
        assert(forall|i: int| 0 <= i < "· {size} · {model} · {sec}s"@.len() ==> !is_cjk(#[trigger] "· {size} · {model} · {sec}s"@[i]));
        assert(is_cjk("· {size} · {model} · {sec}秒"@[26]));
    }
}

/// In the texts of the video status, the Chinese text comes first and the English second.
proof fn lemma_video_status_languages(key: Seq<char>)
    ensures
        video_status_texts(key) matches Some(p) ==> chinese_then_english(p),
{
    assert(chinese_then_english(("提交任务中…"@, "Submitting task…"@))) by {
        reveal_strlit("提交任务中…");
        reveal_strlit("Submitting task…");
        assert(forall|i: int| 0 <= i < "Submitting task…"@.len() ==> !is_cjk(#[trigger] "Submitting task…"@[i]));
        assert(is_cjk("提交任务中…"@[0]));
    }
    assert(chinese_then_english(("任务已创建，等待生成…"@, "Task created, waiting…"@))) by {
        reveal_strlit("任务已创建，等待生成…");
        reveal_strlit("Task created, waiting…");
        assert(forall|i: int| 0 <= i < "Task created, waiting…"@.len() ==> !is_cjk(#[trigger] "Task created, waiting…"@[i]));
        assert(is_cjk("任务已创建，等待生成…"@[0]));
    }
    assert(chinese_then_english(("正在下载视频…"@, "Downloading video…"@))) by {
        reveal_strlit("正在下载视频…");
        reveal_strlit("Downloading video…");
        assert(forall|i: int| 0 <= i < "Downloading video…"@.len() ==> !is_cjk(#[trigger] "Downloading video…"@[i]));
        assert(is_cjk("正在下载视频…"@[0]));
    }
    assert(chinese_then_english(("下载完成"@, "Download complete"@))) by {
        reveal_strlit("下载完成");
        reveal_strlit("Download complete");
        assert(forall|i: int| 0 <= i < "Download complete"@.len() ==> !is_cjk(#[trigger] "Download complete"@[i]));
        assert(is_cjk("下载完成"@[0]));
    }
    assert(chinese_then_english(("生成完成"@, "Generation complete"@))) by {
        reveal_strlit("生成完成");
        reveal_strlit("Generation complete");
        assert(forall|i: int| 0 <= i < "Generation complete"@.len() ==> !is_cjk(#[trigger] "Generation complete"@[i]));
        assert(is_cjk("生成完成"@[0]));
    }
    assert(chinese_then_english(("排队中…"@, "Queued…"@))) by {
        reveal_strlit("排队中…");
        reveal_strlit("Queued…");
        assert(forall|i: int| 0 <= i < "Queued…"@.len() ==> !is_cjk(#[trigger] "Queued…"@[i]));
        assert(is_cjk("排队中…"@[0]));
    }
    assert(chinese_then_english(("生成中…"@, "Generating…"@))) by {
        reveal_strlit("生成中…");
        reveal_strlit("Generating…");
        assert(forall|i: int| 0 <= i < "Generating…"@.len() ==> !is_cjk(#[trigger] "Generating…"@[i]));
        assert(is_cjk("生成中…"@[0]));
    }
    assert(chinese_then_english(("生成失败"@, "Generation failed"@))) by {
        reveal_strlit("生成失败");
        reveal_strlit("Generation failed");
        assert(forall|i: int| 0 <= i < "Generation failed"@.len() ==> !is_cjk(#[trigger] "Generation failed"@[i]));
        assert(is_cjk("生成失败"@[0]));
    }
    assert(chinese_then_english(("查询限流，{n} 秒后重试…"@, "Rate limited, retrying in {n}s…"@))) by {
        reveal_strlit("查询限流，{n} 秒后重试…");
        reveal_strlit("Rate limited, retrying in {n}s…");
        assert(forall|i: int| 0 <= i < "Rate limited, retrying in {n}s…"@.len() ==> !is_cjk(#[trigger] "Rate limited, retrying in {n}s…"@[i]));
        assert(is_cjk("查询限流，{n} 秒后重试…"@[0]));
    }
    assert(chinese_then_english(("查询失败，{n} 秒后重试…"@, "Query failed, retrying in {n}s…"@))) by {
        reveal_strlit("查询失败，{n} 秒后重试…");
        reveal_strlit("Query failed, retrying in {n}s…");
        assert(forall|i: int| 0 <= i < "Query failed, retrying in {n}s…"@.len() ==> !is_cjk(#[trigger] "Query failed, retrying in {n}s…"@[i]));
        assert(is_cjk("查询失败，{n} 秒后重试…"@[0]));
    }
    assert(chinese_then_english(("任务完成但未返回视频地址"@, "Task completed but no video URL was returned"@))) by {
        reveal_strlit("任务完成但未返回视频地址");
        reveal_strlit("Task completed but no video URL was returned");
        assert(forall|i: int| 0 <= i < "Task completed but no video URL was returned"@.len() ==> !is_cjk(#[trigger] "Task completed but no video URL was returned"@[i]));
        assert(is_cjk("任务完成但未返回视频地址"@[0]));
    }
}

/// In the texts of the video main, the Chinese text comes first and the English second.
proof fn lemma_video_main_languages(key: Seq<char>)
    ensures
        video_main_texts(key) matches Some(p) ==> chinese_then_english(p),
{
    assert(chinese_then_english(("视频生成"@, "Video Generation"@))) by {
        reveal_strlit("视频生成");
        reveal_strlit("Video Generation");
        assert(forall|i: int| 0 <= i < "Video Generation"@.len() ==> !is_cjk(#[trigger] "Video Generation"@[i]));
        assert(is_cjk("视频生成"@[0]));
    }
    assert(chinese_then_english(("在左侧输入提示词，选择尺寸与时长后点击「生成视频」"@, "Enter a prompt, pick size and duration on the left, then click \"Generate Video\""@))) by {
        reveal_strlit("在左侧输入提示词，选择尺寸与时长后点击「生成视频」");
        reveal_strlit("Enter a prompt, pick size and duration on the left, then click \"Generate Video\"");
        assert(forall|i: int| 0 <= i < "Enter a prompt, pick size and duration on the left, then click \"Generate Video\""@.len() ==> !is_cjk(#[trigger] "Enter a prompt, pick size and duration on the left, then click \"Generate Video\""@[i]));
        assert(is_cjk("在左侧输入提示词，选择尺寸与时长后点击「生成视频」"@[0]));
    }
    assert(chinese_then_english(("视频生成通常需要 1~5 分钟，请耐心等待"@, "Video generation usually takes 1–5 minutes"@))) by {
        reveal_strlit("视频生成通常需要 1~5 分钟，请耐心等待");
        reveal_strlit("Video generation usually takes 1–5 minutes");
        assert(forall|i: int| 0 <= i < "Video generation usually takes 1–5 minutes"@.len() ==> !is_cjk(#[trigger] "Video generation usually takes 1–5 minutes"@[i]));
        assert(is_cjk("视频生成通常需要 1~5 分钟，请耐心等待"@[0]));
    }
    assert(chinese_then_english(("已用时 {s} 秒 · {p}%"@, "Elapsed {s}s · {p}%"@))) by {
        reveal_strlit("已用时 {s} 秒 · {p}%");
        reveal_strlit("Elapsed {s}s · {p}%");
        assert(forall|i: int| 0 <= i < "Elapsed {s}s · {p}%"@.len() ==> !is_cjk(#[trigger] "Elapsed {s}s · {p}%"@[i]));
        assert(is_cjk("已用时 {s} 秒 · {p}%"@[0]));
    }
}

/// In the texts of the validation, the Chinese text comes first and the English second.
proof fn lemma_validation_languages(key: Seq<char>)
    ensures
        validation_texts(key) matches Some(p) ==> chinese_then_english(p),
{
    assert(chinese_then_english(("未设置 API Key，请点击右上角 ⚙ 打开设置并填写。"@, "No API Key set. Click ⚙ in the top-right corner to open Settings and add one."@))) by {
        reveal_strlit("未设置 API Key，请点击右上角 ⚙ 打开设置并填写。");
        reveal_strlit("No API Key set. Click ⚙ in the top-right corner to open Settings and add one.");
        assert(forall|i: int| 0 <= i < "No API Key set. Click ⚙ in the top-right corner to open Settings and add one."@.len() ==> !is_cjk(#[trigger] "No API Key set. Click ⚙ in the top-right corner to open Settings and add one."@[i]));
        assert(is_cjk("未设置 API Key，请点击右上角 ⚙ 打开设置并填写。"@[0]));
    }
    assert(chinese_then_english(("提示词不能为空。"@, "Prompt cannot be empty."@))) by {
        reveal_strlit("提示词不能为空。");
        reveal_strlit("Prompt cannot be empty.");
        assert(forall|i: int| 0 <= i < "Prompt cannot be empty."@.len() ==> !is_cjk(#[trigger] "Prompt cannot be empty."@[i]));
        assert(is_cjk("提示词不能为空。"@[0]));
    }
    assert(chinese_then_english(("图生图模式下需要提供输入图片。"@, "Image-to-image mode requires an input image."@))) by {
        reveal_strlit("图生图模式下需要提供输入图片。");
        reveal_strlit("Image-to-image mode requires an input image.");
        assert(forall|i: int| 0 <= i < "Image-to-image mode requires an input image."@.len() ==> !is_cjk(#[trigger] "Image-to-image mode requires an input image."@[i]));
        assert(is_cjk("图生图模式下需要提供输入图片。"@[0]));
    }
    assert(chinese_then_english(("无法生成"@, "Cannot Generate"@))) by {
        reveal_strlit("无法生成");
        reveal_strlit("Cannot Generate");
        assert(forall|i: int| 0 <= i < "Cannot Generate"@.len() ==> !is_cjk(#[trigger] "Cannot Generate"@[i]));
        assert(is_cjk("无法生成"@[0]));
    }
    assert(chinese_then_english(("⚙ 打开设置"@, "⚙ Open Settings"@))) by {
        reveal_strlit("⚙ 打开设置");
        reveal_strlit("⚙ Open Settings");
        assert(forall|i: int| 0 <= i < "⚙ Open Settings"@.len() ==> !is_cjk(#[trigger] "⚙ Open Settings"@[i]));
        assert(is_cjk("⚙ 打开设置"@[2]));
    }
    assert(chinese_then_english(("知道了"@, "Got It"@))) by {
        reveal_strlit("知道了");
        reveal_strlit("Got It");
        assert(forall|i: int| 0 <= i < "Got It"@.len() ==> !is_cjk(#[trigger] "Got It"@[i]));
        assert(is_cjk("知道了"@[0]));
    }
    assert(chinese_then_english(("首尾帧模式至少需要提供首帧或尾帧图片 URL"@, "Keyframe mode needs at least a first or last frame image URL"@))) by {
        reveal_strlit("首尾帧模式至少需要提供首帧或尾帧图片 URL");
        reveal_strlit("Keyframe mode needs at least a first or last frame image URL");
        assert(forall|i: int| 0 <= i < "Keyframe mode needs at least a first or last frame image URL"@.len() ==> !is_cjk(#[trigger] "Keyframe mode needs at least a first or last frame image URL"@[i]));
        assert(is_cjk("首尾帧模式至少需要提供首帧或尾帧图片 URL"@[0]));
    }
    assert(chinese_then_english(("参考生成模式至少需要一种参考素材（图片 / 音频 / 视频）"@, "Reference mode needs at least one reference (image / audio / video)"@))) by {
        reveal_strlit("参考生成模式至少需要一种参考素材（图片 / 音频 / 视频）");
        reveal_strlit("Reference mode needs at least one reference (image / audio / video)");
        assert(forall|i: int| 0 <= i < "Reference mode needs at least one reference (image / audio / video)"@.len() ==> !is_cjk(#[trigger] "Reference mode needs at least one reference (image / audio / video)"@[i]));
        assert(is_cjk("参考生成模式至少需要一种参考素材（图片 / 音频 / 视频）"@[0]));
    }
    assert(chinese_then_english(("Flash 版参考图片最多 5 张（当前已添加超出，请移除多余的图片）"@, "Flash allows at most 5 reference images; remove the extras"@))) by {
        reveal_strlit("Flash 版参考图片最多 5 张（当前已添加超出，请移除多余的图片）");
        reveal_strlit("Flash allows at most 5 reference images; remove the extras");
        assert(forall|i: int| 0 <= i < "Flash allows at most 5 reference images; remove the extras"@.len() ==> !is_cjk(#[trigger] "Flash allows at most 5 reference images; remove the extras"@[i]));
        assert(is_cjk("Flash 版参考图片最多 5 张（当前已添加超出，请移除多余的图片）"@[6]));
    }
    assert(chinese_then_english(("Flash 版不支持视频参考素材，请移除视频或切换到 Agnes Video 2.5"@, "Flash does not support video references; remove them or switch to Agnes Video 2.5"@))) by {
        reveal_strlit("Flash 版不支持视频参考素材，请移除视频或切换到 Agnes Video 2.5");
        reveal_strlit("Flash does not support video references; remove them or switch to Agnes Video 2.5");
        assert(forall|i: int| 0 <= i < "Flash does not support video references; remove them or switch to Agnes Video 2.5"@.len() ==> !is_cjk(#[trigger] "Flash does not support video references; remove them or switch to Agnes Video 2.5"@[i]));
        assert(is_cjk("Flash 版不支持视频参考素材，请移除视频或切换到 Agnes Video 2.5"@[6]));
    }
    assert(chinese_then_english(("图生视频需要 1 张图片 URL"@, "Image-to-video needs 1 image URL"@))) by {
        reveal_strlit("图生视频需要 1 张图片 URL");
        reveal_strlit("Image-to-video needs 1 image URL");
        assert(forall|i: int| 0 <= i < "Image-to-video needs 1 image URL"@.len() ==> !is_cjk(#[trigger] "Image-to-video needs 1 image URL"@[i]));
        assert(is_cjk("图生视频需要 1 张图片 URL"@[0]));
    }
    assert(chinese_then_english(("该模式至少需要 2 张图片 URL"@, "This mode needs at least 2 image URLs"@))) by {
        reveal_strlit("该模式至少需要 2 张图片 URL");
        reveal_strlit("This mode needs at least 2 image URLs");
        assert(forall|i: int| 0 <= i < "This mode needs at least 2 image URLs"@.len() ==> !is_cjk(#[trigger] "This mode needs at least 2 image URLs"@[i]));
        assert(is_cjk("该模式至少需要 2 张图片 URL"@[0]));
    }
}

/// In the texts of the notice, the Chinese text comes first and the English second.
proof fn lemma_notice_languages(key: Seq<char>)
    ensures
        notice_texts(key) matches Some(p) ==> chinese_then_english(p),
{
    assert(chinese_then_english(("已保存：{p}"@, "Saved: {p}"@))) by {
        reveal_strlit("已保存：{p}");
        reveal_strlit("Saved: {p}");
        assert(forall|i: int| 0 <= i < "Saved: {p}"@.len() ==> !is_cjk(#[trigger] "Saved: {p}"@[i]));
        assert(is_cjk("已保存：{p}"@[0]));
    }
    assert(chinese_then_english(("保存失败：{e}"@, "Save failed: {e}"@))) by {
        reveal_strlit("保存失败：{e}");
        reveal_strlit("Save failed: {e}");
        assert(forall|i: int| 0 <= i < "Save failed: {e}"@.len() ==> !is_cjk(#[trigger] "Save failed: {e}"@[i]));
        assert(is_cjk("保存失败：{e}"@[0]));
    }
    assert(chinese_then_english(("创建目录失败"@, "Failed to create directory"@))) by {
        reveal_strlit("创建目录失败");
        reveal_strlit("Failed to create directory");
        assert(forall|i: int| 0 <= i < "Failed to create directory"@.len() ==> !is_cjk(#[trigger] "Failed to create directory"@[i]));
        assert(is_cjk("创建目录失败"@[0]));
    }
    assert(chinese_then_english(("本地缓存无效，正在重新下载视频…"@, "Local cache invalid, re-downloading video…"@))) by {
        reveal_strlit("本地缓存无效，正在重新下载视频…");
        reveal_strlit("Local cache invalid, re-downloading video…");
        assert(forall|i: int| 0 <= i < "Local cache invalid, re-downloading video…"@.len() ==> !is_cjk(#[trigger] "Local cache invalid, re-downloading video…"@[i]));
        assert(is_cjk("本地缓存无效，正在重新下载视频…"@[0]));
    }
    assert(chinese_then_english(("视频地址为空，无法保存"@, "Video URL is empty, cannot save"@))) by {
        reveal_strlit("视频地址为空，无法保存");
        reveal_strlit("Video URL is empty, cannot save");
        assert(forall|i: int| 0 <= i < "Video URL is empty, cannot save"@.len() ==> !is_cjk(#[trigger] "Video URL is empty, cannot save"@[i]));
        assert(is_cjk("视频地址为空，无法保存"@[0]));
    }
}

/// Every interface text is looked up in its language: the English text
/// of a key holds no CJK character, and its Chinese text holds some unless
/// both languages share one text.
pub proof fn lemma_texts_languages(key: Seq<char>)
    ensures
        !has_cjk(spec_t(Lang::En, key)),
        spec_t(Lang::Zh, key) != spec_t(Lang::En, key) ==> has_cjk(spec_t(Lang::Zh, key)),
{
    lemma_top_bar_languages(key);
    lemma_card_title_languages(key);
    lemma_image_panel_languages(key);
    lemma_settings_languages(key);
    lemma_image_main_languages(key);
    lemma_history_languages(key);
    lemma_preview_languages(key);
    lemma_update_dialog_languages(key);
    lemma_video_panel_languages(key);
    lemma_video_status_languages(key);
    lemma_video_main_languages(key);
    lemma_validation_languages(key);
    lemma_notice_languages(key);
    if texts(key) is None {
        assert(spec_t(Lang::En, key) =~= Seq::<char>::empty());
    }
}

} // verus!
