//! Decisions of the desktop client's forms: which size, model and inputs a
//! request uses, which settings are restored and recorded, what a failed
//! check says, how task polling backs off, and small media helpers.

use vstd::prelude::*;
use vstd::arithmetic::power2::{lemma_pow2_unfold, pow2};
use crate::api::{
    self, GenParams, V25Mode, VideoKind, VideoParams, MODEL_VIDEO_V20, MODEL_VIDEO_V25,
    MODEL_VIDEO_V25_FLASH,
};
use crate::config::Config;
use crate::i18n::{fill, spec_t, t, tf, Lang};
use crate::text::replace_all;
use crate::text::{
    ascii_lower, ascii_lower_char, eq_ignore_ascii_case, chars_of, decimal, decimal_int, find_char, first_index, is_blank, is_blank_str, parse_i32,
    parse_i32_chars, parse_u64, parse_u64_chars, push_decimal_i32, str_eq, trim, trim_str, views,
    has_prefix, lemma_decimal_digits, lemma_first_index_at, is_digit, all_digits, trim_start, trim_end,
};

verus! {

/// Image generation mode.
#[derive(Clone, Copy, PartialEq, Eq, Structural, Debug)]
pub enum Mode {
    Text,
    Image,
}

/// Where the input image of image-to-image comes from.
#[derive(Clone, Copy, PartialEq, Eq, Structural, Debug)]
pub enum InputSrc {
    File,
    Url,
}

/// Requested image output.
#[derive(Clone, Copy, PartialEq, Eq, Structural, Debug)]
pub enum OutFmt {
    Url,
    B64,
}

/// Mode of the V2.0 video model.
#[derive(Clone, Copy, PartialEq, Eq, Structural, Debug)]
pub enum VMode {
    Text,
    Image,
    Multi,
    Keyframes,
}

/// Kind of a status notice.
#[derive(Clone, Copy, PartialEq, Eq, Structural, Debug)]
pub enum NoticeKind {
    Success,
    Failure,
    Info,
}

/// Image model identifiers, in menu order (the first is the default).
pub open spec fn image_model_id_spec(i: nat) -> Seq<char> {
    if i == 0 {
        "agnes-image-2.1-flash"@
    } else {
        "agnes-image-2.0-flash"@
    }
}

/// Image model identifiers, in menu order (the first is the default).
pub fn image_model_id(i: usize) -> (r: &'static str)
    requires
        i < 2,
    ensures
        r@ == image_model_id_spec(i as nat),
{
    match i {
        0 => "agnes-image-2.1-flash",
        _ => "agnes-image-2.0-flash",
    }
}

/// Exact image size presets; the last, empty, entry stands for a custom size.
pub open spec fn size_preset_value_spec(i: nat) -> Seq<char> {
    if i == 0 {
        "1024x1024"@
    } else if i == 1 {
        "1024x768"@
    } else if i == 2 {
        "768x1024"@
    } else if i == 3 {
        "1280x720"@
    } else if i == 4 {
        "720x1280"@
    } else if i == 5 {
        "1920x1080"@
    } else if i == 6 {
        "1080x1920"@
    } else if i == 7 {
        "2048x2048"@
    } else if i == 8 {
        "2560x1440"@
    } else if i == 9 {
        "3840x2160"@
    } else if i == 10 {
        "2160x3840"@
    } else {
        ""@
    }
}

/// Exact image size presets; the last, empty, entry stands for a custom size.
pub fn size_preset_value(i: usize) -> (r: &'static str)
    requires
        i < 12,
    ensures
        r@ == size_preset_value_spec(i as nat),
{
    match i {
        0 => "1024x1024",
        1 => "1024x768",
        2 => "768x1024",
        3 => "1280x720",
        4 => "720x1280",
        5 => "1920x1080",
        6 => "1080x1920",
        7 => "2048x2048",
        8 => "2560x1440",
        9 => "3840x2160",
        10 => "2160x3840",
        _ => "",
    }
}

/// Size tiers of the tier-sized image model.
pub open spec fn tier_name_spec(i: nat) -> Seq<char> {
    if i == 0 {
        "1K"@
    } else if i == 1 {
        "2K"@
    } else if i == 2 {
        "3K"@
    } else {
        "4K"@
    }
}

/// Size tiers of the tier-sized image model.
pub fn tier_name(i: usize) -> (r: &'static str)
    requires
        i < 4,
    ensures
        r@ == tier_name_spec(i as nat),
{
    match i {
        0 => "1K",
        1 => "2K",
        2 => "3K",
        _ => "4K",
    }
}

/// Aspect ratios of the tier-sized image model.
pub open spec fn tier_ratio_spec(i: nat) -> Seq<char> {
    if i == 0 {
        "1:1"@
    } else if i == 1 {
        "3:4"@
    } else if i == 2 {
        "4:3"@
    } else if i == 3 {
        "16:9"@
    } else if i == 4 {
        "9:16"@
    } else if i == 5 {
        "2:3"@
    } else if i == 6 {
        "3:2"@
    } else {
        "21:9"@
    }
}

/// Aspect ratios of the tier-sized image model.
pub fn tier_ratio(i: usize) -> (r: &'static str)
    requires
        i < 8,
    ensures
        r@ == tier_ratio_spec(i as nat),
{
    match i {
        0 => "1:1",
        1 => "3:4",
        2 => "4:3",
        3 => "16:9",
        4 => "9:16",
        5 => "2:3",
        6 => "3:2",
        _ => "21:9",
    }
}

/// Exact pixel size of ratio `ri` at tier `ti`.
pub open spec fn tier_size_spec(ri: nat, ti: nat) -> Seq<char> {
    tier_size_flat_spec(ri * 4 + ti)
}

/// Exact pixel sizes of every ratio (row) and tier (column), row by row.
pub open spec fn tier_size_flat_spec(i: nat) -> Seq<char> {
    if i == 0 {
        "1024x1024"@
    } else if i == 1 {
        "2048x2048"@
    } else if i == 2 {
        "3072x3072"@
    } else if i == 3 {
        "4096x4096"@
    } else if i == 4 {
        "864x1152"@
    } else if i == 5 {
        "1728x2304"@
    } else if i == 6 {
        "2592x3456"@
    } else if i == 7 {
        "3456x4608"@
    } else if i == 8 {
        "1152x864"@
    } else if i == 9 {
        "2304x1728"@
    } else if i == 10 {
        "3456x2592"@
    } else if i == 11 {
        "4608x3456"@
    } else if i == 12 {
        "1312x736"@
    } else if i == 13 {
        "2624x1472"@
    } else if i == 14 {
        "3936x2208"@
    } else if i == 15 {
        "5248x2944"@
    } else if i == 16 {
        "736x1312"@
    } else if i == 17 {
        "1472x2624"@
    } else if i == 18 {
        "2208x3936"@
    } else if i == 19 {
        "2944x5248"@
    } else if i == 20 {
        "832x1248"@
    } else if i == 21 {
        "1664x2496"@
    } else if i == 22 {
        "2496x3744"@
    } else if i == 23 {
        "3328x4992"@
    } else if i == 24 {
        "1248x832"@
    } else if i == 25 {
        "2496x1664"@
    } else if i == 26 {
        "3744x2496"@
    } else if i == 27 {
        "4992x3328"@
    } else if i == 28 {
        "1568x672"@
    } else if i == 29 {
        "3136x1344"@
    } else if i == 30 {
        "4704x2016"@
    } else {
        "6272x2688"@
    }
}

/// Exact pixel sizes of every ratio (row) and tier (column), row by row.
pub fn tier_size_flat(i: usize) -> (r: &'static str)
    requires
        i < 32,
    ensures
        r@ == tier_size_flat_spec(i as nat),
{
    match i {
        0 => "1024x1024",
        1 => "2048x2048",
        2 => "3072x3072",
        3 => "4096x4096",
        4 => "864x1152",
        5 => "1728x2304",
        6 => "2592x3456",
        7 => "3456x4608",
        8 => "1152x864",
        9 => "2304x1728",
        10 => "3456x2592",
        11 => "4608x3456",
        12 => "1312x736",
        13 => "2624x1472",
        14 => "3936x2208",
        15 => "5248x2944",
        16 => "736x1312",
        17 => "1472x2624",
        18 => "2208x3936",
        19 => "2944x5248",
        20 => "832x1248",
        21 => "1664x2496",
        22 => "2496x3744",
        23 => "3328x4992",
        24 => "1248x832",
        25 => "2496x1664",
        26 => "3744x2496",
        27 => "4992x3328",
        28 => "1568x672",
        29 => "3136x1344",
        30 => "4704x2016",
        _ => "6272x2688",
    }
}

/// Exact pixel size of ratio `ri` at tier `ti`.
pub fn tier_size(ri: usize, ti: usize) -> (r: &'static str)
    requires
        ri < 8,
        ti < 4,
    ensures
        r@ == tier_size_spec(ri as nat, ti as nat),
{
    tier_size_flat(ri * 4 + ti)
}

/// Video frame size presets (width, height); the last, (0, 0), stands for a custom size.
pub open spec fn video_size_preset_spec(i: nat) -> (i32, i32) {
    if i == 0 {
        (1280, 720)
    } else if i == 1 {
        (720, 1280)
    } else if i == 2 {
        (720, 720)
    } else if i == 3 {
        (1024, 768)
    } else if i == 4 {
        (768, 1024)
    } else {
        (0, 0)
    }
}

/// Video frame size presets (width, height); the last, (0, 0), stands for a custom size.
pub fn video_size_preset(i: usize) -> (r: (i32, i32))
    requires
        i < 6,
    ensures
        r == video_size_preset_spec(i as nat),
{
    match i {
        0 => (1280, 720),
        1 => (720, 1280),
        2 => (720, 720),
        3 => (1024, 768),
        4 => (768, 1024),
        _ => (0, 0),
    }
}

/// Video duration presets (num_frames, frame_rate).
pub open spec fn video_duration_preset_spec(i: nat) -> (i32, i32) {
    if i == 0 {
        (81, 24)
    } else if i == 1 {
        (121, 24)
    } else if i == 2 {
        (241, 24)
    } else {
        (441, 24)
    }
}

/// Video duration presets (num_frames, frame_rate).
pub fn video_duration_preset(i: usize) -> (r: (i32, i32))
    requires
        i < 4,
    ensures
        r == video_duration_preset_spec(i as nat),
{
    match i {
        0 => (81, 24),
        1 => (121, 24),
        2 => (241, 24),
        _ => (441, 24),
    }
}

/// Video model identifiers, in menu order (the first is the default).
pub open spec fn video_model_id_spec(i: nat) -> Seq<char> {
    if i == 0 {
        "agnes-video-2.5-flash"@
    } else if i == 1 {
        "agnes-video-2.5"@
    } else {
        "agnes-video-v2.0"@
    }
}

/// Video model identifiers, in menu order (the first is the default).
pub fn video_model_id(i: usize) -> (r: &'static str)
    requires
        i < 3,
    ensures
        r@ == video_model_id_spec(i as nat),
{
    match i {
        0 => "agnes-video-2.5-flash",
        1 => "agnes-video-2.5",
        _ => "agnes-video-v2.0",
    }
}

/// Aspect ratios of the 2.5 video models (720P).
pub open spec fn v25_aspect_ratio_spec(i: nat) -> Seq<char> {
    if i == 0 {
        "16:9"@
    } else if i == 1 {
        "9:16"@
    } else if i == 2 {
        "21:9"@
    } else if i == 3 {
        "4:3"@
    } else if i == 4 {
        "1:1"@
    } else {
        "3:4"@
    }
}

/// Aspect ratios of the 2.5 video models (720P).
pub fn v25_aspect_ratio(i: usize) -> (r: &'static str)
    requires
        i < 6,
    ensures
        r@ == v25_aspect_ratio_spec(i as nat),
{
    match i {
        0 => "16:9",
        1 => "9:16",
        2 => "21:9",
        3 => "4:3",
        4 => "1:1",
        _ => "3:4",
    }
}

/// Durations of the 2.5 video models, in seconds (as text).
pub open spec fn v25_seconds_spec(i: nat) -> Seq<char> {
    if i == 0 {
        "4"@
    } else if i == 1 {
        "5"@
    } else if i == 2 {
        "6"@
    } else if i == 3 {
        "7"@
    } else if i == 4 {
        "8"@
    } else if i == 5 {
        "9"@
    } else if i == 6 {
        "10"@
    } else if i == 7 {
        "11"@
    } else {
        "12"@
    }
}

/// Durations of the 2.5 video models, in seconds (as text).
pub fn v25_seconds(i: usize) -> (r: &'static str)
    requires
        i < 9,
    ensures
        r@ == v25_seconds_spec(i as nat),
{
    match i {
        0 => "4",
        1 => "5",
        2 => "6",
        3 => "7",
        4 => "8",
        5 => "9",
        6 => "10",
        7 => "11",
        _ => "12",
    }
}

/// Clamps `v` into `lo..=hi`.
pub open spec fn clamp(v: int, lo: int, hi: int) -> int {
    if v < lo {
        lo
    } else if v > hi {
        hi
    } else {
        v
    }
}

pub fn clamp_i32(v: i32, lo: i32, hi: i32) -> (r: i32)
    requires
        lo <= hi,
    ensures
        r as int == clamp(v as int, lo as int, hi as int),
{
    if v < lo {
        lo
    } else if v > hi {
        hi
    } else {
        v
    }
}

pub open spec fn min_nat(a: nat, b: nat) -> nat {
    if a < b { a } else { b }
}

/// The image form.
pub struct ImageForm {
    pub prompt: String,
    pub mode: Mode,
    pub out_fmt: OutFmt,
    pub model_index: usize,
    pub size_preset_index: usize,
    pub custom_w: i32,
    pub custom_h: i32,
    pub input_src: InputSrc,
    pub input_url: String,
    /// Picked file: (file name, data URI).
    pub input_file: Option<(String, String)>,
    pub tier_index: usize,
    pub ratio_index: usize,
}

/// Whether image model `i` is the tier-sized "agnes-image-2.1-flash".
pub open spec fn spec_img_is_21(i: nat) -> bool {
    image_model_id_spec(i) == "agnes-image-2.1-flash"@
}

pub fn img_is_21(model_index: usize) -> (r: bool)
    requires
        model_index < 2,
    ensures
        r == spec_img_is_21(model_index as nat),
{
    str_eq(image_model_id(model_index), "agnes-image-2.1-flash")
}

/// The `size` of an image request: the tier for the tier-sized model, else
/// the preset, else "{w}x{h}" of the custom size.
pub open spec fn spec_resolved_size(f: ImageForm) -> Seq<char> {
    if spec_img_is_21(f.model_index as nat) {
        tier_name_spec(min_nat(f.tier_index as nat, 3))
    } else if f.size_preset_index < 11 {
        size_preset_value_spec(f.size_preset_index as nat)
    } else {
        decimal_int(f.custom_w as int) + seq!['x'] + decimal_int(f.custom_h as int)
    }
}

pub fn resolved_size(f: &ImageForm) -> (r: String)
    requires
        f.model_index < 2,
    ensures
        r@ == spec_resolved_size(*f),
{
    if img_is_21(f.model_index) {
        let i = if f.tier_index < 3 { f.tier_index } else { 3 };
        tier_name(i).to_string()
    } else if f.size_preset_index < 11 {
        size_preset_value(f.size_preset_index).to_string()
    } else {
        proof {
            reveal_strlit("x");
        }
        let mut s = String::new();
        push_decimal_i32(&mut s, f.custom_w);
        s.append("x");
        push_decimal_i32(&mut s, f.custom_h);
        assert(s@ =~= spec_resolved_size(*f));
        s
    }
}

/// The `ratio` of an image request: only the tier-sized model has one.
pub open spec fn spec_resolved_ratio(f: ImageForm) -> Option<Seq<char>> {
    if spec_img_is_21(f.model_index as nat) {
        Some(tier_ratio_spec(min_nat(f.ratio_index as nat, 7)))
    } else {
        None
    }
}

pub fn resolved_ratio(f: &ImageForm) -> (r: Option<String>)
    requires
        f.model_index < 2,
    ensures
        api::opt_view(r) == spec_resolved_ratio(*f),
{
    if img_is_21(f.model_index) {
        let i = if f.ratio_index < 7 { f.ratio_index } else { 7 };
        Some(tier_ratio(i).to_string())
    } else {
        None
    }
}

/// Exact pixel size of the selected tier and ratio (shown to the user).
pub open spec fn spec_tier_exact_size(f: ImageForm) -> Seq<char> {
    tier_size_spec(min_nat(f.ratio_index as nat, 7), min_nat(f.tier_index as nat, 3))
}

pub fn tier_exact_size(f: &ImageForm) -> (r: &'static str)
    ensures
        r@ == spec_tier_exact_size(*f),
{
    let ri = if f.ratio_index < 7 { f.ratio_index } else { 7 };
    let ti = if f.tier_index < 3 { f.tier_index } else { 3 };
    tier_size(ri, ti)
}

/// The (tier index, ratio index) of the first entry of the size table,
/// ratio by ratio and tier by tier, whose exact size is `exact`.
pub open spec fn spec_find_tier_combo(exact: Seq<char>) -> Option<(nat, nat)> {
    match position(Table::TierSize, exact) {
        Some(k) => Some((k % 4, k / 4)),
        None => None,
    }
}

pub open spec fn combo_view(r: Option<(usize, usize)>) -> Option<(nat, nat)> {
    match r {
        Some((a, b)) => Some((a as nat, b as nat)),
        None => None,
    }
}

/// Looks an exact size up in the tier table (to carry older settings over).
pub fn find_tier_combo(exact: &str) -> (r: Option<(usize, usize)>)
    ensures
        combo_view(r) == spec_find_tier_combo(exact@),
        r matches Some((ti, ri)) ==> ti < 4 && ri < 8 && tier_size_spec(ri as nat, ti as nat) == exact@,
{
    match find_in(Table::TierSize, exact) {
        Some(k) => {
            assert(tier_size_spec((k / 4) as nat, (k % 4) as nat) == tier_size_flat_spec(k as nat));
            proof {
                let k = k as nat;
                lemma_position_found(Table::TierSize, exact@, 0);
            }
            Some((k % 4, k / 4))
        },
        None => None,
    }
}

/// A found position holds the string looked for.
pub proof fn lemma_position_found(t: Table, s: Seq<char>, k: nat)
    ensures
        position_from(t, s, k) matches Some(i) ==> k <= i < table_len(t) && table_entry(t, i) == s,
    decreases table_len(t) - k,
{
    if k < table_len(t) && table_entry(t, k) != s {
        lemma_position_found(t, s, k + 1);
    }
}

/// The input image of an image-to-image request: the picked file's data
/// URI, or the trimmed URL when it is not empty; none in text mode.
pub open spec fn spec_cur_input(f: ImageForm) -> Option<Seq<char>> {
    if f.mode != Mode::Image {
        None
    } else {
        match f.input_src {
            InputSrc::File => match f.input_file {
                Some(p) => Some(p.1@),
                None => None,
            },
            InputSrc::Url => if trim(f.input_url@).len() == 0 {
                None
            } else {
                Some(trim(f.input_url@))
            },
        }
    }
}

pub fn cur_input(f: &ImageForm) -> (r: Option<String>)
    ensures
        api::opt_view(r) == spec_cur_input(*f),
{
    if f.mode != Mode::Image {
        return None;
    }
    match f.input_src {
        InputSrc::File => match &f.input_file {
            Some(p) => Some(p.1.clone()),
            None => None,
        },
        InputSrc::Url => {
            let t = trim_str(f.input_url.as_str());
            if t.unicode_len() == 0 {
                None
            } else {
                Some(t.to_string())
            }
        },
    }
}

/// CSS class of a notice.
pub fn nt_class(k: NoticeKind) -> (r: &'static str)
    ensures
        r@ == (match k {
            NoticeKind::Success => "nt nt-ok"@,
            NoticeKind::Failure => "nt nt-err"@,
            NoticeKind::Info => "nt nt-info"@,
        }),
{
    match k {
        NoticeKind::Success => "nt nt-ok",
        NoticeKind::Failure => "nt nt-err",
        NoticeKind::Info => "nt nt-info",
    }
}

/// The string tables of the forms.
#[derive(Clone, Copy, PartialEq, Eq, Structural, Debug)]
pub enum Table {
    ImageModel,
    SizePreset,
    Tier,
    TierRatio,
    TierSize,
    VideoModel,
    AspectRatio,
    Seconds,
}

pub open spec fn table_len(t: Table) -> nat {
    match t {
        Table::ImageModel => 2,
        Table::SizePreset => 12,
        Table::Tier => 4,
        Table::TierRatio => 8,
        Table::TierSize => 32,
        Table::VideoModel => 3,
        Table::AspectRatio => 6,
        Table::Seconds => 9,
    }
}

pub open spec fn table_entry(t: Table, i: nat) -> Seq<char> {
    match t {
        Table::ImageModel => image_model_id_spec(i),
        Table::SizePreset => size_preset_value_spec(i),
        Table::Tier => tier_name_spec(i),
        Table::TierRatio => tier_ratio_spec(i),
        Table::TierSize => tier_size_flat_spec(i),
        Table::VideoModel => video_model_id_spec(i),
        Table::AspectRatio => v25_aspect_ratio_spec(i),
        Table::Seconds => v25_seconds_spec(i),
    }
}

fn table_len_exec(t: Table) -> (r: usize)
    ensures
        r == table_len(t),
{
    match t {
        Table::ImageModel => 2,
        Table::SizePreset => 12,
        Table::Tier => 4,
        Table::TierRatio => 8,
        Table::TierSize => 32,
        Table::VideoModel => 3,
        Table::AspectRatio => 6,
        Table::Seconds => 9,
    }
}

fn table_entry_exec(t: Table, i: usize) -> (r: &'static str)
    requires
        i < table_len(t),
    ensures
        r@ == table_entry(t, i as nat),
{
    match t {
        Table::ImageModel => image_model_id(i),
        Table::SizePreset => size_preset_value(i),
        Table::Tier => tier_name(i),
        Table::TierRatio => tier_ratio(i),
        Table::TierSize => tier_size_flat(i),
        Table::VideoModel => video_model_id(i),
        Table::AspectRatio => v25_aspect_ratio(i),
        Table::Seconds => v25_seconds(i),
    }
}

/// The first position at or after `k` where table `t` holds `s`.
pub open spec fn position_from(t: Table, s: Seq<char>, k: nat) -> Option<nat>
    decreases table_len(t) - k,
{
    if k >= table_len(t) {
        None
    } else if table_entry(t, k) == s {
        Some(k)
    } else {
        position_from(t, s, k + 1)
    }
}

/// The first position where table `t` holds `s`.
pub open spec fn position(t: Table, s: Seq<char>) -> Option<nat> {
    position_from(t, s, 0)
}

/// The position as a `usize`, or `None`.
pub open spec fn pos_view(r: Option<usize>) -> Option<nat> {
    match r {
        Some(i) => Some(i as nat),
        None => None,
    }
}

/// The first position where table `t` holds `s`.
pub fn find_in(t: Table, s: &str) -> (r: Option<usize>)
    ensures
        pos_view(r) == position(t, s@),
        r matches Some(i) ==> i < table_len(t),
{
    let n = table_len_exec(t);
    let mut k: usize = 0;
    while k < n
        invariant
            n == table_len(t),
            k <= n,
            position(t, s@) == position_from(t, s@, k as nat),
        decreases n - k,
    {
        if str_eq(table_entry_exec(t, k), s) {
            return Some(k);
        }
        k = k + 1;
    }
    None
}

/// The video form.
pub struct VideoForm {
    pub video_prompt: String,
    pub video_neg: String,
    pub vmodel_index: usize,
    pub vsize_index: usize,
    pub vw_custom: i32,
    pub vh_custom: i32,
    pub vduration_index: usize,
    pub vframes_custom: i32,
    pub vfps_custom: i32,
    pub vmode: VMode,
    pub video_image_urls: Vec<String>,
    pub v25_mode: V25Mode,
    pub v25_seconds_index: usize,
    pub v25_ar_index: usize,
    pub v25_first: String,
    pub v25_last: String,
    pub v25_images: Vec<String>,
    pub v25_audios: Vec<String>,
    pub v25_videos: Vec<String>,
}

/// Frame size of a V2.0 video: the preset, or the custom size clamped to
/// 64..=4096.
pub open spec fn spec_video_dims(v: VideoForm) -> (int, int) {
    if v.vsize_index < 5 {
        let p = video_size_preset_spec(v.vsize_index as nat);
        (p.0 as int, p.1 as int)
    } else {
        (clamp(v.vw_custom as int, 64, 4096), clamp(v.vh_custom as int, 64, 4096))
    }
}

pub fn video_dims(v: &VideoForm) -> (r: (i32, i32))
    ensures
        r.0 as int == spec_video_dims(*v).0,
        r.1 as int == spec_video_dims(*v).1,
{
    if v.vsize_index < 5 {
        video_size_preset(v.vsize_index)
    } else {
        (clamp_i32(v.vw_custom, 64, 4096), clamp_i32(v.vh_custom, 64, 4096))
    }
}

/// Frame count of a V2.0 video: the preset's, or the custom count clamped to
/// 1..=441.
pub open spec fn spec_video_frames(v: VideoForm) -> int {
    if v.vduration_index < 4 {
        video_duration_preset_spec(v.vduration_index as nat).0 as int
    } else {
        clamp(v.vframes_custom as int, 1, 441)
    }
}

pub fn video_frames(v: &VideoForm) -> (r: i32)
    ensures
        r as int == spec_video_frames(*v),
{
    if v.vduration_index < 4 {
        video_duration_preset(v.vduration_index).0
    } else {
        clamp_i32(v.vframes_custom, 1, 441)
    }
}

/// Frame rate of a V2.0 video: the preset's, or the custom rate clamped to
/// 1..=60.
pub open spec fn spec_video_fps(v: VideoForm) -> int {
    if v.vduration_index < 4 {
        video_duration_preset_spec(v.vduration_index as nat).1 as int
    } else {
        clamp(v.vfps_custom as int, 1, 60)
    }
}

pub fn video_fps(v: &VideoForm) -> (r: i32)
    ensures
        r as int == spec_video_fps(*v),
{
    if v.vduration_index < 4 {
        video_duration_preset(v.vduration_index).1
    } else {
        clamp_i32(v.vfps_custom, 1, 60)
    }
}

/// The selected video model (an out-of-range index selects the last).
pub open spec fn spec_cur_video_model(v: VideoForm) -> Seq<char> {
    video_model_id_spec(min_nat(v.vmodel_index as nat, 2))
}

pub fn cur_video_model(v: &VideoForm) -> (r: &'static str)
    ensures
        r@ == spec_cur_video_model(*v),
{
    let i = if v.vmodel_index < 2 { v.vmodel_index } else { 2 };
    video_model_id(i)
}

/// Whether a 2.5 model (2.5 or 2.5 Flash) is selected.
pub fn is_video25(v: &VideoForm) -> (r: bool)
    ensures
        r == (spec_cur_video_model(*v) == MODEL_VIDEO_V25@ || spec_cur_video_model(*v)
            == MODEL_VIDEO_V25_FLASH@),
{
    let m = cur_video_model(v);
    str_eq(m, MODEL_VIDEO_V25) || str_eq(m, MODEL_VIDEO_V25_FLASH)
}

/// Whether 2.5 Flash is selected.
pub fn is_video25_flash(v: &VideoForm) -> (r: bool)
    ensures
        r == (spec_cur_video_model(*v) == MODEL_VIDEO_V25_FLASH@),
{
    str_eq(cur_video_model(v), MODEL_VIDEO_V25_FLASH)
}

/// A custom size "W x H" (each side trimmed, split at the first `x`).
pub open spec fn spec_custom_size(s: Seq<char>) -> Option<(i32, i32)> {
    let k = first_index(s, 'x');
    if k >= s.len() {
        None
    } else {
        match (parse_i32(trim(s.take(k as int))), parse_i32(trim(s.skip(k + 1int)))) {
            (Some(w), Some(h)) => Some((w, h)),
            _ => None,
        }
    }
}

pub fn custom_size(s: &str) -> (r: Option<(i32, i32)>)
    ensures
        r == spec_custom_size(s@),
{
    let cs = chars_of(s);
    let n = cs.len();
    assert(cs@.subrange(0, n as int) =~= cs@);
    let k = find_char(&cs, 0, n, 'x');
    if k >= n {
        return None;
    }
    let w_txt = s.substring_char(0, k);
    let h_txt = s.substring_char(k + 1, n);
    assert(w_txt@ =~= s@.take(k as int));
    assert(h_txt@ =~= s@.skip(k + 1int));
    let wv = chars_of(trim_str(w_txt));
    let hv = chars_of(trim_str(h_txt));
    assert(wv@.subrange(0, wv@.len() as int) =~= wv@);
    assert(hv@.subrange(0, hv@.len() as int) =~= hv@);
    let w = parse_i32_chars(&wv, 0, wv.len());
    let h = parse_i32_chars(&hv, 0, hv.len());
    match (w, h) {
        (Some(w), Some(h)) => Some((w, h)),
        _ => None,
    }
}

/// The image form restored from the settings (what is not restored keeps
/// its value): prompt, mode, output format and model; for the tier-sized
/// model the saved tier and ratio, or else the tier entry of the last exact
/// size; then the size preset of the last size, or else its custom size
/// clamped to 64..=4096.
pub open spec fn spec_image_defaults(f: ImageForm, c: Config) -> ImageForm {
    let mi = match position(Table::ImageModel, c.model@) {
        Some(i) => i,
        None => 0,
    };
    let tr: (nat, nat) = if spec_img_is_21(mi) {
        match (position(Table::Tier, c.image_tier@), position(Table::TierRatio, c.image_ratio@)) {
            (Some(t), Some(r)) => (t, r),
            _ => match spec_find_tier_combo(c.last_size@) {
                Some(p) => p,
                None => (f.tier_index as nat, f.ratio_index as nat),
            },
        }
    } else {
        (f.tier_index as nat, f.ratio_index as nat)
    };
    let sz: (nat, i32, i32) = match position(Table::SizePreset, c.last_size@) {
        Some(i) => (i, f.custom_w, f.custom_h),
        None => match spec_custom_size(c.last_size@) {
            Some((w, h)) => (11, clamp(w as int, 64, 4096) as i32, clamp(h as int, 64, 4096) as i32),
            None => (f.size_preset_index as nat, f.custom_w, f.custom_h),
        },
    };
    ImageForm {
        prompt: c.last_prompt,
        mode: if c.mode@ == "image"@ { Mode::Image } else { Mode::Text },
        out_fmt: if c.output_format@ == "b64_json"@ { OutFmt::B64 } else { OutFmt::Url },
        model_index: mi as usize,
        tier_index: tr.0 as usize,
        ratio_index: tr.1 as usize,
        size_preset_index: sz.0 as usize,
        custom_w: sz.1,
        custom_h: sz.2,
        ..f
    }
}

/// Restores the image form from the settings.
pub fn apply_image_defaults(f: &mut ImageForm, c: &Config)
    ensures
        *final(f) == spec_image_defaults(*old(f), *c),
{
    f.prompt = c.last_prompt.clone();
    f.mode = if str_eq(c.mode.as_str(), "image") { Mode::Image } else { Mode::Text };
    f.out_fmt = if str_eq(c.output_format.as_str(), "b64_json") { OutFmt::B64 } else { OutFmt::Url };
    f.model_index = match find_in(Table::ImageModel, c.model.as_str()) {
        Some(i) => i,
        None => 0,
    };
    if img_is_21(f.model_index) {
        let t = find_in(Table::Tier, c.image_tier.as_str());
        let r = find_in(Table::TierRatio, c.image_ratio.as_str());
        match (t, r) {
            (Some(ti), Some(ri)) => {
                f.tier_index = ti;
                f.ratio_index = ri;
            },
            _ => {
                if let Some((ti, ri)) = find_tier_combo(c.last_size.as_str()) {
                    f.tier_index = ti;
                    f.ratio_index = ri;
                }
            },
        }
    }
    match find_in(Table::SizePreset, c.last_size.as_str()) {
        Some(idx) => {
            f.size_preset_index = idx;
        },
        None => {
            if let Some((w, h)) = custom_size(c.last_size.as_str()) {
                f.custom_w = clamp_i32(w, 64, 4096);
                f.custom_h = clamp_i32(h, 64, 4096);
                f.size_preset_index = 11;
            }
        },
    }
}

/// The first video size preset (custom entry included) equal to (w, h), at
/// or after `k`.
pub open spec fn vsize_position_from(w: i32, h: i32, k: nat) -> Option<nat>
    decreases 6 - k,
{
    if k >= 6 {
        None
    } else if video_size_preset_spec(k) == (w, h) {
        Some(k)
    } else {
        vsize_position_from(w, h, k + 1)
    }
}

fn find_video_size(w: i32, h: i32) -> (r: Option<usize>)
    ensures
        pos_view(r) == vsize_position_from(w, h, 0),
        r matches Some(i) ==> i < 6,
{
    let mut k: usize = 0;
    while k < 6
        invariant
            k <= 6,
            vsize_position_from(w, h, 0) == vsize_position_from(w, h, k as nat),
        decreases 6 - k,
    {
        let p = video_size_preset(k);
        if p.0 == w && p.1 == h {
            return Some(k);
        }
        k = k + 1;
    }
    None
}

pub open spec fn spec_vmode_from_cfg(s: Seq<char>) -> VMode {
    if s == "image"@ {
        VMode::Image
    } else if s == "multi"@ {
        VMode::Multi
    } else if s == "keyframes"@ {
        VMode::Keyframes
    } else {
        VMode::Text
    }
}

pub open spec fn spec_v25_mode_from_cfg(s: Seq<char>) -> V25Mode {
    if s == "keyframe"@ {
        V25Mode::Keyframe
    } else if s == "reference"@ {
        V25Mode::Reference
    } else {
        V25Mode::Text
    }
}

/// The video form restored from the settings (what is not restored keeps
/// its value).
pub open spec fn spec_video_defaults(v: VideoForm, c: Config) -> VideoForm {
    let si = match vsize_position_from(c.video_width, c.video_height, 0) {
        Some(i) => i,
        None => 0,
    };
    VideoForm {
        video_prompt: c.last_video_prompt,
        video_neg: c.video_neg_prompt,
        vmodel_index: (match position(Table::VideoModel, c.video_model@) {
            Some(i) => i,
            None => 0,
        }) as usize,
        vsize_index: si as usize,
        vw_custom: if si == 5 { clamp(c.video_width as int, 64, 4096) as i32 } else { v.vw_custom },
        vh_custom: if si == 5 { clamp(c.video_height as int, 64, 4096) as i32 } else { v.vh_custom },
        vduration_index: min_nat(c.video_duration_preset as nat, 3) as usize,
        vframes_custom: c.video_num_frames,
        vfps_custom: c.video_frame_rate,
        vmode: spec_vmode_from_cfg(c.video_mode@),
        v25_mode: spec_v25_mode_from_cfg(c.video25_mode@),
        v25_seconds_index: (match position(Table::Seconds, c.video25_seconds@) {
            Some(i) => i,
            None => 1,
        }) as usize,
        v25_ar_index: (match position(Table::AspectRatio, c.video25_ar@) {
            Some(i) => i,
            None => 0,
        }) as usize,
        v25_first: c.video25_first_frame,
        v25_last: c.video25_last_frame,
        ..v
    }
}

/// Restores the video form from the settings.
pub fn apply_video_defaults(v: &mut VideoForm, c: &Config)
    ensures
        *final(v) == spec_video_defaults(*old(v), *c),
{
    v.video_prompt = c.last_video_prompt.clone();
    v.video_neg = c.video_neg_prompt.clone();
    v.vmodel_index = match find_in(Table::VideoModel, c.video_model.as_str()) {
        Some(i) => i,
        None => 0,
    };
    v.vsize_index = match find_video_size(c.video_width, c.video_height) {
        Some(i) => i,
        None => 0,
    };
    if v.vsize_index == 5 {
        v.vw_custom = clamp_i32(c.video_width, 64, 4096);
        v.vh_custom = clamp_i32(c.video_height, 64, 4096);
    }
    v.vduration_index = if c.video_duration_preset < 3 { c.video_duration_preset } else { 3 };
    v.vframes_custom = c.video_num_frames;
    v.vfps_custom = c.video_frame_rate;
    v.vmode = if str_eq(c.video_mode.as_str(), "image") {
        VMode::Image
    } else if str_eq(c.video_mode.as_str(), "multi") {
        VMode::Multi
    } else if str_eq(c.video_mode.as_str(), "keyframes") {
        VMode::Keyframes
    } else {
        VMode::Text
    };
    v.v25_mode = if str_eq(c.video25_mode.as_str(), "keyframe") {
        V25Mode::Keyframe
    } else if str_eq(c.video25_mode.as_str(), "reference") {
        V25Mode::Reference
    } else {
        V25Mode::Text
    };
    v.v25_seconds_index = match find_in(Table::Seconds, c.video25_seconds.as_str()) {
        Some(i) => i,
        None => 1,
    };
    v.v25_ar_index = match find_in(Table::AspectRatio, c.video25_ar.as_str()) {
        Some(i) => i,
        None => 0,
    };
    v.v25_first = c.video25_first_frame.clone();
    v.v25_last = c.video25_last_frame.clone();
}

/// The text key of the first failed check of an image request, if any: a
/// key is needed, then a prompt, then an input image in image mode.
pub open spec fn image_check(f: ImageForm, api_key: Seq<char>) -> Option<Seq<char>> {
    if is_blank(api_key) {
        Some("err.nokey"@)
    } else if is_blank(f.prompt@) {
        Some("err.noprompt"@)
    } else if f.mode == Mode::Image && spec_cur_input(f) is None {
        Some("err.noinput"@)
    } else {
        None
    }
}

pub open spec fn out_fmt_text(o: OutFmt) -> Seq<char> {
    match o {
        OutFmt::Url => "url"@,
        OutFmt::B64 => "b64_json"@,
    }
}

pub open spec fn mode_text(m: Mode) -> Seq<char> {
    match m {
        Mode::Text => "text"@,
        Mode::Image => "image"@,
    }
}

/// How a passed image request is recorded in the settings: prompt, model,
/// output format and mode; for the tier-sized model its tier, ratio and
/// exact size, else the size.
pub open spec fn image_recorded(c2: Config, c: Config, f: ImageForm) -> bool {
    &&& c2.last_prompt == f.prompt
    &&& c2.model@ == image_model_id_spec(f.model_index as nat)
    &&& c2.output_format@ == out_fmt_text(f.out_fmt)
    &&& c2.mode@ == mode_text(f.mode)
    &&& (spec_resolved_ratio(f) matches Some(ra) ==> c2.image_tier@ == spec_resolved_size(f)
        && c2.image_ratio@ == ra && c2.last_size@ == spec_tier_exact_size(f))
    &&& (spec_resolved_ratio(f) is None ==> c2.image_tier == c.image_tier
        && c2.image_ratio == c.image_ratio && c2.last_size@ == spec_resolved_size(f))
    &&& c2 == (Config {
        last_prompt: c2.last_prompt,
        model: c2.model,
        output_format: c2.output_format,
        mode: c2.mode,
        image_tier: c2.image_tier,
        image_ratio: c2.image_ratio,
        last_size: c2.last_size,
        ..c
    })
}

/// Checks the image form and, when it passes, records the choices in the
/// settings and returns the request parameters; a failed check leaves the
/// settings alone and gives its message in `lang`.
pub fn prepare_image_generation(f: &ImageForm, cfg: &mut Config, lang: Lang) -> (r: Result<GenParams, String>)
    requires
        f.model_index < 2,
    ensures
        match image_check(*f, old(cfg).api_key@) {
            Some(k) => (r matches Err(e) && e@ == spec_t(lang, k)) && *final(cfg) == *old(cfg),
            None => r matches Ok(p) && {
                &&& p.api_key == old(cfg).api_key
                &&& p.model@ == image_model_id_spec(f.model_index as nat)
                &&& p.prompt == f.prompt
                &&& p.size@ == spec_resolved_size(*f)
                &&& api::opt_view(p.ratio) == spec_resolved_ratio(*f)
                &&& api::opt_view(p.input_image) == spec_cur_input(*f)
                &&& p.output_format@ == out_fmt_text(f.out_fmt)
                &&& image_recorded(*final(cfg), *old(cfg), *f)
            },
        },
{
    if is_blank_str(cfg.api_key.as_str()) {
        return Err(t(lang, "err.nokey").to_string());
    }
    if is_blank_str(f.prompt.as_str()) {
        return Err(t(lang, "err.noprompt").to_string());
    }
    let input = cur_input(f);
    if f.mode == Mode::Image && input.is_none() {
        return Err(t(lang, "err.noinput").to_string());
    }
    let size = resolved_size(f);
    let ratio = resolved_ratio(f);
    let model = image_model_id(f.model_index).to_string();
    let fmt = match f.out_fmt {
        OutFmt::Url => "url",
        OutFmt::B64 => "b64_json",
    };
    cfg.last_prompt = f.prompt.clone();
    cfg.model = model.clone();
    cfg.output_format = fmt.to_string();
    cfg.mode = match f.mode {
        Mode::Text => "text".to_string(),
        Mode::Image => "image".to_string(),
    };
    match &ratio {
        Some(ra) => {
            cfg.image_tier = size.clone();
            cfg.image_ratio = ra.clone();
            cfg.last_size = tier_exact_size(f).to_string();
        },
        None => {
            cfg.last_size = size.clone();
        },
    }
    Ok(GenParams {
        api_key: cfg.api_key.clone(),
        model,
        prompt: f.prompt.clone(),
        size,
        ratio,
        input_image: input,
        output_format: fmt.to_string(),
    })
}

/// Some trimmed text, or none when it is empty.
pub open spec fn nonempty_trimmed(s: Seq<char>) -> Option<Seq<char>> {
    if trim(s).len() == 0 {
        None
    } else {
        Some(trim(s))
    }
}

/// The text key of the first failed check of a 2.5 request, if any:
/// keyframe mode needs a frame, reference mode a reference, and Flash takes
/// at most 5 images and no video.
pub open spec fn v25_check(v: VideoForm, flash: bool) -> Option<Seq<char>> {
    let imgs = api::clean_list(views(v.v25_images@));
    let auds = api::clean_list(views(v.v25_audios@));
    let vids = api::clean_list(views(v.v25_videos@));
    if v.v25_mode == V25Mode::Keyframe && trim(v.v25_first@).len() == 0 && trim(v.v25_last@).len() == 0 {
        Some("err.kf"@)
    } else if v.v25_mode == V25Mode::Reference && imgs.len() == 0 && auds.len() == 0 && vids.len() == 0 {
        Some("err.ref"@)
    } else if flash && imgs.len() > 5 {
        Some("err.flashimg"@)
    } else if flash && vids.len() > 0 {
        Some("err.flashvid"@)
    } else {
        None
    }
}

/// Images a V2.0 mode needs.
pub open spec fn v20_min_images(m: VMode) -> nat {
    match m {
        VMode::Text => 0,
        VMode::Image => 1,
        _ => 2,
    }
}

/// The text key of the failed check of a V2.0 request, if any.
pub open spec fn v20_check(v: VideoForm) -> Option<Seq<char>> {
    let valid = api::clean_list(views(v.video_image_urls@));
    if v.vmode != VMode::Text && valid.len() < v20_min_images(v.vmode) {
        Some(if v.vmode == VMode::Image { "err.1img"@ } else { "err.2img"@ })
    } else {
        None
    }
}

/// The text key of the first failed check of a video request, if any.
pub open spec fn video_check(v: VideoForm, api_key: Seq<char>) -> Option<Seq<char>> {
    if is_blank(api_key) {
        Some("err.nokey"@)
    } else if is_blank(v.video_prompt@) {
        Some("err.noprompt"@)
    } else if spec_cur_video_model(v) != MODEL_VIDEO_V20@ {
        v25_check(v, spec_cur_video_model(v) == MODEL_VIDEO_V25_FLASH@)
    } else {
        v20_check(v)
    }
}

/// The 2.5 parameters the form asks for.
pub open spec fn v25_kind_ok(v: VideoForm, flash: bool, k: VideoKind) -> bool {
    match k {
        VideoKind::V25 { mode, seconds, aspect_ratio, seed, first_frame, last_frame, images, audios, videos, flash: fl } => {
            &&& mode == v.v25_mode
            &&& seconds@ == v25_seconds_spec(min_nat(v.v25_seconds_index as nat, 8))
            &&& aspect_ratio@ == v25_aspect_ratio_spec(min_nat(v.v25_ar_index as nat, 5))
            &&& seed is None
            &&& api::opt_view(first_frame) == nonempty_trimmed(v.v25_first@)
            &&& api::opt_view(last_frame) == nonempty_trimmed(v.v25_last@)
            &&& views(images@) == api::clean_list(views(v.v25_images@))
            &&& views(audios@) == api::clean_list(views(v.v25_audios@))
            &&& views(videos@) == api::clean_list(views(v.v25_videos@))
            &&& fl == flash
        },
        _ => false,
    }
}

/// The V2.0 parameters the form asks for.
pub open spec fn v20_kind_ok(v: VideoForm, k: VideoKind) -> bool {
    match k {
        VideoKind::V20 { negative_prompt, width, height, num_frames, frame_rate, seed, images, keyframes } => {
            &&& negative_prompt == v.video_neg
            &&& width as int == spec_video_dims(v).0
            &&& height as int == spec_video_dims(v).1
            &&& num_frames as int == spec_video_frames(v)
            &&& frame_rate as int == spec_video_fps(v)
            &&& seed is None
            &&& views(images@) == api::clean_list(views(v.video_image_urls@))
            &&& keyframes == (v.vmode == VMode::Keyframes)
        },
        _ => false,
    }
}

fn trimmed_opt(s: &str) -> (r: Option<String>)
    ensures
        api::opt_view(r) == nonempty_trimmed(s@),
{
    let t = trim_str(s);
    if t.unicode_len() == 0 {
        None
    } else {
        Some(t.to_string())
    }
}

fn build_v25_kind(v: &VideoForm, flash: bool, lang: Lang) -> (r: Result<VideoKind, String>)
    ensures
        match v25_check(*v, flash) {
            Some(k) => r matches Err(e) && e@ == spec_t(lang, k),
            None => r matches Ok(kind) && v25_kind_ok(*v, flash, kind),
        },
{
    let first = trimmed_opt(v.v25_first.as_str());
    let last = trimmed_opt(v.v25_last.as_str());
    let images = api::clean_urls(&v.v25_images);
    let audios = api::clean_urls(&v.v25_audios);
    let videos = api::clean_urls(&v.v25_videos);
    assert(views(images@).len() == images@.len());
    assert(views(audios@).len() == audios@.len());
    assert(views(videos@).len() == videos@.len());
    match v.v25_mode {
        V25Mode::Keyframe => {
            if first.is_none() && last.is_none() {
                return Err(t(lang, "err.kf").to_string());
            }
        },
        V25Mode::Reference => {
            if images.len() == 0 && audios.len() == 0 && videos.len() == 0 {
                return Err(t(lang, "err.ref").to_string());
            }
        },
        V25Mode::Text => {},
    }
    if flash {
        if images.len() > 5 {
            return Err(t(lang, "err.flashimg").to_string());
        }
        if videos.len() != 0 {
            return Err(t(lang, "err.flashvid").to_string());
        }
    }
    let si = if v.v25_seconds_index < 8 { v.v25_seconds_index } else { 8 };
    let ai = if v.v25_ar_index < 5 { v.v25_ar_index } else { 5 };
    Ok(VideoKind::V25 {
        mode: v.v25_mode,
        seconds: v25_seconds(si).to_string(),
        aspect_ratio: v25_aspect_ratio(ai).to_string(),
        seed: None,
        first_frame: first,
        last_frame: last,
        images,
        audios,
        videos,
        flash,
    })
}

fn build_v20_kind(v: &VideoForm, lang: Lang) -> (r: Result<VideoKind, String>)
    ensures
        match v20_check(*v) {
            Some(k) => r matches Err(e) && e@ == spec_t(lang, k),
            None => r matches Ok(kind) && v20_kind_ok(*v, kind),
        },
{
    let valid = api::clean_urls(&v.video_image_urls);
    assert(views(valid@).len() == valid@.len());
    let min_imgs: usize = match v.vmode {
        VMode::Text => 0,
        VMode::Image => 1,
        _ => 2,
    };
    if v.vmode != VMode::Text && valid.len() < min_imgs {
        if v.vmode == VMode::Image {
            return Err(t(lang, "err.1img").to_string());
        } else {
            return Err(t(lang, "err.2img").to_string());
        }
    }
    let (w, h) = video_dims(v);
    let frames = video_frames(v);
    let fps = video_fps(v);
    Ok(VideoKind::V20 {
        negative_prompt: v.video_neg.clone(),
        width: w,
        height: h,
        num_frames: frames,
        frame_rate: fps,
        seed: None,
        images: valid,
        keyframes: v.vmode == VMode::Keyframes,
    })
}

pub open spec fn vmode_text(m: VMode) -> Seq<char> {
    match m {
        VMode::Text => "text"@,
        VMode::Image => "image"@,
        VMode::Multi => "multi"@,
        VMode::Keyframes => "keyframes"@,
    }
}

/// How a passed video request is recorded in the settings.
pub open spec fn video_recorded(c2: Config, c: Config, v: VideoForm, model: Seq<char>) -> bool {
    &&& c2.video_model@ == model
    &&& c2.last_video_prompt == v.video_prompt
    &&& if model != MODEL_VIDEO_V20@ {
        &&& c2.video25_mode@ == api::v25_mode_text(v.v25_mode)
        &&& c2.video25_seconds@ == v25_seconds_spec(min_nat(v.v25_seconds_index as nat, 8))
        &&& c2.video25_ar@ == v25_aspect_ratio_spec(min_nat(v.v25_ar_index as nat, 5))
        &&& c2.video25_first_frame == v.v25_first
        &&& c2.video25_last_frame == v.v25_last
        &&& c2 == (Config {
            video_model: c2.video_model,
            last_video_prompt: c2.last_video_prompt,
            video25_mode: c2.video25_mode,
            video25_seconds: c2.video25_seconds,
            video25_ar: c2.video25_ar,
            video25_first_frame: c2.video25_first_frame,
            video25_last_frame: c2.video25_last_frame,
            ..c
        })
    } else {
        &&& c2.video_neg_prompt == v.video_neg
        &&& c2.video_width as int == spec_video_dims(v).0
        &&& c2.video_height as int == spec_video_dims(v).1
        &&& c2.video_num_frames as int == spec_video_frames(v)
        &&& c2.video_frame_rate as int == spec_video_fps(v)
        &&& c2.video_duration_preset == v.vduration_index
        &&& c2.video_mode@ == vmode_text(v.vmode)
        &&& c2 == (Config {
            video_model: c2.video_model,
            last_video_prompt: c2.last_video_prompt,
            video_neg_prompt: c2.video_neg_prompt,
            video_width: c2.video_width,
            video_height: c2.video_height,
            video_num_frames: c2.video_num_frames,
            video_frame_rate: c2.video_frame_rate,
            video_duration_preset: c2.video_duration_preset,
            video_mode: c2.video_mode,
            ..c
        })
    }
}

/// Checks the video form and, when it passes, records the choices in the
/// settings and returns the request parameters and the model; a failed
/// check leaves the settings alone and gives its message in `lang`.
pub fn prepare_video_generation(v: &VideoForm, cfg: &mut Config, lang: Lang) -> (r: Result<(VideoParams, String), String>)
    ensures
        match video_check(*v, old(cfg).api_key@) {
            Some(k) => (r matches Err(e) && e@ == spec_t(lang, k)) && *final(cfg) == *old(cfg),
            None => r matches Ok((p, model)) && {
                &&& model@ == spec_cur_video_model(*v)
                &&& p.api_key == old(cfg).api_key
                &&& p.prompt == v.video_prompt
                &&& (model@ != MODEL_VIDEO_V20@ ==> v25_kind_ok(*v, model@ == MODEL_VIDEO_V25_FLASH@, p.kind))
                &&& (model@ == MODEL_VIDEO_V20@ ==> v20_kind_ok(*v, p.kind))
                &&& video_recorded(*final(cfg), *old(cfg), *v, model@)
            },
        },
{
    if is_blank_str(cfg.api_key.as_str()) {
        return Err(t(lang, "err.nokey").to_string());
    }
    if is_blank_str(v.video_prompt.as_str()) {
        return Err(t(lang, "err.noprompt").to_string());
    }
    let model_id = cur_video_model(v);
    let v25 = !str_eq(model_id, MODEL_VIDEO_V20);
    let flash = str_eq(model_id, MODEL_VIDEO_V25_FLASH);
    let kind = if v25 {
        build_v25_kind(v, flash, lang)
    } else {
        build_v20_kind(v, lang)
    };
    let kind = match kind {
        Ok(k) => k,
        Err(e) => {
            return Err(e);
        },
    };
    let model = model_id.to_string();
    cfg.video_model = model.clone();
    cfg.last_video_prompt = v.video_prompt.clone();
    if v25 {
        cfg.video25_mode = match v.v25_mode {
            V25Mode::Text => "text".to_string(),
            V25Mode::Keyframe => "keyframe".to_string(),
            V25Mode::Reference => "reference".to_string(),
        };
        let si = if v.v25_seconds_index < 8 { v.v25_seconds_index } else { 8 };
        let ai = if v.v25_ar_index < 5 { v.v25_ar_index } else { 5 };
        cfg.video25_seconds = v25_seconds(si).to_string();
        cfg.video25_ar = v25_aspect_ratio(ai).to_string();
        cfg.video25_first_frame = v.v25_first.clone();
        cfg.video25_last_frame = v.v25_last.clone();
    } else {
        cfg.video_neg_prompt = v.video_neg.clone();
        let (w, h) = video_dims(v);
        cfg.video_width = w;
        cfg.video_height = h;
        cfg.video_num_frames = video_frames(v);
        cfg.video_frame_rate = video_fps(v);
        cfg.video_duration_preset = v.vduration_index;
        cfg.video_mode = match v.vmode {
            VMode::Text => "text".to_string(),
            VMode::Image => "image".to_string(),
            VMode::Multi => "multi".to_string(),
            VMode::Keyframes => "keyframes".to_string(),
        };
    }
    Ok((VideoParams { api_key: cfg.api_key.clone(), prompt: v.video_prompt.clone(), kind }, model))
}

/// The message shown for a task status: a failure without detail, and the
/// raw "queued" / "in_progress" statuses, are given in `lang`; anything else
/// is shown as it came.
pub open spec fn spec_status_text(lang: Lang, failed: bool, message: Seq<char>) -> Seq<char> {
    if failed && message.len() == 0 {
        spec_t(lang, "vs.fail"@)
    } else if message == "queued"@ {
        spec_t(lang, "vs.queued"@)
    } else if message == "in_progress"@ {
        spec_t(lang, "vs.running"@)
    } else {
        message
    }
}

pub fn status_text(lang: Lang, failed: bool, message: &str) -> (r: String)
    ensures
        r@ == spec_status_text(lang, failed, message@),
{
    if failed && message.unicode_len() == 0 {
        t(lang, "vs.fail").to_string()
    } else if str_eq(message, "queued") {
        t(lang, "vs.queued").to_string()
    } else if str_eq(message, "in_progress") {
        t(lang, "vs.running").to_string()
    } else {
        message.to_string()
    }
}

/// What polling does with a status answer that came back.
pub enum PollAction {
    /// The task failed: report this message and stop.
    Fail(String),
    /// The task completed: fetch the video from this URL.
    Download(String),
    /// The task is still queued or running: report the answer and go on.
    Continue,
}

/// A failed task reports its detail; a completed task is downloaded from
/// its URL, or fails with the "no URL" text in `lang` when it has none; any
/// other answer keeps polling.
pub fn poll_action(o: &api::StatusOutcome, lang: Lang) -> (r: PollAction)
    ensures
        o.failed ==> (r matches PollAction::Fail(m) && m@ == o.message@),
        !o.failed && o.done && o.video_url is Some ==> (r matches PollAction::Download(u)
            && Some(u@) == api::opt_view(o.video_url)),
        !o.failed && o.done && o.video_url is None ==> (r matches PollAction::Fail(m) && m@
            == spec_t(lang, "vs.nourl"@)),
        !o.failed && !o.done ==> r is Continue,
{
    if o.failed {
        PollAction::Fail(o.message.clone())
    } else if o.done {
        match &o.video_url {
            Some(u) => PollAction::Download(u.clone()),
            None => PollAction::Fail(t(lang, "vs.nourl").to_string()),
        }
    } else {
        PollAction::Continue
    }
}

/// The part of the video panel that a status report changes.
pub struct VideoStatusView {
    pub loading: bool,
    pub message: String,
    pub error: String,
}

/// How the panel takes a status report: the message is localised as by
/// `status_text`; a transient report shows it as the error and keeps the
/// task; a failure stops the task with it; any other report clears the
/// error and, when done, says the download completed.
pub open spec fn status_applied(v2: VideoStatusView, v: VideoStatusView, lang: Lang, done: bool, failed: bool, message: Seq<char>, transient: bool) -> bool {
    let m = spec_status_text(lang, failed, message);
    if transient {
        v2.loading == v.loading && v2.message@ == m && v2.error@ == m
    } else if failed {
        !v2.loading && v2.message@ == m && v2.error@ == m
    } else {
        &&& v2.loading == v.loading
        &&& v2.error@.len() == 0
        &&& v2.message@ == (if done { spec_t(lang, "vs.dldone"@) } else { m })
    }
}

/// Applies a status report to the video panel.
pub fn apply_video_status(v: &mut VideoStatusView, lang: Lang, done: bool, failed: bool, message: &str, transient: bool)
    ensures
        status_applied(*final(v), *old(v), lang, done, failed, message@, transient),
{
    let m = status_text(lang, failed, message);
    v.message = m.clone();
    if transient {
        v.error = m;
    } else if failed {
        v.loading = false;
        v.error = m;
    } else {
        v.error = String::new();
        if done {
            v.message = t(lang, "vs.dldone").to_string();
        }
    }
}

/// Whether `p` occurs in `s`, ASCII letters compared without case when
/// `fold` is set.
pub open spec fn occurs(s: Seq<char>, p: Seq<char>, fold: bool) -> bool {
    exists|i: int|
        0 <= i && i + p.len() <= s.len() && #[trigger] chunk_matches(s, p, i, fold)
}

pub open spec fn chunk_matches(s: Seq<char>, p: Seq<char>, i: int, fold: bool) -> bool {
    if fold {
        eq_ignore_ascii_case(s.subrange(i, i + p.len()), p)
    } else {
        s.subrange(i, i + p.len()) == p
    }
}

fn chunk_matches_exec(s: &Vec<char>, p: &Vec<char>, i: usize, fold: bool) -> (r: bool)
    requires
        i + p@.len() <= s@.len(),
    ensures
        r == chunk_matches(s@, p@, i as int, fold),
{
    let m = p.len();
    let sl = s.len();
    let mut k: usize = 0;
    while k < m
        invariant
            sl == s@.len(),
            m == p@.len(),
            i + m <= s@.len(),
            k <= m,
            forall|j: int| 0 <= j < k ==> (if fold {
                ascii_lower(s@[i + j]) == ascii_lower(p@[j])
            } else {
                s@[i + j] == p@[j]
            }),
        decreases m - k,
    {
        assert(i + k < s@.len());
        let a = s[i + k];
        let b = p[k];
        let same = if fold { ascii_lower_char(a) == ascii_lower_char(b) } else { a == b };
        if !same {
            assert(s@.subrange(i as int, i + m)[k as int] == a);
            return false;
        }
        k = k + 1;
    }
    proof {
        let c = s@.subrange(i as int, i + m);
        if fold {
            assert forall|j: int| 0 <= j < c.len() implies ascii_lower(#[trigger] c[j]) == ascii_lower(p@[j]) by {
                assert(c[j] == s@[i + j]);
            }
        } else {
            assert(c =~= p@);
        }
    }
    true
}

/// Whether `p` occurs in `s` (ASCII case folded when `fold` is set).
pub fn occurs_in(s: &str, p: &str, fold: bool) -> (r: bool)
    ensures
        r == occurs(s@, p@, fold),
{
    let sv = chars_of(s);
    let pv = chars_of(p);
    let n = sv.len();
    let m = pv.len();
    if m > n {
        return false;
    }
    if m == 0 {
        assert(chunk_matches(s@, p@, 0, fold)) by {
            assert(s@.subrange(0, 0) =~= p@);
        }
        return true;
    }
    let mut i: usize = 0;
    while i <= n - m
        invariant
            sv@ == s@,
            pv@ == p@,
            n == s@.len(),
            m == p@.len(),
            0 < m <= n,
            i <= n - m + 1,
            forall|j: int| 0 <= j < i ==> !chunk_matches(s@, p@, j, fold),
        decreases n - m + 1 - i,
    {
        if chunk_matches_exec(&sv, &pv, i, fold) {
            return true;
        }
        i = i + 1;
    }
    false
}

/// Whether a failed status query looks rate-limited: it mentions "429" or,
/// in any ASCII case, "rate limit".
pub open spec fn spec_rate_limited(e: Seq<char>) -> bool {
    occurs(e, "429"@, false) || occurs(e, "rate limit"@, true)
}

pub fn rate_limited(e: &str) -> (r: bool)
    ensures
        r == spec_rate_limited(e@),
{
    occurs_in(e, "429", false) || occurs_in(e, "rate limit", true)
}

/// What polling does after a failed status query.
pub struct PollRetry {
    /// Seconds until the next query.
    pub interval: u64,
    /// Failed queries in a row.
    pub fails: u32,
    /// The temporary message shown meanwhile.
    pub hint: String,
    /// Whether to give the task up as failed.
    pub give_up: bool,
}

/// After a failed status query: one more failure, the wait doubled up to 30
/// seconds, a rate-limit or generic retry hint naming the wait, and giving
/// up at 20 failures in a row.
pub fn poll_retry(interval: u64, fails: u32, error: &str, lang: Lang) -> (r: PollRetry)
    requires
        fails < u32::MAX,
    ensures
        r.fails == fails + 1,
        r.interval == next_interval(interval as nat),
        r.give_up == (fails + 1 >= 20),
        r.hint@ == replace_all(
            spec_t(lang, if spec_rate_limited(error@) { "vs.retry429"@ } else { "vs.retry"@ }),
            "{n}"@,
            decimal(r.interval as nat),
        ),
{
    let next = if interval >= 15 { 30 } else { interval * 2 };
    let n = crate::text::decimal_string(next);
    let key = if rate_limited(error) { "vs.retry429" } else { "vs.retry" };
    let args = [("n", n.as_str())];
    let hint = tf(lang, key, &args);
    proof {
        reveal_strlit("n");
        reveal_strlit("{n}");
        let a = args@;
        assert(a.drop_last() =~= Seq::<(&str, &str)>::empty());
        assert(crate::i18n::placeholder(a.last().0@) =~= "{n}"@);
        let st = spec_t(lang, key@);
        assert(fill(st, a.drop_last()) == st);
        assert(fill(st, a) == replace_all(fill(st, a.drop_last()), crate::i18n::placeholder(a.last().0@), a.last().1@));
    }
    PollRetry { interval: next, fails: fails + 1, hint, give_up: fails + 1 >= 20 }
}

/// The wait after one more failed status query: doubled, at most 30
/// seconds.
pub open spec fn next_interval(i: nat) -> nat {
    if 2 * i < 30 {
        2 * i
    } else {
        30
    }
}

/// The polling state (wait in seconds, failures) after `k` failed status
/// queries in a row since the last answered one, or since the start.
pub open spec fn polled(k: nat) -> (nat, nat)
    decreases k,
{
    if k == 0 {
        (5, 0)
    } else {
        let p = polled((k - 1) as nat);
        (next_interval(p.0), p.1 + 1)
    }
}

/// After `k` failed queries in a row the wait is min(5 * 2^k, 30) seconds,
/// `k` failures are counted, and the task is given up from the 20th on.
pub proof fn lemma_polled(k: nat)
    ensures
        polled(k).0 == min_int((5 * pow2(k)) as int, 30),
        polled(k).1 == k,
        polled(k).1 >= 20 <==> k >= 20,
    decreases k,
{
    if k == 0 {
        reveal(vstd::arithmetic::power::pow);
        assert(pow2(0) == 1);
    } else {
        lemma_polled((k - 1) as nat);
        lemma_pow2_unfold(k);
    }
}

/// The polling state: seconds until the next status query, and failed
/// queries in a row.
pub struct PollState {
    pub interval: u64,
    pub fails: u32,
}

impl PollState {
    /// The state before the first query: 5 seconds, no failure.
    pub fn fresh() -> (r: PollState)
        ensures
            r.interval == 5,
            r.fails == 0,
            (r.interval as nat, r.fails as nat) == polled(0),
    {
        PollState { interval: 5, fails: 0 }
    }

    /// After an answered query (or while no task runs) polling starts over.
    pub fn answered(&mut self)
        ensures
            final(self).interval == 5,
            final(self).fails == 0,
            (final(self).interval as nat, final(self).fails as nat) == polled(0),
    {
        self.interval = 5;
        self.fails = 0;
    }

    /// After a failed query: the step of `poll_retry`, kept in the state.
    pub fn failed(&mut self, error: &str, lang: Lang) -> (r: PollRetry)
        requires
            old(self).fails < u32::MAX,
        ensures
            final(self).interval == r.interval,
            final(self).fails == r.fails,
            forall|k: nat| (old(self).interval as nat, old(self).fails as nat) == #[trigger] polled(k)
                ==> (final(self).interval as nat, final(self).fails as nat) == polled(k + 1),
            r.fails == old(self).fails + 1,
            r.interval == next_interval(old(self).interval as nat),
            r.give_up == (r.fails >= 20),
            r.hint@ == replace_all(
                spec_t(lang, if spec_rate_limited(error@) { "vs.retry429"@ } else { "vs.retry"@ }),
                "{n}"@,
                decimal(r.interval as nat),
            ),
    {
        let r = poll_retry(self.interval, self.fails, error, lang);
        self.interval = r.interval;
        self.fails = r.fails;
        r
    }
}

pub open spec fn min_int(a: int, b: int) -> int {
    if a < b { a } else { b }
}

/// Polling through failed queries from a fresh state (an answered query
/// starts a fresh one): after `i` failures in a row the wait is
/// min(5 * 2^i, 30) seconds, `i` failures are counted, and the task is
/// given up from the 20th on.
pub proof fn lemma_polling_backoff(s: Seq<PollState>)
    requires
        s.len() > 0,
        s[0].interval == 5,
        s[0].fails == 0,
        forall|i: int| 1 <= i < s.len() ==> #[trigger] s[i].interval == next_interval(s[i - 1].interval as nat)
            && s[i].fails == s[i - 1].fails + 1,
    ensures
        forall|i: int| 0 <= i < s.len() ==> #[trigger] s[i].interval == min_int((5 * pow2(i as nat)) as int, 30)
            && s[i].fails == i && (s[i].fails >= 20 <==> i >= 20),
    decreases s.len(),
{
    if s.len() == 1 {
        reveal(vstd::arithmetic::power::pow);
        assert(pow2(0) == 1);
    } else {
        let t = s.drop_last();
        assert forall|i: int| 1 <= i < t.len() implies #[trigger] t[i].interval == next_interval(t[i - 1].interval as nat)
            && t[i].fails == t[i - 1].fails + 1 by {
            assert(t[i] == s[i] && t[i - 1] == s[i - 1]);
            assert(s[i].interval == next_interval(s[i - 1].interval as nat));
        }
        lemma_polling_backoff(t);
        let k = s.len() - 1;
        assert(t[k - 1] == s[k - 1]);
        assert(t[k - 1].interval == min_int((5 * pow2((k - 1) as nat)) as int, 30));
        assert(s[k].interval == next_interval(s[k - 1].interval as nat));
        lemma_pow2_unfold(k as nat);
        assert forall|i: int| 0 <= i < s.len() implies #[trigger] s[i].interval == min_int((5 * pow2(i as nat)) as int, 30)
            && s[i].fails == i && (s[i].fails >= 20 <==> i >= 20) by {
            if i < k {
                assert(t[i] == s[i]);
            }
        }
    }
}

/// `str::parse::<usize>`.
pub open spec fn parse_usize(s: Seq<char>) -> Option<nat> {
    match parse_u64(s) {
        Some(v) => if v <= usize::MAX { Some(v as nat) } else { None },
        None => None,
    }
}

fn parse_usize_str(s: &str) -> (r: Option<usize>)
    ensures
        pos_view(r) == parse_usize(s@),
{
    let cs = chars_of(s);
    assert(cs@.subrange(0, cs@.len() as int) =~= cs@);
    match parse_u64_chars(&cs, 0, cs.len()) {
        Some(v) => if v <= usize::MAX as u64 { Some(v as usize) } else { None },
        None => None,
    }
}

pub open spec fn max_nat(a: nat, b: nat) -> nat {
    if a < b { b } else { a }
}

/// The byte range asked for by a `Range: bytes=start-end` header, for
/// content of `total` bytes. A suffix range `bytes=-n` with n > 0 asks for
/// the last n bytes (all of them when n exceeds the content). Otherwise a
/// missing or unparsable start is 0 and a missing or unparsable end is the
/// last byte; both are kept within the content and the end is not before
/// the start.
pub open spec fn spec_byte_range(header: Option<Seq<char>>, total: nat) -> (nat, nat) {
    let last = (total - 1) as nat;
    let raw: (nat, nat) = match header {
        Some(rh) => if has_prefix(rh, "bytes="@) {
            let sp = rh.skip(6);
            let k = first_index(sp, '-');
            let ss = sp.take(k as int);
            let se = if k < sp.len() { sp.skip(k + 1int) } else { Seq::empty() };
            if ss.len() == 0 && (parse_usize(se) matches Some(n) && n > 0) {
                ((total - min_nat(parse_usize(se)->0, total)) as nat, last)
            } else {
                let st: nat = if ss.len() == 0 {
                    0
                } else {
                    match parse_usize(ss) {
                        Some(v) => v,
                        None => 0,
                    }
                };
                let en: nat = if se.len() == 0 {
                    last
                } else {
                    min_nat(
                        match parse_usize(se) {
                            Some(v) => v,
                            None => last,
                        },
                        last,
                    )
                };
                (min_nat(st, last), en)
            }
        } else {
            (0, last)
        },
        None => (0, last),
    };
    let start = min_nat(raw.0, last);
    (start, max_nat(min_nat(raw.1, last), start))
}

/// The inclusive byte range to serve, and whether a range was asked for.
pub struct ByteRange {
    pub start: usize,
    pub end: usize,
    pub partial: bool,
}

pub fn byte_range(header: Option<&str>, total: usize) -> (r: ByteRange)
    requires
        total > 0,
    ensures
        r.start as nat == spec_byte_range(
            match header {
                Some(h) => Some(h@),
                None => None,
            },
            total as nat,
        ).0,
        r.end as nat == spec_byte_range(
            match header {
                Some(h) => Some(h@),
                None => None,
            },
            total as nat,
        ).1,
        r.partial == header is Some,
        r.start <= r.end < total,
{
    let last = total - 1;
    let (s0, e0) = match header {
        Some(rh) => {
            proof {
                reveal_strlit("bytes=");
            }
            if crate::text::starts_with_str(rh, "bytes=") {
                let n = rh.unicode_len();
                let sp = rh.substring_char(6, n);
                assert(sp@ =~= rh@.skip(6));
                let cs = chars_of(sp);
                let m = cs.len();
                assert(cs@.subrange(0, m as int) =~= cs@);
                let k = find_char(&cs, 0, m, '-');
                let ss = sp.substring_char(0, k);
                assert(ss@ =~= sp@.take(k as int));
                let se = if k < m {
                    let x = sp.substring_char(k + 1, m);
                    assert(x@ =~= sp@.skip(k + 1int));
                    x
                } else {
                    let x = sp.substring_char(m, m);
                    assert(x@ =~= Seq::<char>::empty());
                    x
                };
                let suffix = if ss.unicode_len() == 0 { parse_usize_str(se) } else { None };
                match suffix {
                    Some(n) if n > 0 => {
                        let m = if n < total { n } else { total };
                        return ByteRange { start: total - m, end: last, partial: true };
                    },
                    _ => {},
                }
                let st: usize = if ss.unicode_len() == 0 {
                    0
                } else {
                    match parse_usize_str(ss) {
                        Some(v) => v,
                        None => 0,
                    }
                };
                let en: usize = if se.unicode_len() == 0 {
                    last
                } else {
                    let v = match parse_usize_str(se) {
                        Some(v) => v,
                        None => last,
                    };
                    if v < last { v } else { last }
                };
                (if st < last { st } else { last }, en)
            } else {
                (0, last)
            }
        },
        None => (0, last),
    };
    let start = if s0 < last { s0 } else { last };
    let e1 = if e0 < last { e0 } else { last };
    let end = if e1 < start { start } else { e1 };
    ByteRange { start, end, partial: header.is_some() }
}

/// The asset id in a "/video/{id}" path: the third '/'-separated segment,
/// as a number.
pub open spec fn spec_asset_id(path: Seq<char>) -> Option<nat> {
    let k1 = first_index(path, '/');
    if k1 >= path.len() {
        None
    } else {
        let r1 = path.skip(k1 + 1int);
        let k2 = first_index(r1, '/');
        if k2 >= r1.len() {
            None
        } else {
            let r2 = r1.skip(k2 + 1int);
            parse_usize(r2.take(first_index(r2, '/') as int))
        }
    }
}

pub fn asset_id(path: &str) -> (r: Option<usize>)
    ensures
        pos_view(r) == spec_asset_id(path@),
{
    let cs = chars_of(path);
    let n = cs.len();
    assert(cs@.subrange(0, n as int) =~= cs@);
    let k1 = find_char(&cs, 0, n, '/');
    if k1 >= n {
        return None;
    }
    let ghost r1 = path@.skip(k1 + 1int);
    assert(r1 =~= cs@.subrange(k1 + 1, n as int));
    let k2 = find_char(&cs, k1 + 1, n, '/');
    if k2 >= n {
        return None;
    }
    let ghost r2 = r1.skip(k2 - k1);
    assert(r2 =~= cs@.subrange(k2 + 1, n as int));
    let k3 = find_char(&cs, k2 + 1, n, '/');
    let seg = path.substring_char(k2 + 1, k3);
    assert(seg@ =~= r2.take(k3 - (k2 + 1)));
    parse_usize_str(seg)
}

/// The history entry before `sel` among `len`, wrapping to the last.
pub open spec fn spec_prev_index(sel: nat, len: nat) -> nat {
    if sel == 0 {
        (max_nat(len, 1) - 1) as nat
    } else {
        (sel - 1) as nat
    }
}

/// The history entry after `sel` among `len`, wrapping to the first.
pub open spec fn spec_next_index(sel: nat, len: nat) -> nat {
    (sel + 1) % max_nat(len, 1)
}

pub fn prev_index(sel: usize, len: usize) -> (r: usize)
    ensures
        r as nat == spec_prev_index(sel as nat, len as nat),
{
    if sel == 0 {
        if len > 1 { len - 1 } else { 0 }
    } else {
        sel - 1
    }
}

pub fn next_index(sel: usize, len: usize) -> (r: usize)
    requires
        sel < usize::MAX,
    ensures
        r as nat == spec_next_index(sel as nat, len as nat),
{
    let n = if len > 1 { len } else { 1 };
    (sel + 1) % n
}

/// Stepping back and forth through a history returns to the same entry.
pub proof fn lemma_history_steps_undo(sel: nat, len: nat)
    requires
        sel < len,
    ensures
        spec_next_index(spec_prev_index(sel, len), len) == sel,
        spec_prev_index(spec_next_index(sel, len), len) == sel,
        spec_prev_index(sel, len) < len,
        spec_next_index(sel, len) < len,
{
    if sel + 1 == len {
        assert((sel + 1) % len == 0) by (nonlinear_arith)
            requires sel + 1 == len, len > 0;
    } else {
        assert((sel + 1) % len == sel + 1) by (nonlinear_arith)
            requires sel + 1 < len;
    }
    if sel == 0 {
        assert(len % len == 0) by (nonlinear_arith)
            requires len > 0;
    } else {
        assert(sel % len == sel) by (nonlinear_arith)
            requires sel < len;
    }
}

/// Adds the trimmed text of an input box to a list and empties the box;
/// blank input changes nothing.
pub fn add_trimmed(list: &mut Vec<String>, input: &mut String)
    ensures
        trim(old(input)@).len() > 0 ==> views(final(list)@) == views(old(list)@).push(trim(old(input)@))
            && final(input)@.len() == 0,
        trim(old(input)@).len() == 0 ==> final(list)@ == old(list)@ && final(input)@ == old(input)@,
{
    let v = trim_str(input.as_str()).to_string();
    if v.unicode_len() > 0 {
        list.push(v);
        *input = String::new();
        proof {
            assert(views(list@) =~= views(old(list)@).push(trim(old(input)@)));
        }
    }
}

/// What saving the selected video does.
pub enum SaveVideoPlan {
    /// The cached bytes are a valid mp4: write them.
    WriteCached,
    /// The cache is not valid and there is no URL to fetch it again from.
    MissingUrl,
    /// The cache is not valid: fetch the video again from this URL.
    Redownload(String),
}

pub fn save_video_plan(bytes: &[u8], url: &str) -> (r: SaveVideoPlan)
    ensures
        api::spec_is_valid_mp4(bytes@) ==> r is WriteCached,
        !api::spec_is_valid_mp4(bytes@) && url@.len() == 0 ==> r is MissingUrl,
        !api::spec_is_valid_mp4(bytes@) && url@.len() > 0 ==> (r matches SaveVideoPlan::Redownload(u) && u@ == url@),
{
    if api::is_valid_mp4(bytes) {
        SaveVideoPlan::WriteCached
    } else if url.unicode_len() == 0 {
        SaveVideoPlan::MissingUrl
    } else {
        SaveVideoPlan::Redownload(url.to_string())
    }
}

/// A request that the forms let through is never refused by the key and
/// prompt check of the service calls.
pub proof fn lemma_passed_forms_pass_service_checks(f: ImageForm, v: VideoForm, api_key: Seq<char>)
    ensures
        image_check(f, api_key) is None ==> !is_blank(api_key) && !is_blank(f.prompt@),
        video_check(v, api_key) is None ==> !is_blank(api_key) && !is_blank(v.video_prompt@),
{
}

/// Looking up an entry of a table finds an entry equal to it, no later.
pub proof fn lemma_position_finds(t: Table, j: nat, k: nat)
    requires
        k <= j < table_len(t),
    ensures
        position_from(t, table_entry(t, j), k) matches Some(i) && k <= i <= j && table_entry(t, i)
            == table_entry(t, j),
    decreases j - k,
{
    if table_entry(t, k) != table_entry(t, j) {
        lemma_position_finds(t, j, k + 1);
    }
}

/// A custom size written out reads back.
pub proof fn lemma_custom_size_roundtrip(w: i32, h: i32)
    requires
        0 <= w,
        0 <= h,
    ensures
        spec_custom_size(decimal_int(w as int) + seq!['x'] + decimal_int(h as int)) == Some((w, h)),
{
    let dw = decimal(w as nat);
    let dh = decimal(h as nat);
    lemma_decimal_digits(w as nat);
    lemma_decimal_digits(h as nat);
    let s = decimal_int(w as int) + seq!['x'] + decimal_int(h as int);
    assert(s =~= dw + seq!['x'] + dh);
    assert forall|k: int| 0 <= k < dw.len() implies s[k] != 'x' by {
        assert(s[k] == dw[k]);
        assert(is_digit(dw[k]));
    }
    lemma_first_index_at(s, 'x', dw.len());
    assert(s.take(dw.len() as int) =~= dw);
    assert(s.skip(dw.len() + 1int) =~= dh);
    lemma_digits_untrimmed(dw);
    lemma_digits_untrimmed(dh);
    assert(parse_i32(dw) == Some(w));
    assert(parse_i32(dh) == Some(h));
}

/// A non-empty run of digits has no white space to trim.
pub proof fn lemma_digits_untrimmed(d: Seq<char>)
    requires
        d.len() > 0,
        all_digits(d),
    ensures
        trim(d) == d,
{
    assert(is_digit(d[0]));
    assert(is_digit(d.last()));
    assert(trim_start(d) == d);
    assert(trim_end(d) == d);
}

/// The settings recorded for an image request restore the same model,
/// prompt, mode, output format, size and ratio (a custom size when it lies
/// within 64..=4096, the range restoring clamps to).
pub proof fn lemma_image_settings_restore(f: ImageForm, c: Config, c2: Config, h: ImageForm)
    requires
        f.model_index < 2,
        image_recorded(c2, c, f),
        !spec_img_is_21(f.model_index as nat) && f.size_preset_index >= 11 ==> 64 <= f.custom_w
            <= 4096 && 64 <= f.custom_h <= 4096,
    ensures
        ({
            let g = spec_image_defaults(h, c2);
            &&& g.model_index < 2
            &&& g.prompt == f.prompt
            &&& g.mode == f.mode
            &&& g.out_fmt == f.out_fmt
            &&& image_model_id_spec(g.model_index as nat) == image_model_id_spec(f.model_index as nat)
            &&& spec_resolved_size(g) == spec_resolved_size(f)
            &&& spec_resolved_ratio(g) == spec_resolved_ratio(f)
        }),
{
    reveal_strlit("image");
    reveal_strlit("text");
    reveal_strlit("b64_json");
    reveal_strlit("url");
    assert("image"@[0] != "text"@[0]);
    assert("b64_json"@[0] != "url"@[0]);
    let g = spec_image_defaults(h, c2);
    lemma_position_finds(Table::ImageModel, f.model_index as nat, 0);
    if spec_img_is_21(f.model_index as nat) {
        let ti = min_nat(f.tier_index as nat, 3);
        let ri = min_nat(f.ratio_index as nat, 7);
        lemma_position_finds(Table::Tier, ti, 0);
        lemma_position_finds(Table::TierRatio, ri, 0);
    } else {
        if f.size_preset_index < 11 {
            lemma_position_finds(Table::SizePreset, f.size_preset_index as nat, 0);
            lemma_position_found(Table::SizePreset, c2.last_size@, 0);
        } else {
            reveal_strlit("");
            lemma_position_found(Table::SizePreset, c2.last_size@, 0);
            assert(c2.last_size@ =~= decimal_int(f.custom_w as int) + seq!['x'] + decimal_int(f.custom_h as int));
            assert(c2.last_size@.len() > 0);
            lemma_custom_size_roundtrip(f.custom_w, f.custom_h);
        }
    }
}

/// Looking up a video size preset finds a preset equal to it, no later.
pub proof fn lemma_vsize_finds(j: nat, k: nat)
    requires
        k <= j < 6,
    ensures
        vsize_position_from(video_size_preset_spec(j).0, video_size_preset_spec(j).1, k) matches Some(i)
            && k <= i <= j && video_size_preset_spec(i) == video_size_preset_spec(j),
    decreases j - k,
{
    if video_size_preset_spec(k) != video_size_preset_spec(j) {
        lemma_vsize_finds(j, k + 1);
    }
}

/// The settings recorded for a video request restore the same model and
/// prompt; for the 2.5 models the same mode, duration, aspect ratio and
/// frames; for V2.0 the same negative prompt and mode, the same frame size
/// when it is a preset, and the same frame count and rate when they come
/// from a duration preset.
pub proof fn lemma_video_settings_restore(v: VideoForm, c: Config, c2: Config, h: VideoForm)
    requires
        video_recorded(c2, c, v, spec_cur_video_model(v)),
    ensures
        ({
            let g = spec_video_defaults(h, c2);
            &&& spec_cur_video_model(g) == spec_cur_video_model(v)
            &&& g.video_prompt == v.video_prompt
            &&& spec_cur_video_model(v) != MODEL_VIDEO_V20@ ==> {
                &&& g.v25_mode == v.v25_mode
                &&& v25_seconds_spec(min_nat(g.v25_seconds_index as nat, 8)) == v25_seconds_spec(
                    min_nat(v.v25_seconds_index as nat, 8),
                )
                &&& v25_aspect_ratio_spec(min_nat(g.v25_ar_index as nat, 5)) == v25_aspect_ratio_spec(
                    min_nat(v.v25_ar_index as nat, 5),
                )
                &&& g.v25_first == v.v25_first
                &&& g.v25_last == v.v25_last
            }
            &&& spec_cur_video_model(v) == MODEL_VIDEO_V20@ ==> {
                &&& g.video_neg == v.video_neg
                &&& g.vmode == v.vmode
                &&& (v.vsize_index < 5 ==> spec_video_dims(g) == spec_video_dims(v))
                &&& (v.vduration_index < 4 ==> spec_video_frames(g) == spec_video_frames(v)
                    && spec_video_fps(g) == spec_video_fps(v))
            }
        }),
{
    reveal_strlit("text");
    reveal_strlit("image");
    reveal_strlit("multi");
    reveal_strlit("keyframes");
    reveal_strlit("keyframe");
    reveal_strlit("reference");
    assert("text"@[0] != "image"@[0] && "text"@[0] != "multi"@[0] && "text"@[0] != "keyframes"@[0]);
    assert("image"@[0] != "multi"@[0] && "image"@[0] != "keyframes"@[0] && "multi"@[0] != "keyframes"@[0]);
    assert("text"@[0] != "keyframe"@[0] && "text"@[0] != "reference"@[0] && "keyframe"@[0] != "reference"@[0]);
    let g = spec_video_defaults(h, c2);
    lemma_position_finds(Table::VideoModel, min_nat(v.vmodel_index as nat, 2), 0);
    if spec_cur_video_model(v) != MODEL_VIDEO_V20@ {
        lemma_position_finds(Table::Seconds, min_nat(v.v25_seconds_index as nat, 8), 0);
        lemma_position_finds(Table::AspectRatio, min_nat(v.v25_ar_index as nat, 5), 0);
    } else {
        if v.vsize_index < 5 {
            lemma_vsize_finds(v.vsize_index as nat, 0);
        }
    }
}


/// Image-to-image from a picked file sends the file's data URI, never its
/// name; from a URL box, the trimmed URL when it is not blank;
/// text-to-image sends no input image.
pub proof fn lemma_input_image(f: ImageForm, name: String, uri: String)
    ensures
        f.mode == Mode::Image && f.input_src == InputSrc::File && f.input_file == Some((name, uri))
            ==> spec_cur_input(f) == Some(uri@),
        f.mode == Mode::Image && f.input_src == InputSrc::File && f.input_file is None ==> spec_cur_input(f) is None,
        f.mode == Mode::Image && f.input_src == InputSrc::Url && trim(f.input_url@).len() > 0
            ==> spec_cur_input(f) == Some(trim(f.input_url@)),
        f.mode == Mode::Text ==> spec_cur_input(f) is None,
{
}

/// Cleaning a list of URLs leaves nothing exactly when every entry is blank.
pub proof fn lemma_clean_list_empty(xs: Seq<Seq<char>>)
    ensures
        api::clean_list(xs).len() == 0 <==> (forall|i: int| 0 <= i < xs.len() ==> #[trigger] trim(xs[i]).len() == 0),
    decreases xs.len(),
{
    if xs.len() > 0 {
        lemma_clean_list_empty(xs.drop_last());
        if trim(xs.last()).len() == 0 {
            assert forall|i: int| 0 <= i < xs.len() - 1 && trim(xs[i]).len() == 0 implies trim(xs.drop_last()[i]).len() == 0 by {
                assert(xs.drop_last()[i] == xs[i]);
            }
            if api::clean_list(xs).len() == 0 {
                assert forall|i: int| 0 <= i < xs.len() implies #[trigger] trim(xs[i]).len() == 0 by {
                    if i < xs.len() - 1 {
                        assert(xs.drop_last()[i] == xs[i]);
                    }
                }
            } else {
                let j = choose|j: int| 0 <= j < xs.len() - 1 && trim(xs.drop_last()[j]).len() != 0;
                assert(xs.drop_last()[j] == xs[j]);
            }
        } else {
            assert(trim(xs[xs.len() - 1]).len() != 0);
        }
    }
}

/// In 2.5 reference mode the reference check refuses a request exactly
/// when the image, audio and video lists hold no non-blank URL: one
/// non-blank URL in any of them, an audio one included, passes it.
pub proof fn lemma_reference_check(v: VideoForm, flash: bool)
    requires
        v.v25_mode == V25Mode::Reference,
    ensures
        (v25_check(v, flash) == Some("err.ref"@)) <==> (
            (forall|i: int| 0 <= i < v.v25_images@.len() ==> #[trigger] trim(v.v25_images@[i]@).len() == 0)
            && (forall|i: int| 0 <= i < v.v25_audios@.len() ==> #[trigger] trim(v.v25_audios@[i]@).len() == 0)
            && (forall|i: int| 0 <= i < v.v25_videos@.len() ==> #[trigger] trim(v.v25_videos@[i]@).len() == 0)),
{
    reveal_strlit("err.ref");
    reveal_strlit("err.flashimg");
    reveal_strlit("err.flashvid");
    assert("err.ref"@ != "err.flashimg"@) by {
        assert("err.ref"@.len() != "err.flashimg"@.len());
    }
    assert("err.ref"@ != "err.flashvid"@) by {
        assert("err.ref"@.len() != "err.flashvid"@.len());
    }
    lemma_clean_list_empty(views(v.v25_images@));
    lemma_clean_list_empty(views(v.v25_audios@));
    lemma_clean_list_empty(views(v.v25_videos@));
    assert(forall|i: int| 0 <= i < v.v25_images@.len() ==> views(v.v25_images@)[i] == #[trigger] v.v25_images@[i]@);
    assert(forall|i: int| 0 <= i < v.v25_audios@.len() ==> views(v.v25_audios@)[i] == #[trigger] v.v25_audios@[i]@);
    assert(forall|i: int| 0 <= i < v.v25_videos@.len() ==> views(v.v25_videos@)[i] == #[trigger] v.v25_videos@[i]@);
}

} // verus!
