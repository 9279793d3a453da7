//! Requests to the image and video generation service, and the decisions
//! taken on its answers.
//!
//! The program sends the requests and reads the answers; this module builds
//! the request bodies, checks inputs, picks what to fetch next and turns the
//! answers into results or error messages.

use vstd::prelude::*;
use base64::Engine;
use crate::text::{
    is_blank, is_blank_str, push_decimal, decimal, str_eq, trim, trim_str, views,
};

verus! {

pub const ENDPOINT: &'static str = "https://apihub.agnes-ai.com/v1/images/generations";
pub const VIDEO_CREATE: &'static str = "https://apihub.agnes-ai.com/v1/videos";
pub const VIDEO_RESULT: &'static str = "https://apihub.agnes-ai.com/agnesapi";

pub const MODEL_VIDEO_V20: &'static str = "agnes-video-v2.0";
pub const MODEL_VIDEO_V25: &'static str = "agnes-video-2.5";
pub const MODEL_VIDEO_V25_FLASH: &'static str = "agnes-video-2.5-flash";

// ---------------------------------------------------------------------------
// Shared helpers
// ---------------------------------------------------------------------------

pub open spec fn opt_view(o: Option<String>) -> Option<Seq<char>> {
    match o {
        Some(s) => Some(s@),
        None => None,
    }
}

/// A copy of an optional string.
pub fn clone_opt(o: &Option<String>) -> (r: Option<String>)
    ensures
        r == *o,
{
    match o {
        Some(s) => Some(s.clone()),
        None => None,
    }
}

/// A copy of a list of strings.
pub fn clone_strings(v: &Vec<String>) -> (r: Vec<String>)
    ensures
        r@ == v@,
{
    let mut r: Vec<String> = Vec::new();
    let mut i: usize = 0;
    while i < v.len()
        invariant
            i <= v@.len(),
            r@ == v@.take(i as int),
        decreases v@.len() - i,
    {
        r.push(v[i].clone());
        i = i + 1;
        assert(r@ =~= v@.take(i as int));
    }
    assert(v@.take(i as int) =~= v@);
    r
}

/// Concatenation of two strings.
pub fn join2(a: &str, b: &str) -> (r: String)
    ensures
        r@ == a@ + b@,
{
    let mut s = String::new();
    s.append(a);
    s.append(b);
    assert(s@ =~= a@ + b@);
    s
}

/// Concatenation of three strings.
pub fn join3(a: &str, b: &str, c: &str) -> (r: String)
    ensures
        r@ == a@ + b@ + c@,
{
    let mut s = join2(a, b);
    s.append(c);
    s
}

/// Concatenation of four strings.
pub fn join4(a: &str, b: &str, c: &str, d: &str) -> (r: String)
    ensures
        r@ == a@ + b@ + c@ + d@,
{
    let mut s = join3(a, b, c);
    s.append(d);
    s
}

// ---------------------------------------------------------------------------
// Input checks and transport decisions
// ---------------------------------------------------------------------------

pub open spec fn msg_no_key() -> Seq<char> {
    "API key is not set. Add it under Settings."@
}

pub open spec fn msg_no_prompt() -> Seq<char> {
    "Prompt cannot be empty."@
}

/// A request needs an API key and a prompt that are not blank; the key is
/// checked first.
pub fn check_key_and_prompt(api_key: &str, prompt: &str) -> (r: Result<(), String>)
    ensures
        match r {
            Ok(()) => !is_blank(api_key@) && !is_blank(prompt@),
            Err(e) => if is_blank(api_key@) {
                e@ == msg_no_key()
            } else {
                is_blank(prompt@) && e@ == msg_no_prompt()
            },
        },
{
    if is_blank_str(api_key) {
        return Err("API key is not set. Add it under Settings.".to_string());
    }
    if is_blank_str(prompt) {
        return Err("Prompt cannot be empty.".to_string());
    }
    Ok(())
}

/// Seconds to wait before retry number `attempt` (2 s, 5 s, then 8 s).
pub fn retry_delay_secs(attempt: u32) -> (r: u64)
    requires
        attempt > 0,
    ensures
        r == (if attempt == 1 { 2u64 } else if attempt == 2 { 5u64 } else { 8u64 }),
{
    match attempt {
        1 => 2,
        2 => 5,
        _ => 8,
    }
}

/// What sending does before attempt number `attempt` (counted from 0) of
/// `attempts`.
pub enum RetryStep {
    /// Wait this many seconds, then send.
    Send { wait_secs: u64 },
    /// Every attempt failed: report the failure.
    GiveUp,
}

/// The first attempt is sent at once, a later one after its back-off
/// delay; after the last attempt sending gives up.
pub fn retry_step(attempt: u32, attempts: u32) -> (r: RetryStep)
    ensures
        attempt >= attempts ==> r is GiveUp,
        attempt < attempts && attempt == 0 ==> r == (RetryStep::Send { wait_secs: 0 }),
        attempt < attempts && attempt > 0 ==> r == (RetryStep::Send {
            wait_secs: if attempt == 1 { 2u64 } else if attempt == 2 { 5u64 } else { 8u64 },
        }),
{
    if attempt >= attempts {
        RetryStep::GiveUp
    } else if attempt == 0 {
        RetryStep::Send { wait_secs: 0 }
    } else {
        RetryStep::Send { wait_secs: retry_delay_secs(attempt) }
    }
}

/// The error after every attempt failed to send: "Request failed after {n}
/// attempts: {last error}".
pub fn retry_failure(attempts: u32, last: Option<String>) -> (r: String)
    ensures
        r@ == "Request failed after "@ + decimal(attempts as nat) + " attempts: "@ + (match last {
            Some(s) => s@,
            None => Seq::<char>::empty(),
        }),
{
    let mut s = String::new();
    s.append("Request failed after ");
    push_decimal(&mut s, attempts as u64);
    s.append(" attempts: ");
    match last {
        Some(l) => s.append(l.as_str()),
        None => {},
    }
    s
}

/// An error followed by each of its causes, one per line: `messages[0]`,
/// then "\n  ↳ {cause}" for every further message.
pub open spec fn chain_text(m: Seq<Seq<char>>) -> Seq<char>
    decreases m.len(),
{
    if m.len() <= 1 {
        if m.len() == 1 { m[0] } else { Seq::empty() }
    } else {
        chain_text(m.drop_last()) + "\n  ↳ "@ + m.last()
    }
}

/// Writes out an error and its chain of causes (the messages given in
/// order, the error first).
pub fn err_chain(messages: &Vec<String>) -> (r: String)
    requires
        messages@.len() > 0,
    ensures
        r@ == chain_text(views(messages@)),
{
    let ghost m = views(messages@);
    let mut s = messages[0].clone();
    assert(m.take(1) =~= seq![m[0]]);
    let mut i: usize = 1;
    while i < messages.len()
        invariant
            1 <= i <= messages@.len(),
            m == views(messages@),
            s@ == chain_text(m.take(i as int)),
        decreases messages@.len() - i,
    {
        s.append("\n  ↳ ");
        s.append(messages[i].as_str());
        assert(m.take(i + 1).drop_last() =~= m.take(i as int));
        i = i + 1;
    }
    assert(m.take(i as int) =~= m);
    s
}

/// "HTTP {status}\n{body}", the error for a rejected image request.
pub fn http_failure(status: &str, body: &str) -> (r: String)
    ensures
        r@ == "HTTP "@ + status@ + "\n"@ + body@,
{
    join4("HTTP ", status, "\n", body)
}

// ---------------------------------------------------------------------------
// Image generation
// ---------------------------------------------------------------------------

pub struct GenParams {
    pub api_key: String,
    pub model: String,
    pub prompt: String,
    pub size: String,
    /// Aspect ratio (2.1 Flash only, together with a tier size such as "2K").
    pub ratio: Option<String>,
    /// `None` = text to image; `Some(uri)` = image to image (public URL or
    /// `data:image/...;base64,...`).
    pub input_image: Option<String>,
    /// "url" or "b64_json".
    pub output_format: String,
}

pub struct GenResult {
    pub url: Option<String>,
    pub bytes: Vec<u8>,
}

pub struct ExtraBody {
    pub image: Option<Vec<String>>,
    pub response_format: String,
}

/// Body of an image generation request.
pub struct Request {
    pub model: String,
    pub prompt: String,
    pub size: String,
    pub ratio: Option<String>,
    pub return_base64: Option<bool>,
    pub extra_body: Option<ExtraBody>,
}

/// One entry of the image service's answer.
pub struct GenData {
    pub url: Option<String>,
    pub b64_json: Option<String>,
}

pub open spec fn wants_b64(p: GenParams) -> bool {
    p.output_format@ == "b64_json"@
}

/// Text-to-image with inline output asks for it with a top-level
/// `return_base64`; every other request names the output format (and the
/// input image, if any) in `extra_body`.
pub fn build_body(p: &GenParams) -> (r: Request)
    ensures
        r.model == p.model,
        r.prompt == p.prompt,
        r.size == p.size,
        r.ratio == p.ratio,
        wants_b64(*p) && p.input_image is None ==> r.return_base64 == Some(true) && r.extra_body is None,
        !(wants_b64(*p) && p.input_image is None) ==> {
            &&& r.return_base64 is None
            &&& r.extra_body matches Some(e)
            &&& e.response_format@ == (if wants_b64(*p) { "b64_json"@ } else { "url"@ })
            &&& match (e.image, p.input_image) {
                (Some(v), Some(s)) => v@ == seq![s],
                (None, None) => true,
                _ => false,
            }
        },
{
    let want_b64 = str_eq(p.output_format.as_str(), "b64_json");
    let img2img = p.input_image.is_some();
    if want_b64 && !img2img {
        return Request {
            model: p.model.clone(),
            prompt: p.prompt.clone(),
            size: p.size.clone(),
            ratio: clone_opt(&p.ratio),
            return_base64: Some(true),
            extra_body: None,
        };
    }
    let image = match &p.input_image {
        Some(s) => {
            let mut v: Vec<String> = Vec::new();
            v.push(s.clone());
            assert(v@ =~= seq![*s]);
            Some(v)
        },
        None => None,
    };
    let extra = ExtraBody {
        image,
        response_format: if want_b64 {
            "b64_json".to_string()
        } else {
            "url".to_string()
        },
    };
    Request {
        model: p.model.clone(),
        prompt: p.prompt.clone(),
        size: p.size.clone(),
        ratio: clone_opt(&p.ratio),
        return_base64: None,
        extra_body: Some(extra),
    }
}

/// Where the generated image is to be had.
pub enum ImageSource {
    /// Fetch it from this URL.
    Download(String),
    /// Decode it from this base64 text.
    Inline(String),
}

pub open spec fn msg_no_data() -> Seq<char> {
    "Response contains no data."@
}

pub open spec fn msg_no_image() -> Seq<char> {
    "Response contains neither url nor b64_json."@
}

/// The first entry of the answer decides: a non-empty URL is fetched, else
/// non-empty base64 text is decoded; otherwise the answer is an error.
pub fn pick_image_source(first: Option<GenData>) -> (r: Result<ImageSource, String>)
    ensures
        match first {
            None => r matches Err(e) && e@ == msg_no_data(),
            Some(d) => match (opt_view(d.url), opt_view(d.b64_json)) {
                (Some(u), _) if u.len() > 0 => r matches Ok(ImageSource::Download(x)) && x@ == u,
                (_, Some(b)) if b.len() > 0 => r matches Ok(ImageSource::Inline(x)) && x@ == b,
                _ => r matches Err(e) && e@ == msg_no_image(),
            },
        },
{
    let d = match first {
        None => {
            return Err("Response contains no data.".to_string());
        },
        Some(d) => d,
    };
    if let Some(u) = d.url {
        if u.as_str().unicode_len() > 0 {
            return Ok(ImageSource::Download(u));
        }
    }
    if let Some(b) = d.b64_json {
        if b.as_str().unicode_len() > 0 {
            return Ok(ImageSource::Inline(b));
        }
    }
    Err("Response contains neither url nor b64_json.".to_string())
}

/// Calls `base64::engine::general_purpose::STANDARD.decode`. Claimed: the
/// engine (standard alphabet, canonical `=` padding required, no stray
/// trailing bits) accepts exactly the texts that are the standard padded
/// base64 of some bytes, and gives back those bytes; the error text is the
/// crate's description of the failure and is not stated.
#[verifier::external_body]
fn base64_decode(s: &str) -> (r: Result<Vec<u8>, String>)
    ensures
        match r {
            Ok(v) => crate::media::base64_of(v@) == s@,
            Err(_) => forall|v: Seq<u8>| #[trigger] crate::media::base64_of(v) != s@,
        },
{
    match base64::engine::general_purpose::STANDARD.decode(s) {
        Ok(v) => Ok(v),
        Err(e) => Err(e.to_string()),
    }
}

/// The bytes of an inline (base64) image.
pub fn decode_inline_image(b64: &str) -> (r: Result<GenResult, String>)
    ensures
        match r {
            Ok(g) => crate::media::base64_of(g.bytes@) == b64@ && g.url is None,
            Err(e) => (forall|v: Seq<u8>| #[trigger] crate::media::base64_of(v) != b64@) && e@.len() >= "Failed to decode base64: "@.len()
                && e@.take("Failed to decode base64: "@.len() as int) == "Failed to decode base64: "@,
        },
{
    match base64_decode(b64) {
        Ok(bytes) => Ok(GenResult { url: None, bytes }),
        Err(e) => {
            let m = join2("Failed to decode base64: ", e.as_str());
            assert(m@.take("Failed to decode base64: "@.len() as int) =~= "Failed to decode base64: "@);
            Err(m)
        },
    }
}

// ---------------------------------------------------------------------------
// Video generation
// ---------------------------------------------------------------------------

/// Generation mode of Agnes Video 2.5.
#[derive(Clone, Copy, PartialEq, Eq, Structural, Debug)]
pub enum V25Mode {
    Text,
    Keyframe,
    Reference,
}

/// Request parameters of the two video model generations. V2.0 takes
/// width / height / num_frames / frame_rate; 2.5 takes mode / seconds /
/// 720P / aspect_ratio with media fields that depend on the mode.
pub enum VideoKind {
    V20 {
        negative_prompt: String,
        width: i32,
        height: i32,
        num_frames: i32,
        frame_rate: i32,
        seed: Option<i64>,
        /// Input image URLs: none = text to video; one = image to video;
        /// several = multi-image / keyframes.
        images: Vec<String>,
        keyframes: bool,
    },
    V25 {
        mode: V25Mode,
        /// Duration "4" to "12" (the service wants a string).
        seconds: String,
        /// Aspect ratio such as "16:9".
        aspect_ratio: String,
        seed: Option<i64>,
        /// First frame image URL (keyframe mode).
        first_frame: Option<String>,
        /// Last frame image URL (keyframe mode).
        last_frame: Option<String>,
        /// Reference image URLs (reference mode; Flash takes at most 5).
        images: Vec<String>,
        /// Reference audio URLs (reference mode).
        audios: Vec<String>,
        /// Reference video URLs (reference mode; not sent for Flash).
        videos: Vec<String>,
        /// true = agnes-video-2.5-flash.
        flash: bool,
    },
}

pub struct VideoParams {
    pub api_key: String,
    pub prompt: String,
    pub kind: VideoKind,
}

/// Identifiers returned when a task is created.
pub struct VideoTask {
    pub video_id: String,
    pub task_id: String,
    pub seconds: String,
    pub size: String,
}

pub struct VideoExtraBody {
    pub image: Option<Vec<String>>,
    pub mode: Option<String>,
}

/// Body of a V2.0 video request.
pub struct VideoRequest {
    pub model: String,
    pub prompt: String,
    pub width: i32,
    pub height: i32,
    pub num_frames: i32,
    pub frame_rate: i32,
    pub negative_prompt: Option<String>,
    pub seed: Option<i64>,
    pub image: Option<String>,
    pub extra_body: Option<VideoExtraBody>,
}

/// One reference video of a 2.5 request.
pub struct Video25RefVideo {
    pub url: String,
}

/// Body of a 2.5 video request.
pub struct Video25Request {
    pub model: String,
    pub prompt: String,
    /// "text" | "keyframe" | "reference"
    pub mode: String,
    pub seconds: String,
    /// Always "720P".
    pub size: String,
    pub aspect_ratio: String,
    pub seed: Option<i64>,
    pub first_frame: Option<String>,
    pub last_frame: Option<String>,
    pub images: Vec<String>,
    pub audios: Vec<String>,
    pub videos: Vec<Video25RefVideo>,
}

/// A V2.0 request body: several images or keyframes go in `extra_body`
/// (keyframes also set its mode), a single image goes top-level, and a
/// blank negative prompt is left out.
pub fn build_video_body(p: &VideoParams) -> (r: VideoRequest)
    requires
        p.kind is V20,
    ensures
        match p.kind {
            VideoKind::V20 { negative_prompt, width, height, num_frames, frame_rate, seed, images, keyframes } => {
                let multi = images@.len() > 1 || keyframes;
                &&& r.model@ == MODEL_VIDEO_V20@
                &&& r.prompt == p.prompt
                &&& r.width == width
                &&& r.height == height
                &&& r.num_frames == num_frames
                &&& r.frame_rate == frame_rate
                &&& r.seed == seed
                &&& r.negative_prompt == (if is_blank(negative_prompt@) { None } else { Some(negative_prompt) })
                &&& multi ==> (r.image is None && (r.extra_body matches Some(e) && {
                    &&& (images@.len() == 0 ==> e.image is None)
                    &&& (images@.len() > 0 ==> (e.image matches Some(v) && v@ == images@))
                    &&& (keyframes ==> (e.mode matches Some(m) && m@ == "keyframes"@))
                    &&& (!keyframes ==> e.mode is None)
                }))
                &&& !multi && images@.len() == 1 ==> r.image == Some(images@[0]) && r.extra_body is None
                &&& !multi && images@.len() == 0 ==> r.image is None && r.extra_body is None
            },
            _ => false,
        },
{
    match &p.kind {
        VideoKind::V20 { negative_prompt, width, height, num_frames, frame_rate, seed, images, keyframes } => {
            let multi = images.len() > 1 || *keyframes;
            let (top_image, extra) = if multi {
                (
                    None,
                    Some(VideoExtraBody {
                        image: if images.len() == 0 { None } else { Some(clone_strings(images)) },
                        mode: if *keyframes { Some("keyframes".to_string()) } else { None },
                    }),
                )
            } else if images.len() == 1 {
                (Some(images[0].clone()), None)
            } else {
                (None, None)
            };
            VideoRequest {
                model: MODEL_VIDEO_V20.to_string(),
                prompt: p.prompt.clone(),
                width: *width,
                height: *height,
                num_frames: *num_frames,
                frame_rate: *frame_rate,
                negative_prompt: if is_blank_str(negative_prompt.as_str()) {
                    None
                } else {
                    Some(negative_prompt.clone())
                },
                seed: *seed,
                image: top_image,
                extra_body: extra,
            }
        },
        VideoKind::V25 { .. } => {
            proof {
                assert(false);
            }
            unreached()
        },
    }
}

/// The trimmed, non-empty entries of a list, in order.
pub open spec fn clean_list(xs: Seq<Seq<char>>) -> Seq<Seq<char>>
    decreases xs.len(),
{
    if xs.len() == 0 {
        Seq::empty()
    } else {
        let rest = clean_list(xs.drop_last());
        let t = trim(xs.last());
        if t.len() > 0 {
            rest.push(t)
        } else {
            rest
        }
    }
}

/// Each entry trimmed, blank entries dropped.
pub fn clean_urls(xs: &Vec<String>) -> (r: Vec<String>)
    ensures
        views(r@) == clean_list(views(xs@)),
{
    let ghost xv = views(xs@);
    let mut out: Vec<String> = Vec::new();
    let mut i: usize = 0;
    assert(xv.take(0) =~= Seq::<Seq<char>>::empty());
    assert(views(out@) =~= Seq::<Seq<char>>::empty());
    while i < xs.len()
        invariant
            i <= xs@.len(),
            xv == views(xs@),
            views(out@) == clean_list(xv.take(i as int)),
        decreases xs@.len() - i,
    {
        let t = trim_str(xs[i].as_str());
        assert(xv.take(i + 1).drop_last() =~= xv.take(i as int));
        assert(xv.take(i + 1).last() == xs@[i as int]@);
        if t.unicode_len() > 0 {
            let ts = t.to_string();
            let ghost before = out@;
            out.push(ts);
            assert(views(out@) =~= views(before).push(ts@));
        }
        i = i + 1;
    }
    assert(xv.take(i as int) =~= xv);
    out
}

/// The `mode` value of a 2.5 request.
pub open spec fn v25_mode_text(m: V25Mode) -> Seq<char> {
    match m {
        V25Mode::Text => "text"@,
        V25Mode::Keyframe => "keyframe"@,
        V25Mode::Reference => "reference"@,
    }
}

/// A frame URL kept only when it is not blank.
pub open spec fn keep_frame(f: Option<String>) -> Option<String> {
    match f {
        Some(s) => if is_blank(s@) { None } else { Some(s) },
        None => None,
    }
}

fn keep_frame_exec(f: &Option<String>) -> (r: Option<String>)
    ensures
        r == keep_frame(*f),
{
    match f {
        Some(s) => if is_blank_str(s.as_str()) { None } else { Some(s.clone()) },
        None => None,
    }
}

/// The URLs of a list of reference videos.
pub open spec fn ref_urls(v: Seq<Video25RefVideo>) -> Seq<Seq<char>> {
    v.map_values(|x: Video25RefVideo| x.url@)
}

/// A 2.5 request body. Text mode sends no media; keyframe mode only the
/// non-blank first / last frame; reference mode only the cleaned image,
/// audio and (not for Flash) video lists.
pub fn build_video25_body(p: &VideoParams) -> (r: Video25Request)
    requires
        p.kind is V25,
    ensures
        match p.kind {
            VideoKind::V25 { mode, seconds, aspect_ratio, seed, first_frame, last_frame, images, audios, videos, flash } => {
                let kf = mode == V25Mode::Keyframe;
                let rf = mode == V25Mode::Reference;
                &&& r.model@ == (if flash { MODEL_VIDEO_V25_FLASH@ } else { MODEL_VIDEO_V25@ })
                &&& r.prompt == p.prompt
                &&& r.mode@ == v25_mode_text(mode)
                &&& r.seconds == seconds
                &&& r.size@ == "720P"@
                &&& r.aspect_ratio == aspect_ratio
                &&& r.seed == seed
                &&& r.first_frame == (if kf { keep_frame(first_frame) } else { None })
                &&& r.last_frame == (if kf { keep_frame(last_frame) } else { None })
                &&& views(r.images@) == (if rf { clean_list(views(images@)) } else { Seq::empty() })
                &&& views(r.audios@) == (if rf { clean_list(views(audios@)) } else { Seq::empty() })
                &&& ref_urls(r.videos@) == (if rf && !flash { clean_list(views(videos@)) } else { Seq::empty() })
            },
            _ => false,
        },
{
    match &p.kind {
        VideoKind::V25 { mode, seconds, aspect_ratio, seed, first_frame, last_frame, images, audios, videos, flash } => {
            let kf = *mode == V25Mode::Keyframe;
            let rf = *mode == V25Mode::Reference;
            let model = if *flash { MODEL_VIDEO_V25_FLASH } else { MODEL_VIDEO_V25 };
            let mode_text = match mode {
                V25Mode::Text => "text",
                V25Mode::Keyframe => "keyframe",
                V25Mode::Reference => "reference",
            };
            let ref_images = if rf { clean_urls(images) } else { Vec::new() };
            let ref_audios = if rf { clean_urls(audios) } else { Vec::new() };
            let mut ref_videos: Vec<Video25RefVideo> = Vec::new();
            if rf && !*flash {
                let urls = clean_urls(videos);
                let mut i: usize = 0;
                while i < urls.len()
                    invariant
                        i <= urls@.len(),
                        ref_urls(ref_videos@) == views(urls@).take(i as int),
                    decreases urls@.len() - i,
                {
                    let ghost before = ref_videos@;
                    ref_videos.push(Video25RefVideo { url: urls[i].clone() });
                    assert(ref_urls(ref_videos@) =~= ref_urls(before).push(urls@[i as int]@));
                    assert(views(urls@).take(i + 1) =~= views(urls@).take(i as int).push(urls@[i as int]@));
                    i = i + 1;
                }
                assert(views(urls@).take(i as int) =~= views(urls@));
            }
            assert(views(Seq::<String>::empty()) =~= Seq::<Seq<char>>::empty());
            assert(ref_urls(Seq::<Video25RefVideo>::empty()) =~= Seq::<Seq<char>>::empty());
            Video25Request {
                model: model.to_string(),
                prompt: p.prompt.clone(),
                mode: mode_text.to_string(),
                seconds: seconds.clone(),
                size: "720P".to_string(),
                aspect_ratio: aspect_ratio.clone(),
                seed: *seed,
                first_frame: if kf { keep_frame_exec(first_frame) } else { None },
                last_frame: if kf { keep_frame_exec(last_frame) } else { None },
                images: ref_images,
                audios: ref_audios,
                videos: ref_videos,
            }
        },
        VideoKind::V20 { .. } => {
            proof {
                assert(false);
            }
            unreached()
        },
    }
}

/// "Task creation failed: HTTP {status}\n{body}".
pub fn task_http_failure(status: &str, body: &str) -> (r: String)
    ensures
        r@ == "Task creation failed: HTTP "@ + status@ + "\n"@ + body@,
{
    join4("Task creation failed: HTTP ", status, "\n", body)
}

/// "Status query failed: HTTP {status}\n{body}".
pub fn status_http_failure(status: &str, body: &str) -> (r: String)
    ensures
        r@ == "Status query failed: HTTP "@ + status@ + "\n"@ + body@,
{
    join4("Status query failed: HTTP ", status, "\n", body)
}

/// Fields of the answer to a task creation. V2.0 answers with `video_id`
/// and `task_id`; 2.5 only with `id`, used as the video id.
pub struct VideoCreateResp {
    pub id: Option<String>,
    pub video_id: Option<String>,
    pub task_id: Option<String>,
    pub seconds: Option<String>,
    pub size: Option<String>,
}

/// The first of two optional strings that is present and non-empty.
pub open spec fn first_nonempty(a: Option<String>, b: Option<String>) -> Option<String> {
    match a {
        Some(x) if x@.len() > 0 => Some(x),
        _ => match b {
            Some(y) if y@.len() > 0 => Some(y),
            _ => None,
        },
    }
}

fn first_nonempty_exec(a: &Option<String>, b: &Option<String>) -> (r: Option<String>)
    ensures
        r == first_nonempty(*a, *b),
{
    if let Some(x) = a {
        if x.as_str().unicode_len() > 0 {
            return Some(x.clone());
        }
    }
    if let Some(y) = b {
        if y.as_str().unicode_len() > 0 {
            return Some(y.clone());
        }
    }
    None
}

/// The view of an optional string, empty when absent.
pub open spec fn or_empty(o: Option<String>) -> Seq<char> {
    match o {
        Some(s) => s@,
        None => Seq::empty(),
    }
}

fn or_empty_exec(o: &Option<String>) -> (r: String)
    ensures
        r@ == or_empty(*o),
{
    match o {
        Some(s) => s.clone(),
        None => String::new(),
    }
}

/// The task identifiers of a creation answer (`raw` is the answer's text,
/// quoted in the error): the video id is the first non-empty of
/// `video_id` and `id`, and must exist; the task id the first non-empty of
/// `task_id` and `id`, else empty.
pub fn task_from_response(parsed: &VideoCreateResp, raw: &str) -> (r: Result<VideoTask, String>)
    ensures
        match first_nonempty(parsed.video_id, parsed.id) {
            None => r matches Err(e) && e@ == "Response contains no video_id.\nRaw: "@ + raw@,
            Some(v) => r matches Ok(t) && {
                &&& t.video_id == v
                &&& t.task_id@ == or_empty(first_nonempty(parsed.task_id, parsed.id))
                &&& t.seconds@ == or_empty(parsed.seconds)
                &&& t.size@ == or_empty(parsed.size)
            },
        },
{
    let video_id = match first_nonempty_exec(&parsed.video_id, &parsed.id) {
        Some(v) => v,
        None => {
            return Err(join2("Response contains no video_id.\nRaw: ", raw));
        },
    };
    let task_id = or_empty_exec(&first_nonempty_exec(&parsed.task_id, &parsed.id));
    Ok(VideoTask {
        video_id,
        task_id,
        seconds: or_empty_exec(&parsed.seconds),
        size: or_empty_exec(&parsed.size),
    })
}

/// Where the status of a task is asked: by video id (naming the model) when
/// there is one, else by task id.
pub fn status_query_url(video_id: &str, task_id: &str, model: &str) -> (r: String)
    ensures
        r@ == (if video_id@.len() > 0 {
            VIDEO_RESULT@ + "?video_id="@ + video_id@ + "&model_name="@ + model@
        } else {
            VIDEO_CREATE@ + "/"@ + task_id@
        }),
{
    if video_id.unicode_len() > 0 {
        let mut s = join4(VIDEO_RESULT, "?video_id=", video_id, "&model_name=");
        s.append(model);
        s
    } else {
        join3(VIDEO_CREATE, "/", task_id)
    }
}

/// The `error` field of a status answer, as far as it is read: a string,
/// an object (its string `message` field, if any, and its JSON text), or
/// another JSON value (its JSON text).
pub enum ErrorDetail {
    Text(String),
    Object { message: Option<String>, json: String },
    Other { json: String },
}

pub open spec fn spec_error_message(v: ErrorDetail) -> Seq<char> {
    match v {
        ErrorDetail::Text(s) => s@,
        ErrorDetail::Object { message, json } => match message {
            Some(m) => m@,
            None => json@,
        },
        ErrorDetail::Other { json } => json@,
    }
}

/// A readable message from the `error` field.
pub fn error_message(v: &ErrorDetail) -> (r: String)
    ensures
        r@ == spec_error_message(*v),
{
    match v {
        ErrorDetail::Text(s) => s.clone(),
        ErrorDetail::Object { message, json } => match message {
            Some(m) => m.clone(),
            None => json.clone(),
        },
        ErrorDetail::Other { json } => json.clone(),
    }
}

pub struct VideoMeta {
    pub url: Option<String>,
}

/// Fields of a status answer (without its progress figure).
pub struct VideoStatusFields {
    pub status: Option<String>,
    pub seconds: Option<String>,
    pub size: Option<String>,
    pub url: Option<String>,
    pub metadata: Option<VideoMeta>,
    pub remixed_from_video_id: Option<String>,
    pub error: Option<ErrorDetail>,
}

/// What a status answer says. `done` also means that the progress is 100.
pub struct StatusOutcome {
    pub done: bool,
    pub failed: bool,
    /// The raw status ("queued", "in_progress", …), or the failure detail.
    pub message: String,
    pub video_url: Option<String>,
    pub seconds: String,
    pub size: String,
}

/// The video URL of a completed task: the first present of `url`,
/// `metadata.url` and `remixed_from_video_id`, kept only if non-empty.
pub open spec fn completed_url(f: VideoStatusFields) -> Option<Seq<char>> {
    let meta = match f.metadata {
        Some(m) => m.url,
        None => None,
    };
    let chosen = match f.url {
        Some(u) => Some(u),
        None => match meta {
            Some(u) => Some(u),
            None => f.remixed_from_video_id,
        },
    };
    match chosen {
        Some(u) => if u@.len() > 0 { Some(u@) } else { None },
        None => None,
    }
}

/// The message of a failed task: the non-empty error detail, else empty.
pub open spec fn failure_message(f: VideoStatusFields) -> Seq<char> {
    match f.error {
        Some(e) => spec_error_message(e),
        None => Seq::empty(),
    }
}

/// Reads a status answer: "completed" gives the video URL, "failed" the
/// error detail; any other status is passed on as the message.
pub fn status_outcome(f: &VideoStatusFields) -> (r: StatusOutcome)
    ensures
        r.seconds@ == or_empty(f.seconds),
        r.size@ == or_empty(f.size),
        r.done == (or_empty(f.status) == "completed"@),
        r.failed == (or_empty(f.status) == "failed"@),
        r.done ==> opt_view(r.video_url) == completed_url(*f) && r.message@ == or_empty(f.status),
        r.failed ==> r.video_url is None && r.message@ == failure_message(*f),
        !r.done && !r.failed ==> r.video_url is None && r.message@ == or_empty(f.status),
{
    let st = or_empty_exec(&f.status);
    let seconds = or_empty_exec(&f.seconds);
    let size = or_empty_exec(&f.size);
    if str_eq(st.as_str(), "completed") {
        let meta = match &f.metadata {
            Some(m) => clone_opt(&m.url),
            None => None,
        };
        let chosen = match &f.url {
            Some(u) => Some(u.clone()),
            None => match meta {
                Some(u) => Some(u),
                None => clone_opt(&f.remixed_from_video_id),
            },
        };
        let video_url = match chosen {
            Some(u) => if u.as_str().unicode_len() > 0 { Some(u) } else { None },
            None => None,
        };
        proof {
            reveal_strlit("completed");
            reveal_strlit("failed");
            assert("completed"@[0] != "failed"@[0]);
        }
        StatusOutcome { done: true, failed: false, message: st, video_url, seconds, size }
    } else if str_eq(st.as_str(), "failed") {
        let message = match &f.error {
            Some(e) => error_message(e),
            None => String::new(),
        };
        StatusOutcome { done: false, failed: true, message, video_url: None, seconds, size }
    } else {
        StatusOutcome { done: false, failed: false, message: st, video_url: None, seconds, size }
    }
}

/// A download refused with 401 or 403 is retried with the API key, when
/// there is a non-blank one.
pub fn needs_auth_retry(status: u16, api_key: &str) -> (r: bool)
    ensures
        r == ((status == 401 || status == 403) && !is_blank(api_key@)),
{
    (status == 401 || status == 403) && !is_blank_str(api_key)
}

/// An mp4 file has "ftyp" at bytes 4..8 and starts with three zero bytes.
pub open spec fn spec_is_valid_mp4(b: Seq<u8>) -> bool {
    &&& b.len() > 12
    &&& b[4] == 0x66 && b[5] == 0x74 && b[6] == 0x79 && b[7] == 0x70
    &&& b[0] == 0 && b[1] == 0 && b[2] == 0
}

/// Whether downloaded bytes look like an mp4 file (an HTML error page starts
/// with '<').
pub fn is_valid_mp4(b: &[u8]) -> (r: bool)
    ensures
        r == spec_is_valid_mp4(b@),
{
    b.len() > 12 && b[4] == 0x66 && b[5] == 0x74 && b[6] == 0x79 && b[7] == 0x70 && b[0] == 0
        && b[1] == 0 && b[2] == 0
}

/// What `String::from_utf8_lossy` gives for some bytes.
pub uninterp spec fn utf8_lossy_text(b: Seq<u8>) -> Seq<char>;

/// Calls `String::from_utf8_lossy`. Claimed: the text is the named
/// conversion of the bytes (invalid sequences become U+FFFD, as std
/// documents; that rule is not written out here).
#[verifier::external_body]
fn utf8_lossy(b: &[u8]) -> (r: String)
    ensures
        r@ == utf8_lossy_text(b@),
{
    String::from_utf8_lossy(b).into_owned()
}

/// The first `n` bytes of `b`.
fn prefix_bytes(b: &[u8], n: usize) -> (r: Vec<u8>)
    requires
        n <= b@.len(),
    ensures
        r@ == b@.take(n as int),
{
    let mut r: Vec<u8> = Vec::new();
    let mut i: usize = 0;
    while i < n
        invariant
            n <= b@.len(),
            i <= n,
            r@ == b@.take(i as int),
        decreases n - i,
    {
        r.push(b[i]);
        i = i + 1;
        assert(r@ =~= b@.take(i as int));
    }
    r
}

/// The text quoted from a rejected download: its first 80 bytes at most.
pub open spec fn download_head(b: Seq<u8>) -> Seq<char> {
    utf8_lossy_text(b.take(if b.len() < 80 { b.len() as int } else { 80 }))
}

/// Accepts downloaded video bytes: the answer must be a success
/// (`status` is its status line) and the bytes must look like an mp4;
/// otherwise the error names the status, or the content type, size and
/// head of what came.
pub fn check_video_download(success: bool, status: &str, content_type: &str, bytes: Vec<u8>) -> (r: Result<Vec<u8>, String>)
    ensures
        !success ==> (r matches Err(e) && e@ == "Video download failed: HTTP "@ + status@),
        success && spec_is_valid_mp4(bytes@) ==> r == Ok::<Vec<u8>, String>(bytes),
        success && !spec_is_valid_mp4(bytes@) ==> (r matches Err(e) && e@
            == "Downloaded content is not a valid mp4 (Content-Type: "@ + content_type@ + ", "@
            + decimal(bytes@.len()) + " bytes, head: "@ + download_head(bytes@) + ")"@),
{
    if !success {
        return Err(join2("Video download failed: HTTP ", status));
    }
    if is_valid_mp4(bytes.as_slice()) {
        return Ok(bytes);
    }
    let n = if bytes.len() < 80 { bytes.len() } else { 80 };
    let head = prefix_bytes(bytes.as_slice(), n);
    let snippet = utf8_lossy(head.as_slice());
    let mut s = join3("Downloaded content is not a valid mp4 (Content-Type: ", content_type, ", ");
    push_decimal(&mut s, bytes.len() as u64);
    s.append(" bytes, head: ");
    s.append(snippet.as_str());
    s.append(")");
    Err(s)
}

} // verus!
