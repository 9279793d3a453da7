//! Media helpers: base64 data URIs, image previews and file names, and the
//! HTML of release notes.

use vstd::prelude::*;
use base64::Engine;
use crate::i18n::{spec_t, t, Lang};
use crate::text::{ascii_lower, 
    chars_of, decimal, eq_ignore_ascii_case, eq_ignore_ascii_case_str, has_prefix, is_blank,
    is_blank_str, push_decimal,
};

verus! {

// ---------------------------------------------------------------------------
// Base64
// ---------------------------------------------------------------------------

/// The character of a 6-bit value in the standard base64 alphabet.
pub open spec fn b64_digit(v: int) -> char {
    if v < 26 {
        ('A' as int + v) as char
    } else if v < 52 {
        ('a' as int + v - 26) as char
    } else if v < 62 {
        ('0' as int + v - 52) as char
    } else if v == 62 {
        '+'
    } else {
        '/'
    }
}

/// Standard base64 with `=` padding (RFC 4648, section 4): every three
/// bytes become four characters; a final one or two bytes are padded.
pub open spec fn base64_of(b: Seq<u8>) -> Seq<char>
    decreases b.len(),
{
    if b.len() == 0 {
        Seq::empty()
    } else {
        let x = b[0] as int;
        if b.len() == 1 {
            seq![b64_digit(x / 4), b64_digit((x % 4) * 16), '=', '=']
        } else {
            let y = b[1] as int;
            if b.len() == 2 {
                seq![b64_digit(x / 4), b64_digit((x % 4) * 16 + y / 16), b64_digit((y % 16) * 4), '=']
            } else {
                let z = b[2] as int;
                seq![
                    b64_digit(x / 4),
                    b64_digit((x % 4) * 16 + y / 16),
                    b64_digit((y % 16) * 4 + z / 64),
                    b64_digit(z % 64),
                ] + base64_of(b.skip(3))
            }
        }
    }
}

/// Calls `base64::engine::general_purpose::STANDARD.encode`. Claimed: the
/// text is the standard padded base64 of the bytes, which is what the
/// crate documents for this engine. The crate panics when the encoded
/// length overflows `usize`, and a buffer beyond `isize::MAX` bytes cannot
/// be allocated; the bound on the input keeps the text below both.
#[verifier::external_body]
fn base64_encode(b: &[u8]) -> (r: String)
    requires
        b@.len() <= usize::MAX / 4,
    ensures
        r@ == base64_of(b@),
{
    base64::engine::general_purpose::STANDARD.encode(b)
}

// ---------------------------------------------------------------------------
// Data URIs of picked files
// ---------------------------------------------------------------------------

/// The index of the last `c` in `s`, if any.
pub open spec fn last_index(s: Seq<char>, c: char) -> Option<nat>
    decreases s.len(),
{
    if s.len() == 0 {
        None
    } else if s.last() == c {
        Some((s.len() - 1) as nat)
    } else {
        last_index(s.drop_last(), c)
    }
}

/// The extension of a file name (`Path::extension` for a name without
/// separators): the text after the last `.`, when something precedes that
/// dot; "." and ".." have none.
pub open spec fn file_extension(name: Seq<char>) -> Option<Seq<char>> {
    if name == seq!['.', '.'] {
        None
    } else {
        match last_index(name, '.') {
            Some(k) => if k == 0 {
                None
            } else {
                Some(name.skip(k + 1int))
            },
            None => None,
        }
    }
}

/// The MIME type used for a picked image: by lower-cased extension, PNG
/// when it is none of png, jpg, jpeg, webp, bmp.
pub open spec fn image_mime(name: Seq<char>) -> Seq<char> {
    match file_extension(name) {
        Some(e) => if eq_ignore_ascii_case(e, "png"@) {
            "image/png"@
        } else if eq_ignore_ascii_case(e, "jpg"@) || eq_ignore_ascii_case(e, "jpeg"@) {
            "image/jpeg"@
        } else if eq_ignore_ascii_case(e, "webp"@) {
            "image/webp"@
        } else if eq_ignore_ascii_case(e, "bmp"@) {
            "image/bmp"@
        } else {
            "image/png"@
        },
        None => "image/png"@,
    }
}

fn extension_of(name: &str) -> (r: Option<&str>)
    ensures
        match r {
            Some(e) => file_extension(name@) == Some(e@),
            None => file_extension(name@) is None,
        },
{
    let cs = chars_of(name);
    let n = cs.len();
    proof {
        reveal_strlit("..");
    }
    if n == 2 && cs[0] == '.' && cs[1] == '.' {
        assert(name@ =~= seq!['.', '.']);
        return None;
    }
    assert(name@ != seq!['.', '.']);
    let mut i = n;
    assert(name@.take(n as int) =~= name@);
    while i > 0 && cs[i - 1] != '.'
        invariant
            cs@ == name@,
            n == name@.len(),
            i <= n,
            last_index(name@, '.') == last_index(name@.take(i as int), '.'),
        decreases i,
    {
        assert(name@.take(i as int).drop_last() =~= name@.take(i - 1));
        i = i - 1;
    }
    if i == 0 {
        assert(name@.take(0) =~= Seq::<char>::empty());
        return None;
    }
    assert(name@.take(i as int).last() == '.');
    if i - 1 == 0 {
        return None;
    }
    let e = name.substring_char(i, n);
    assert(e@ =~= name@.skip(i as int));
    Some(e)
}

/// The MIME type of a picked image, from its file name.
pub fn image_mime_of(name: &str) -> (r: &'static str)
    ensures
        r@ == image_mime(name@),
{
    match extension_of(name) {
        Some(e) => {
            if eq_ignore_ascii_case_str(e, "png") {
                "image/png"
            } else if eq_ignore_ascii_case_str(e, "jpg") || eq_ignore_ascii_case_str(e, "jpeg") {
                "image/jpeg"
            } else if eq_ignore_ascii_case_str(e, "webp") {
                "image/webp"
            } else if eq_ignore_ascii_case_str(e, "bmp") {
                "image/bmp"
            } else {
                "image/png"
            }
        },
        None => "image/png",
    }
}

/// "data:{mime};base64,{content}" for a picked image file.
pub fn file_data_uri(name: &str, bytes: &[u8]) -> (r: String)
    requires
        bytes@.len() <= usize::MAX / 4,
    ensures
        r@ == "data:"@ + image_mime(name@) + ";base64,"@ + base64_of(bytes@),
{
    let mut s = String::new();
    s.append("data:");
    s.append(image_mime_of(name));
    s.append(";base64,");
    let b = base64_encode(bytes);
    s.append(b.as_str());
    s
}

// ---------------------------------------------------------------------------
// Images
// ---------------------------------------------------------------------------

/// Whether `image::load_from_memory` decodes the bytes.
pub uninterp spec fn image_decodes(b: Seq<u8>) -> bool;

/// The size (width, height) that `GenericImageView::dimensions` gives for
/// the image decoded from the bytes.
pub uninterp spec fn image_size(b: Seq<u8>) -> (u32, u32);

/// The PNG file that `image::write_buffer_with_format` writes for the
/// decoded image converted to RGBA8 (`DynamicImage::to_rgba8`); `None` when
/// the bytes do not decode or the encoder fails.
pub uninterp spec fn png_reencoding(b: Seq<u8>) -> Option<Seq<u8>>;

/// Why re-encoding failed: the bytes did not decode, or the PNG encoder
/// failed; each with the crate's description.
pub enum ReencodeError {
    Decode(String),
    Encode(String),
}

/// Calls `image::load_from_memory`, then `GenericImageView::dimensions`,
/// then `image::write_buffer_with_format` (PNG) on `DynamicImage::to_rgba8`
/// of the decoded image. Decoding and encoding depend on the bytes alone,
/// so the results are named over the input bytes. Claimed: a decoding
/// failure is `Decode` exactly when the bytes do not decode; otherwise the
/// result is `Ok` exactly when the named re-encoding exists, and then holds
/// it and the named size. The error texts are not stated.
#[verifier::external_body]
fn reencode_png(b: &[u8]) -> (r: Result<(Vec<u8>, (u32, u32)), ReencodeError>)
    ensures
        (r matches Err(ReencodeError::Decode(_))) <==> !image_decodes(b@),
        r is Ok <==> png_reencoding(b@) is Some,
        r matches Ok((png, size)) ==> png_reencoding(b@) == Some(png@) && size == image_size(b@),
{
    let img = match image::load_from_memory(b) {
        Ok(i) => i,
        Err(e) => return Err(ReencodeError::Decode(e.to_string())),
    };
    let size = image::GenericImageView::dimensions(&img);
    let rgba = img.to_rgba8();
    let mut out = std::io::Cursor::new(Vec::new());
    match image::write_buffer_with_format(&mut out, &rgba, rgba.width(), rgba.height(), image::ExtendedColorType::Rgba8, image::ImageFormat::Png) {
        Ok(()) => Ok((out.into_inner(), size)),
        Err(e) => Err(ReencodeError::Encode(e.to_string())),
    }
}

pub open spec fn png_uri_prefix() -> Seq<char> {
    "data:image/png;base64,"@
}

/// The data URI of the PNG re-encoding of `b`, when there is one.
pub open spec fn png_data_uri(b: Seq<u8>) -> Option<Seq<char>> {
    match png_reencoding(b) {
        Some(p) => Some(png_uri_prefix() + base64_of(p)),
        None => None,
    }
}

/// Whether `raw_to_data_uri` succeeds on `b`: the bytes decode, re-encode,
/// and the PNG is small enough to encode as text.
pub open spec fn previewable(b: Seq<u8>) -> bool {
    png_reencoding(b) matches Some(p) && p.len() <= usize::MAX / 4
}

/// A displayable copy of an image: re-encoded as PNG, as a data URI.
/// Undecodable bytes give "decode failed: …", a failed encoding "encode
/// failed: …".
pub fn raw_to_data_uri(b: &[u8]) -> (r: Result<String, String>)
    ensures
        previewable(b@) <==> r is Ok,
        r matches Ok(u) ==> Some(u@) == png_data_uri(b@),
        !image_decodes(b@) ==> (r matches Err(e) && has_prefix(e@, "decode failed: "@)),
        image_decodes(b@) && !previewable(b@) ==> (r matches Err(e) && has_prefix(e@, "encode failed: "@)),
{
    match reencode_png(b) {
        Ok((png, _)) => png_uri(png),
        Err(ReencodeError::Decode(e)) => Err(failure("decode failed: ", e.as_str())),
        Err(ReencodeError::Encode(e)) => Err(failure("encode failed: ", e.as_str())),
    }
}

/// `prefix` followed by `detail`.
fn failure(prefix: &str, detail: &str) -> (r: String)
    ensures
        r@ == prefix@ + detail@,
        has_prefix(r@, prefix@),
{
    let mut m = String::new();
    m.append(prefix);
    m.append(detail);
    assert(m@.take(prefix@.len() as int) =~= prefix@);
    m
}

/// The data URI of PNG bytes, refused when they are too long to encode.
fn png_uri(png: Vec<u8>) -> (r: Result<String, String>)
    ensures
        png@.len() <= usize::MAX / 4 ==> (r matches Ok(u) && u@ == png_uri_prefix() + base64_of(png@)),
        png@.len() > usize::MAX / 4 ==> (r matches Err(e) && has_prefix(e@, "encode failed: "@)),
{
    proof {
        reveal_strlit("encode failed: ");
    }
    if png.len() > usize::MAX / 4 {
        return Err(failure("encode failed: ", "output too large"));
    }
    let enc = base64_encode(png.as_slice());
    let mut s = String::new();
    s.append("data:image/png;base64,");
    s.append(enc.as_str());
    Ok(s)
}

/// A generated image ready to show: its data URI and its size.
pub struct Preview {
    pub data_uri: String,
    pub width: u32,
    pub height: u32,
}

/// The preview of generated image bytes: the data URI of the PNG
/// re-encoding and the size of the decoded image.
pub fn preview_of(b: &[u8]) -> (r: Result<Preview, String>)
    ensures
        previewable(b@) <==> r is Ok,
        r matches Ok(p) ==> Some(p.data_uri@) == png_data_uri(b@) && (p.width, p.height) == image_size(b@),
        !image_decodes(b@) ==> (r matches Err(e) && has_prefix(e@, "decode failed: "@)),
        image_decodes(b@) && !previewable(b@) ==> (r matches Err(e) && has_prefix(e@, "encode failed: "@)),
{
    match reencode_png(b) {
        Ok((png, (w, h))) => match png_uri(png) {
            Ok(uri) => Ok(Preview { data_uri: uri, width: w, height: h }),
            Err(e) => Err(e),
        },
        Err(ReencodeError::Decode(e)) => Err(failure("decode failed: ", e.as_str())),
        Err(ReencodeError::Encode(e)) => Err(failure("encode failed: ", e.as_str())),
    }
}

/// Image formats told apart when saving.
#[derive(Clone, Copy, PartialEq, Eq, Structural, Debug)]
pub enum ImageKind {
    Png,
    Jpeg,
    WebP,
    Bmp,
    Other,
}

/// Whether `b` begins with the bytes `p`.
pub open spec fn starts_with_bytes(b: Seq<u8>, p: Seq<u8>) -> bool {
    p.len() <= b.len() && b.take(p.len() as int) == p
}

/// The PNG signature.
pub open spec fn is_png_magic(b: Seq<u8>) -> bool {
    starts_with_bytes(b, seq![0x89u8, 0x50, 0x4e, 0x47, 0x0d, 0x0a, 0x1a, 0x0a])
}

/// The JPEG start of image.
pub open spec fn is_jpeg_magic(b: Seq<u8>) -> bool {
    starts_with_bytes(b, seq![0xffu8, 0xd8, 0xff])
}

/// A RIFF container of WebP data: "RIFF", four length bytes, "WEBP".
pub open spec fn is_webp_magic(b: Seq<u8>) -> bool {
    &&& starts_with_bytes(b, seq![0x52u8, 0x49, 0x46, 0x46])
    &&& b.len() >= 12
    &&& b.subrange(8, 12) == seq![0x57u8, 0x45, 0x42, 0x50]
}

/// The BMP signature "BM".
pub open spec fn is_bmp_magic(b: Seq<u8>) -> bool {
    starts_with_bytes(b, seq![0x42u8, 0x4d])
}

/// Calls `image::guess_format`, telling its formats apart as `ImageKind`
/// (every other format is `Other`). Claimed, from the crate's table of
/// magic bytes: PNG, JPEG, WebP and BMP are recognised exactly by their
/// signatures (which exclude each other and every other entry); which
/// other format, if any, is recognised is not stated.
#[verifier::external_body]
fn guess_kind(b: &[u8]) -> (r: Option<ImageKind>)
    ensures
        r == Some(ImageKind::Png) <==> is_png_magic(b@),
        r == Some(ImageKind::Jpeg) <==> is_jpeg_magic(b@),
        r == Some(ImageKind::WebP) <==> is_webp_magic(b@),
        r == Some(ImageKind::Bmp) <==> is_bmp_magic(b@),
{
    match image::guess_format(b) {
        Ok(image::ImageFormat::Png) => Some(ImageKind::Png),
        Ok(image::ImageFormat::Jpeg) => Some(ImageKind::Jpeg),
        Ok(image::ImageFormat::WebP) => Some(ImageKind::WebP),
        Ok(image::ImageFormat::Bmp) => Some(ImageKind::Bmp),
        Ok(_) => Some(ImageKind::Other),
        Err(_) => None,
    }
}

/// The file extension an image is saved with: by its recognised format,
/// PNG when it is none of JPEG, WebP and BMP.
pub open spec fn save_extension(b: Seq<u8>) -> Seq<char> {
    if is_jpeg_magic(b) {
        "jpg"@
    } else if is_webp_magic(b) {
        "webp"@
    } else if is_bmp_magic(b) {
        "bmp"@
    } else {
        "png"@
    }
}

/// The file name a generated image is saved under: "agnes_{secs}.{ext}".
pub fn image_file_name(bytes: &[u8], secs: u64) -> (r: String)
    ensures
        r@ == "agnes_"@ + decimal(secs as nat) + "."@ + save_extension(bytes@),
{
    let ext = match guess_kind(bytes) {
        Some(ImageKind::Jpeg) => "jpg",
        Some(ImageKind::WebP) => "webp",
        Some(ImageKind::Bmp) => "bmp",
        _ => "png",
    };
    let mut s = String::new();
    s.append("agnes_");
    push_decimal(&mut s, secs);
    s.append(".");
    s.append(ext);
    s
}

/// The file name a video is saved under: "agnes_video_{secs}.mp4".
pub fn video_file_name(secs: u64) -> (r: String)
    ensures
        r@ == "agnes_video_"@ + decimal(secs as nat) + ".mp4"@,
{
    let mut s = String::new();
    s.append("agnes_video_");
    push_decimal(&mut s, secs);
    s.append(".mp4");
    s
}

// ---------------------------------------------------------------------------
// Markdown
// ---------------------------------------------------------------------------

/// The HTML that pulldown-cmark renders for a Markdown text.
pub uninterp spec fn markdown_html(md: Seq<char>) -> Seq<char>;

/// Calls `pulldown_cmark::html::push_html` on `pulldown_cmark::Parser::new`
/// into an empty string. Claimed: the result is the named rendering of the
/// text (CommonMark to HTML; the rendering itself is not written out).
#[verifier::external_body]
fn render_markdown(md: &str) -> (r: String)
    ensures
        r@ == markdown_html(md@),
{
    let mut html = String::new();
    pulldown_cmark::html::push_html(&mut html, pulldown_cmark::Parser::new(md));
    html
}

/// The HTML of a release's notes, or of a "no notes" text in `lang` when
/// the notes are blank.
pub fn release_notes_html(notes: &str, lang: Lang) -> (r: String)
    ensures
        r@ == markdown_html(if is_blank(notes@) { spec_t(lang, "upd.nonotes"@) } else { notes@ }),
{
    if is_blank_str(notes) {
        render_markdown(t(lang, "upd.nonotes"))
    } else {
        render_markdown(notes)
    }
}


/// The last `.` of a name ending in a dot-free text is the dot before it.
proof fn lemma_last_dot(s: Seq<char>, e: Seq<char>)
    requires
        forall|i: int| 0 <= i < e.len() ==> e[i] != '.',
    ensures
        last_index(s + seq!['.'] + e, '.') == Some(s.len()),
    decreases e.len(),
{
    let name = s + seq!['.'] + e;
    if e.len() == 0 {
        assert(name.last() == '.');
    } else {
        assert(name.last() == e.last());
        assert(name.drop_last() =~= s + seq!['.'] + e.drop_last());
        lemma_last_dot(s, e.drop_last());
    }
}

/// The extension of a file name is the text after its last dot (as
/// `Path::extension`): a non-empty stem (which may hold dots itself)
/// followed by `.` and a non-empty dot-free text has that text as its
/// extension. So "holiday.photo.jpg" is a JPEG, whatever the stem.
pub proof fn lemma_extension_after_last_dot(stem: Seq<char>, ext: Seq<char>)
    requires
        stem.len() > 0,
        ext.len() > 0,
        forall|i: int| 0 <= i < ext.len() ==> ext[i] != '.',
    ensures
        file_extension(stem + seq!['.'] + ext) == Some(ext),
        eq_ignore_ascii_case(ext, "jpg"@) ==> image_mime(stem + seq!['.'] + ext) == "image/jpeg"@,
{
    let name = stem + seq!['.'] + ext;
    lemma_last_dot(stem, ext);
    assert(name.len() > 2);
    assert(name.skip(stem.len() + 1int) =~= ext);
    reveal_strlit("png");
    reveal_strlit("jpg");
    if eq_ignore_ascii_case(ext, "jpg"@) {
        assert(ascii_lower(ext[0]) == ascii_lower("jpg"@[0]));
        assert(!eq_ignore_ascii_case(ext, "png"@)) by {
            assert(ascii_lower("png"@[0]) != ascii_lower("jpg"@[0]));
        }
    }
}

} // verus!
