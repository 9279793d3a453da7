//! Version comparison and release selection for self-update.
//!
//! The network side (querying the releases endpoint, downloading the
//! installer, launching it) lives with the program; this module decides
//! whether a release is newer and what to offer.

use vstd::prelude::*;
use crate::text::{
    chars_of, decimal, digits_value, ends_with_ignore_ascii_case_str, find_char, first_index,
    has_prefix, has_suffix_ignore_ascii_case, is_digit, is_ws, lemma_decimal_digits,
    lemma_first_index_at, parse_u64, parse_u64_chars, push_decimal, starts_with_str,
    strip_leading, strip_leading_str, trim, trim_end, trim_start, trim_str,
};

verus! {

/// What a newer release offers.
#[derive(Clone, Debug)]
pub struct UpdateInfo {
    /// Version number such as "0.2.0", without the tag's `v` prefix.
    pub version: String,
    /// Release notes (the release body as written).
    pub notes: String,
    /// Direct link to the setup executable; `None` when the release has none.
    pub setup_url: Option<String>,
    /// Release page, offered when there is no setup executable.
    pub html_url: String,
}

/// One downloadable file of a release.
pub struct Asset {
    pub name: String,
    pub browser_download_url: String,
}

/// The fields of a published release that the update decision reads.
pub struct Release {
    pub tag_name: String,
    pub body: String,
    pub html_url: String,
    pub assets: Vec<Asset>,
}

/// The part of a version string that is split into numbers: trimmed, then
/// without leading `v`s, then without leading `V`s.
pub open spec fn version_core(v: Seq<char>) -> Seq<char> {
    strip_leading(strip_leading(trim(v), 'v'), 'V')
}

/// The third component's text: after the second `.`, up to a third `.`,
/// or `"0"` when there is no second `.`.
pub open spec fn third_piece(r1: Seq<char>) -> Seq<char> {
    let j = first_index(r1, '.');
    if j >= r1.len() {
        seq!['0']
    } else {
        let r2 = r1.skip(j + 1int);
        r2.take(first_index(r2, '.') as int)
    }
}

/// The third number: its piece up to a `-`.
pub open spec fn third_value(r1: Seq<char>) -> Option<u64> {
    let p3 = third_piece(r1);
    parse_u64(p3.take(first_index(p3, '-') as int))
}

/// "v0.2.0" / "0.2.0" / "0.2" / "0.2.0-beta" read as a triple; `None` when
/// the text does not have that shape.
pub open spec fn spec_version_tuple(v: Seq<char>) -> Option<(u64, u64, u64)> {
    let s = version_core(v);
    let i = first_index(s, '.');
    if i >= s.len() {
        None
    } else {
        let p1 = s.take(i as int);
        let r1 = s.skip(i + 1int);
        let p2 = r1.take(first_index(r1, '.') as int);
        match (parse_u64(p1), parse_u64(p2), third_value(r1)) {
            (Some(a), Some(b), Some(c)) => Some((a, b, c)),
            _ => None,
        }
    }
}

/// Lexicographic order on version triples.
pub open spec fn triple_gt(l: (u64, u64, u64), c: (u64, u64, u64)) -> bool {
    ||| l.0 > c.0
    ||| l.0 == c.0 && l.1 > c.1
    ||| l.0 == c.0 && l.1 == c.1 && l.2 > c.2
}

/// `latest` is strictly newer than `current`; false when either does not parse.
pub open spec fn spec_is_newer(latest: Seq<char>, current: Seq<char>) -> bool {
    match (spec_version_tuple(latest), spec_version_tuple(current)) {
        (Some(l), Some(c)) => triple_gt(l, c),
        _ => false,
    }
}

/// "a.b.c" in decimal.
pub open spec fn format_version(t: (u64, u64, u64)) -> Seq<char> {
    decimal(t.0 as nat) + seq!['.'] + decimal(t.1 as nat) + seq!['.'] + decimal(t.2 as nat)
}

/// The version shown for a release tag: its triple written out when it
/// parses, else the tag without leading `v`s.
pub open spec fn release_version(tag: Seq<char>) -> Seq<char> {
    match spec_version_tuple(tag) {
        Some(t) => format_version(t),
        None => strip_leading(tag, 'v'),
    }
}

pub open spec fn setup_prefix() -> Seq<char> {
    seq!['A', 'g', 'n', 'e', 's', 'S', 't', 'u', 'd', 'i', 'o', '-', 'S', 'e', 't', 'u', 'p', '-']
}

/// An installer asset: named "AgnesStudio-Setup-…" and ending in ".exe" in
/// any letter case.
pub open spec fn is_setup_asset(name: Seq<char>) -> bool {
    has_prefix(name, setup_prefix()) && has_suffix_ignore_ascii_case(name, seq!['.', 'e', 'x', 'e'])
}

/// Position of the first installer asset, or `assets.len()`.
pub open spec fn setup_index(assets: Seq<Asset>) -> nat
    decreases assets.len(),
{
    if assets.len() == 0 {
        0
    } else if is_setup_asset(assets[0].name@) {
        0
    } else {
        1 + setup_index(assets.drop_first())
    }
}

/// Triples parse back from their written form.
pub proof fn lemma_version_roundtrip(t: (u64, u64, u64))
    ensures
        spec_version_tuple(format_version(t)) == Some(t),
{
    let da = decimal(t.0 as nat);
    let db = decimal(t.1 as nat);
    let dc = decimal(t.2 as nat);
    lemma_decimal_digits(t.0 as nat);
    lemma_decimal_digits(t.1 as nat);
    lemma_decimal_digits(t.2 as nat);
    let s = format_version(t);
    assert(s =~= da + seq!['.'] + db + seq!['.'] + dc);
    // no white space to trim, no `v` to strip
    assert(s.len() > 0 && !is_ws(s[0]) && !is_ws(s.last()));
    assert(s[0] == da[0]);
    assert(s.last() == dc.last());
    assert(trim_start(s) == s);
    assert(trim_end(s) == s);
    assert(is_digit(s[0]));
    assert(strip_leading(s, 'v') == s);
    assert(strip_leading(s, 'V') == s);
    assert(version_core(s) == s);
    // first piece
    assert forall|k: int| 0 <= k < da.len() implies s[k] != '.' by {
        assert(s[k] == da[k]);
        assert(is_digit(da[k]));
    }
    lemma_first_index_at(s, '.', da.len());
    let r1 = s.skip(da.len() + 1int);
    assert(r1 =~= db + seq!['.'] + dc);
    assert(s.take(da.len() as int) =~= da);
    assert forall|k: int| 0 <= k < db.len() implies r1[k] != '.' by {
        assert(r1[k] == db[k]);
        assert(is_digit(db[k]));
    }
    lemma_first_index_at(r1, '.', db.len());
    assert(r1.take(db.len() as int) =~= db);
    let r2 = r1.skip(db.len() + 1int);
    assert(r2 =~= dc);
    assert forall|k: int| 0 <= k < dc.len() implies dc[k] != '.' && dc[k] != '-' by {
        assert(is_digit(dc[k]));
    }
    lemma_first_index_at(dc, '.', dc.len());
    lemma_first_index_at(dc, '-', dc.len());
    assert(dc.take(dc.len() as int) =~= dc);
    assert(third_piece(r1) == dc);
}

/// No version is newer than itself.
pub proof fn lemma_is_newer_irreflexive(v: Seq<char>)
    ensures
        !spec_is_newer(v, v),
{
}

/// Of two versions at most one is newer than the other.
pub proof fn lemma_is_newer_asymmetric(a: Seq<char>, b: Seq<char>)
    ensures
        spec_is_newer(a, b) ==> !spec_is_newer(b, a),
{
}

/// "Newer" is transitive.
pub proof fn lemma_is_newer_transitive(a: Seq<char>, b: Seq<char>, c: Seq<char>)
    requires
        spec_is_newer(a, b),
        spec_is_newer(b, c),
    ensures
        spec_is_newer(a, c),
{
}

/// A version that does not parse is neither newer nor older than any other.
pub proof fn lemma_unparsable_never_newer(a: Seq<char>, b: Seq<char>)
    requires
        spec_version_tuple(a) is None,
    ensures
        !spec_is_newer(a, b),
        !spec_is_newer(b, a),
{
}

/// The version offered for a newer release parses to the same triple as its
/// tag, so it compares against the running version as the tag did.
pub proof fn lemma_release_version_same_triple(tag: Seq<char>, current: Seq<char>)
    requires
        spec_is_newer(tag, current),
    ensures
        spec_version_tuple(release_version(tag)) == spec_version_tuple(tag),
        spec_is_newer(release_version(tag), current),
{
    lemma_version_roundtrip(spec_version_tuple(tag).unwrap());
}

/// `third_value` of `cs[lo..n]`.
fn third_component(cs: &Vec<char>, lo: usize, n: usize) -> (r: Option<u64>)
    requires
        lo <= n == cs@.len(),
    ensures
        r == third_value(cs@.subrange(lo as int, n as int)),
{
    let ghost r1 = cs@.subrange(lo as int, n as int);
    let j = find_char(cs, lo, n, '.');
    if j >= n {
        proof {
            let z = seq!['0'];
            lemma_first_index_at(z, '-', 1);
            assert(z.take(1) =~= z);
            assert(z.drop_last() =~= Seq::<char>::empty());
            assert(digits_value(Seq::<char>::empty()) == 0);
            assert(digits_value(z) == 0);
            assert(third_piece(r1) == z);
        }
        Some(0u64)
    } else {
        let ghost r2 = r1.skip(j - lo + 1);
        assert(r2 =~= cs@.subrange(j + 1, n as int));
        let k = find_char(cs, j + 1, n, '.');
        assert(r2.take(k - (j + 1)) =~= cs@.subrange(j + 1, k as int));
        let m = find_char(cs, j + 1, k, '-');
        let ghost p3 = cs@.subrange(j + 1, k as int);
        assert(third_piece(r1) == p3);
        assert(p3.take(m - (j + 1)) =~= cs@.subrange(j + 1, m as int));
        parse_u64_chars(cs, j + 1, m)
    }
}

/// Reads "v0.2.0" / "0.2.0" as (0, 2, 0); `None` when it cannot.
pub fn version_tuple(v: &str) -> (r: Option<(u64, u64, u64)>)
    ensures
        r == spec_version_tuple(v@),
{
    let t0 = trim_str(v);
    let t1 = strip_leading_str(t0, 'v');
    let t = strip_leading_str(t1, 'V');
    let cs = chars_of(t);
    let n = cs.len();
    let ghost s = cs@;
    assert(s == version_core(v@));
    assert(s.subrange(0, n as int) =~= s);
    let i = find_char(&cs, 0, n, '.');
    if i >= n {
        return None;
    }
    assert(s.take(i as int) =~= s.subrange(0, i as int));
    let ghost r1 = s.skip(i + 1int);
    assert(r1 =~= s.subrange(i + 1, n as int));
    let j = find_char(&cs, i + 1, n, '.');
    assert(r1.take(j - (i + 1)) =~= s.subrange(i + 1, j as int));
    let a = parse_u64_chars(&cs, 0, i);
    let b = parse_u64_chars(&cs, i + 1, j);
    let c = third_component(&cs, i + 1, n);
    match (a, b, c) {
        (Some(a), Some(b), Some(c)) => Some((a, b, c)),
        _ => None,
    }
}

/// Whether `latest` is strictly newer than `current`.
pub fn is_newer(latest: &str, current: &str) -> (r: bool)
    ensures
        r == spec_is_newer(latest@, current@),
{
    match (version_tuple(latest), version_tuple(current)) {
        (Some(l), Some(c)) => l.0 > c.0 || (l.0 == c.0 && l.1 > c.1) || (l.0 == c.0 && l.1 == c.1
            && l.2 > c.2),
        _ => false,
    }
}

/// "a.b.c" for a version triple.
pub fn format_version_string(t: (u64, u64, u64)) -> (r: String)
    ensures
        r@ == format_version(t),
{
    proof {
        reveal_strlit(".");
    }
    let mut s = String::new();
    push_decimal(&mut s, t.0);
    s.append(".");
    push_decimal(&mut s, t.1);
    s.append(".");
    push_decimal(&mut s, t.2);
    assert(s@ =~= format_version(t));
    s
}

/// Whether an asset is the installer to download.
pub fn is_setup_asset_name(name: &str) -> (r: bool)
    ensures
        r == is_setup_asset(name@),
{
    proof {
        reveal_strlit("AgnesStudio-Setup-");
        reveal_strlit(".exe");
        assert("AgnesStudio-Setup-"@ =~= setup_prefix());
        assert(".exe"@ =~= seq!['.', 'e', 'x', 'e']);
    }
    starts_with_str(name, "AgnesStudio-Setup-") && ends_with_ignore_ascii_case_str(name, ".exe")
}

/// The download link of the first installer asset, if any.
pub fn setup_url(assets: &Vec<Asset>) -> (r: Option<String>)
    ensures
        match r {
            Some(u) => setup_index(assets@) < assets@.len() && u@ == assets@[setup_index(assets@) as int].browser_download_url@,
            None => setup_index(assets@) >= assets@.len(),
        },
{
    let mut i: usize = 0;
    assert(assets@.skip(0) =~= assets@);
    while i < assets.len()
        invariant
            i <= assets@.len(),
            setup_index(assets@) == i + setup_index(assets@.skip(i as int)),
        decreases assets@.len() - i,
    {
        assert(assets@.skip(i as int).drop_first() =~= assets@.skip(i + 1));
        assert(assets@.skip(i as int)[0] == assets@[i as int]);
        if is_setup_asset_name(assets[i].name.as_str()) {
            return Some(assets[i].browser_download_url.clone());
        }
        i = i + 1;
    }
    assert(assets@.skip(i as int) =~= Seq::<Asset>::empty());
    None
}

/// The version text shown for a release tag.
pub fn release_version_string(tag: &str) -> (r: String)
    ensures
        r@ == release_version(tag@),
{
    match version_tuple(tag) {
        Some(t) => format_version_string(t),
        None => strip_leading_str(tag, 'v').to_string(),
    }
}

/// What to offer for the latest published release, given the running
/// version: `None` when the release is not strictly newer.
pub fn update_from_release(rel: &Release, current: &str) -> (r: Option<UpdateInfo>)
    ensures
        r is Some <==> spec_is_newer(rel.tag_name@, current@),
        r matches Some(u) ==> {
            &&& u.version@ == release_version(rel.tag_name@)
            &&& u.notes@ == rel.body@
            &&& u.html_url@ == rel.html_url@
            &&& match u.setup_url {
                Some(url) => setup_index(rel.assets@) < rel.assets@.len()
                    && url@ == rel.assets@[setup_index(rel.assets@) as int].browser_download_url@,
                None => setup_index(rel.assets@) >= rel.assets@.len(),
            }
        },
{
    if !is_newer(rel.tag_name.as_str(), current) {
        return None;
    }
    let setup = setup_url(&rel.assets);
    let version = release_version_string(rel.tag_name.as_str());
    Some(UpdateInfo {
        version,
        notes: rel.body.clone(),
        setup_url: setup,
        html_url: rel.html_url.clone(),
    })
}

/// What "update now" does for an offered update.
pub enum UpdateAction {
    /// Download and run this installer.
    Download(String),
    /// No installer: open the release page in the browser.
    OpenPage(String),
}

pub fn update_action(info: &UpdateInfo) -> (r: UpdateAction)
    ensures
        match info.setup_url {
            Some(u) => r matches UpdateAction::Download(x) && x == u,
            None => r matches UpdateAction::OpenPage(x) && x == info.html_url,
        },
{
    match &info.setup_url {
        Some(u) => UpdateAction::Download(u.clone()),
        None => UpdateAction::OpenPage(info.html_url.clone()),
    }
}

/// The error after the installer could not be downloaded: the last error,
/// or a generic one when none was recorded.
pub fn download_failure(last_err: String) -> (r: String)
    ensures
        r@ == (if last_err@.len() == 0 { "下载失败"@ } else { last_err@ }),
{
    if last_err.as_str().unicode_len() == 0 {
        "下载失败".to_string()
    } else {
        last_err
    }
}

} // verus!
