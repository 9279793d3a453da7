use agnes_studio::text::{
    decimal_string, eq_ignore_ascii_case_str, replace_str, str_eq, strip_leading_str, trim_str,
};
use agnes_studio::updater::{
    download_failure, format_version_string, is_newer, release_version_string, update_action,
    update_from_release, version_tuple, Asset, Release, UpdateAction, UpdateInfo,
};

#[test]
fn trim_removes_unicode_white_space() {
    assert_eq!(trim_str("\u{3000} a b\t\n"), "a b");
    assert_eq!(trim_str("   "), "");
    assert_eq!(trim_str("x"), "x");
}

#[test]
fn strip_leading_removes_every_leading_char() {
    assert_eq!(strip_leading_str("vvv1", 'v'), "1");
    assert_eq!(strip_leading_str("1v", 'v'), "1v");
}

#[test]
fn replace_is_left_to_right_and_non_overlapping() {
    assert_eq!(replace_str("aaaa", "aa", "b"), "bb");
    assert_eq!(replace_str("aaa", "aa", "b"), "ba");
    assert_eq!(replace_str("{v} and {v}", "{v}", "1.0"), "1.0 and 1.0");
    assert_eq!(replace_str("none", "{x}", "y"), "none");
}

#[test]
fn string_comparisons() {
    assert!(str_eq("图片", "图片"));
    assert!(!str_eq("a", "ab"));
    assert!(eq_ignore_ascii_case_str("CN", "cn"));
    assert!(!eq_ignore_ascii_case_str("cn ", "cn"));
}

#[test]
fn decimal_notation() {
    assert_eq!(decimal_string(0), "0");
    assert_eq!(decimal_string(1205), "1205");
    assert_eq!(decimal_string(u64::MAX), "18446744073709551615");
}

#[test]
fn version_tuple_reads_tags() {
    assert_eq!(version_tuple("v0.2.0"), Some((0, 2, 0)));
    assert_eq!(version_tuple("0.2.0"), Some((0, 2, 0)));
    assert_eq!(version_tuple(" V1.2.3-beta "), Some((1, 2, 3)));
    assert_eq!(version_tuple("1.2"), Some((1, 2, 0)));
    assert_eq!(version_tuple("vv1.0.0"), Some((1, 0, 0)));
    assert_eq!(version_tuple("+1.2.3"), Some((1, 2, 3)));
    assert_eq!(version_tuple("1.2.3.4"), Some((1, 2, 3)));
}

#[test]
fn version_tuple_rejects_other_shapes() {
    assert_eq!(version_tuple("1"), None);
    assert_eq!(version_tuple("1.2.x"), None);
    assert_eq!(version_tuple("1.2."), None);
    assert_eq!(version_tuple("1.2-beta"), None);
    assert_eq!(version_tuple("Vv1.0.0"), None);
    assert_eq!(version_tuple(""), None);
    assert_eq!(version_tuple("18446744073709551616.0.0"), None);
}

#[test]
fn is_newer_compares_strictly() {
    assert!(is_newer("v0.2.0", "0.1.9"));
    assert!(is_newer("0.10.0", "0.9.0"));
    assert!(!is_newer("0.2.0", "0.2.0"));
    assert!(!is_newer("0.1.0", "0.2.0"));
    assert!(!is_newer("garbage", "0.1.0"));
    assert!(!is_newer("1.0.0", "garbage"));
}

#[test]
fn is_newer_laws_on_examples() {
    let vs = ["0.1.0", "0.1.1", "0.2", "v1.0.0", "bad"];
    for a in vs {
        assert!(!is_newer(a, a));
        for b in vs {
            assert!(!(is_newer(a, b) && is_newer(b, a)));
            for c in vs {
                if is_newer(a, b) && is_newer(b, c) {
                    assert!(is_newer(a, c));
                }
            }
        }
    }
}

#[test]
fn formatted_versions_parse_back() {
    for t in [(0, 0, 0), (1, 2, 3), (10, 0, 99), (u64::MAX, 7, u64::MAX)] {
        let s = format_version_string(t);
        assert_eq!(version_tuple(&s), Some(t));
    }
    assert_eq!(format_version_string((0, 2, 0)), "0.2.0");
}

fn release(tag: &str, assets: Vec<(&str, &str)>) -> Release {
    Release {
        tag_name: tag.to_string(),
        body: "notes".to_string(),
        html_url: "https://example.org/r".to_string(),
        assets: assets
            .into_iter()
            .map(|(n, u)| Asset { name: n.to_string(), browser_download_url: u.to_string() })
            .collect(),
    }
}

#[test]
fn newer_release_is_offered_with_first_installer() {
    let rel = release(
        "v1.2.0",
        vec![
            ("notes.txt", "u0"),
            ("AgnesStudio-Setup-1.2.0.EXE", "u1"),
            ("AgnesStudio-Setup-1.2.0.exe", "u2"),
        ],
    );
    let info = update_from_release(&rel, "1.1.0").unwrap();
    assert_eq!(info.version, "1.2.0");
    assert_eq!(info.notes, "notes");
    assert_eq!(info.html_url, "https://example.org/r");
    assert_eq!(info.setup_url.as_deref(), Some("u1"));
}

#[test]
fn release_without_installer_offers_page() {
    let rel = release("1.2", vec![("agnesstudio-setup-1.2.exe", "u"), ("AgnesStudio-Setup-1.2.zip", "z")]);
    let info = update_from_release(&rel, "1.1.9").unwrap();
    assert_eq!(info.version, "1.2.0");
    assert!(info.setup_url.is_none());
    match update_action(&info) {
        UpdateAction::OpenPage(p) => assert_eq!(p, "https://example.org/r"),
        UpdateAction::Download(_) => panic!("no installer was published"),
    }
}

#[test]
fn older_or_equal_release_is_not_offered() {
    assert!(update_from_release(&release("v1.0.0", vec![]), "1.0.0").is_none());
    assert!(update_from_release(&release("v0.9.9", vec![]), "1.0.0").is_none());
    assert!(update_from_release(&release("latest", vec![]), "1.0.0").is_none());
}

#[test]
fn release_version_text() {
    assert_eq!(release_version_string("v2.01.3"), "2.1.3");
    assert_eq!(release_version_string("vnext"), "next");
}

#[test]
fn update_action_downloads_installer() {
    let info = UpdateInfo {
        version: "1.0.0".to_string(),
        notes: String::new(),
        setup_url: Some("https://x/setup.exe".to_string()),
        html_url: "https://x".to_string(),
    };
    match update_action(&info) {
        UpdateAction::Download(u) => assert_eq!(u, "https://x/setup.exe"),
        UpdateAction::OpenPage(_) => panic!("installer expected"),
    }
}

#[test]
fn download_failure_message() {
    assert_eq!(download_failure(String::new()), "下载失败");
    assert_eq!(download_failure("下载失败：HTTP 404".to_string()), "下载失败：HTTP 404");
}
