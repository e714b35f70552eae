use music_tray::cover::{
    basic_unescape, extract_file_path, has_file_prefix, path_from_decoded, CoverAction, CoverArt,
    CoverStatus, ProbeState,
};

#[test]
fn file_url_is_percent_decoded() {
    assert_eq!(extract_file_path("file:///a%20b.jpg"), Some("/a b.jpg".to_string()));
    assert_eq!(
        extract_file_path("file:///music/%E4%B8%AD.png"),
        Some("/music/\u{4e2d}.png".to_string())
    );
    assert_eq!(extract_file_path("file:///plain/path.jpg"), Some("/plain/path.jpg".to_string()));
}

#[test]
fn fallback_table_when_decoding_fails() {
    assert_eq!(path_from_decoded("/a%20b.jpg", None), "/a b.jpg");
    assert_eq!(path_from_decoded("/a%20b.jpg", Some("/x".to_string())), "/x");
    // %FF is not UTF-8, so the fallback table applies
    assert_eq!(extract_file_path("file:///a%20b%FF.jpg"), Some("/a b%FF.jpg".to_string()));
}

#[test]
fn basic_unescape_table() {
    assert_eq!(basic_unescape("%20%2F%5C%3A"), " /\\:");
    assert_eq!(basic_unescape("a%2fb%41%"), "a%2fb%41%");
    assert_eq!(basic_unescape("%%20"), "% ");
    assert_eq!(basic_unescape(""), "");
    assert_eq!(basic_unescape("\u{4e2d}%20\u{6587}"), "\u{4e2d} \u{6587}");
}

#[test]
fn non_file_urls_are_not_local() {
    assert_eq!(extract_file_path("https://example.com/a.jpg"), None);
    assert_eq!(extract_file_path("file:/a.jpg"), None);
    assert_eq!(extract_file_path(""), None);
    assert!(has_file_prefix("file://"));
    assert!(!has_file_prefix("File://x"));
}

#[test]
fn first_reference_asks_for_probe_then_decode() {
    let mut c = CoverArt::new();
    assert_eq!(c.status(), CoverStatus::NoCover);
    assert_eq!(c.resolve(Some("file:///a%20b.jpg".to_string())), CoverAction::Probe);
    assert_eq!(c.status(), CoverStatus::AwaitingProbe);
    assert_eq!(c.probe_finished(true), CoverAction::Decode("/a b.jpg".to_string()));
    assert_eq!(c.status(), CoverStatus::Decoding);
    c.decode_finished(true);
    assert_eq!(c.status(), CoverStatus::Loaded);
}

#[test]
fn same_reference_is_cached() {
    let mut c = CoverArt::new();
    let url = Some("file:///x.png".to_string());
    c.resolve(url.clone());
    c.probe_finished(true);
    c.decode_finished(true);
    assert_eq!(c.resolve(url.clone()), CoverAction::Keep);
    assert_eq!(c.resolve(url), CoverAction::Keep);
    assert_eq!(c.status(), CoverStatus::Loaded);
}

#[test]
fn changed_reference_discards() {
    let mut c = CoverArt::new();
    c.resolve(Some("file:///x.png".to_string()));
    c.probe_finished(true);
    c.decode_finished(true);
    assert_eq!(c.resolve(Some("file:///y.png".to_string())), CoverAction::Decode("/y.png".to_string()));
    assert_eq!(c.status(), CoverStatus::Decoding);
    c.decode_finished(true);
    assert_eq!(c.resolve(None), CoverAction::Discard);
    assert_eq!(c.status(), CoverStatus::NoCover);
    assert_eq!(c.resolve(None), CoverAction::Keep);
    assert_eq!(c.resolve(Some("https://e.com/a.jpg".to_string())), CoverAction::Discard);
    assert_eq!(c.status(), CoverStatus::NotLocal);
}

#[test]
fn decode_failure_is_not_retried() {
    let mut c = CoverArt::new();
    let url = Some("file:///broken.png".to_string());
    c.resolve(url.clone());
    c.probe_finished(true);
    c.decode_finished(false);
    assert_eq!(c.status(), CoverStatus::Failed);
    assert_eq!(c.resolve(url), CoverAction::Keep);
    assert_eq!(c.status(), CoverStatus::Failed);
}

#[test]
fn failed_probe_disables_images_for_good() {
    let mut c = CoverArt::new();
    assert_eq!(c.resolve(Some("file:///x.png".to_string())), CoverAction::Probe);
    assert_eq!(c.probe_finished(false), CoverAction::Discard);
    assert_eq!(c.status(), CoverStatus::Unsupported);
    assert_eq!(c.probe_state(), ProbeState::Incapable);
    assert_eq!(c.resolve(Some("file:///y.png".to_string())), CoverAction::Discard);
    assert_eq!(c.status(), CoverStatus::Unsupported);
    // a later outcome does not overturn the first
    assert_eq!(c.probe_finished(true), CoverAction::Keep);
    assert_eq!(c.probe_state(), ProbeState::Incapable);
}

#[test]
fn remote_reference_is_probed_but_not_decoded() {
    let mut c = CoverArt::new();
    assert_eq!(c.resolve(Some("https://e.com/a.jpg".to_string())), CoverAction::Probe);
    assert_eq!(c.probe_finished(true), CoverAction::Discard);
    assert_eq!(c.status(), CoverStatus::NotLocal);
}
