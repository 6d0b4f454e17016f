use interceptor::updater::{
    github_releases_url, latest_release_api_url, trim_leading_v, update_available,
    update_page_url, update_status_for_release,
    update_status_for_versions, update_status_from_release_document, UpdateStatus,
};

#[test]
fn newer_release_is_offered() {
    let status = update_status_for_versions(
        "0.1.0",
        "v0.2.0",
        "https://example.invalid/release".to_string(),
    );

    assert!(matches!(
        status,
        UpdateStatus::Available { version, .. } if version == "0.2.0"
    ));
}

#[test]
fn older_release_is_not_presented_as_an_update() {
    let status = update_status_for_versions(
        "0.2.0",
        "v0.1.0",
        "https://example.invalid/release".to_string(),
    );

    assert!(matches!(status, UpdateStatus::UpToDate));
}

#[test]
fn malformed_release_version_does_not_create_an_update_prompt() {
    let status = update_status_for_versions(
        "0.1.0",
        "today-build",
        "https://example.invalid/release".to_string(),
    );

    assert!(matches!(status, UpdateStatus::Failed(_)));
}

#[test]
fn version_problems_say_which_version() {
    let status = update_status_for_versions("x", "1.0.0", String::new());
    assert!(matches!(status, UpdateStatus::Failed(ref m) if m.starts_with("invalid app version: ")));
    let status = update_status_for_versions("1.0.0", "1.0", String::new());
    assert!(matches!(status, UpdateStatus::Failed(ref m) if m.starts_with("invalid release version: ")));
    let same = update_status_for_versions("1.2.3", "vv1.2.3", String::new());
    assert!(matches!(same, UpdateStatus::UpToDate));
    let pre = update_status_for_versions("1.2.3-beta", "1.2.3", "u".to_string());
    assert!(matches!(pre, UpdateStatus::Available { ref version, ref url } if version == "1.2.3" && url == "u"));
}

#[test]
fn release_documents_are_read_for_tag_and_page() {
    let status = update_status_from_release_document(
        r#"{"tag_name": "v9.0.0", "html_url": "https://example.invalid/r"}"#,
        "1.0.0",
    );
    assert!(matches!(status, UpdateStatus::Available { ref version, ref url }
        if version == "9.0.0" && url == "https://example.invalid/r"));
    let status = update_status_from_release_document(r#"{"tag_name": "v9.0.0"}"#, "1.0.0");
    assert!(matches!(status, UpdateStatus::Available { ref url, .. }
        if url == "https://github.com/wedontselldrugs/interceptor/releases/latest"));
    let status = update_status_from_release_document(r#"{"name": "x"}"#, "1.0.0");
    assert!(matches!(status, UpdateStatus::Failed(ref m) if m == "latest release has no tag_name"));
    let status = update_status_from_release_document("not json", "1.0.0");
    assert!(matches!(status, UpdateStatus::Failed(ref m) if !m.is_empty()));
    let status = update_status_for_release(None, None, "1.0.0");
    assert!(matches!(status, UpdateStatus::Failed(_)));
}

#[test]
fn update_offers_and_names() {
    assert!(update_available(&UpdateStatus::Available { version: "1".to_string(), url: "u".to_string() }));
    assert!(!update_available(&UpdateStatus::Skipped { version: "1".to_string(), url: "u".to_string() }));
    assert!(!update_available(&UpdateStatus::Checking));
    assert_eq!(github_releases_url(), "https://github.com/wedontselldrugs/interceptor/releases/latest");
    assert_eq!(trim_leading_v("vvv1.0"), "1.0");
    assert_eq!(trim_leading_v("1.0v"), "1.0v");
}

#[test]
fn the_running_version_is_never_offered() {
    let status = update_status_for_versions("v1.4.2", "1.4.2", "https://example.invalid/r".to_string());
    assert!(matches!(status, UpdateStatus::UpToDate));
}

#[test]
fn version_numbers_compare_major_then_minor_then_patch() {
    let url = || "https://example.invalid/r".to_string();
    assert!(matches!(
        update_status_for_versions("1.9.9", "2.0.0", url()),
        UpdateStatus::Available { .. }
    ));
    assert!(matches!(
        update_status_for_versions("2.0.0", "1.9.9", url()),
        UpdateStatus::UpToDate
    ));
    assert!(matches!(
        update_status_for_versions("1.2.9", "1.10.0", url()),
        UpdateStatus::Available { .. }
    ));
    assert!(matches!(
        update_status_for_versions("1.2.3", "1.2.10", url()),
        UpdateStatus::Available { .. }
    ));
}

#[test]
fn the_update_page_is_the_offered_release_or_the_releases_list() {
    let offered = UpdateStatus::Available {
        version: "0.2.0".to_string(),
        url: "https://example.invalid/release".to_string(),
    };
    assert_eq!(update_page_url(&offered), "https://example.invalid/release");
    let skipped = UpdateStatus::Skipped {
        version: "0.2.0".to_string(),
        url: "https://example.invalid/skipped".to_string(),
    };
    assert_eq!(update_page_url(&skipped), "https://example.invalid/skipped");
    assert_eq!(
        update_page_url(&UpdateStatus::UpToDate),
        "https://github.com/wedontselldrugs/interceptor/releases/latest"
    );
    assert_eq!(
        latest_release_api_url(),
        "https://api.github.com/repos/wedontselldrugs/interceptor/releases/latest"
    );
}

#[test]
fn only_text_fields_of_the_release_document_count() {
    let status = update_status_from_release_document(
        r#"{"tag_name": 9, "html_url": "https://example.invalid/r"}"#,
        "1.0.0",
    );
    assert!(matches!(status, UpdateStatus::Failed(ref m) if m == "latest release has no tag_name"));
    let status = update_status_from_release_document(
        r#"{"tag_name": "1.0.1", "html_url": 7}"#,
        "1.0.0",
    );
    assert!(matches!(status, UpdateStatus::Available { ref url, .. }
        if url == "https://github.com/wedontselldrugs/interceptor/releases/latest"));
}
