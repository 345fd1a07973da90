use newtemp::config::{AppConfig, Settings};
use newtemp::download::{download, Download};
use newtemp::registry::Registry;
use newtemp::upload::{begin_upload, complete_upload, UploadForm};

const MINUTE: u64 = 60 * 1_000_000_000;

fn one_minute_two_downloads() -> AppConfig {
    AppConfig::from_settings(Settings {
        address: None,
        storage_dir: None,
        default_ttl_mins: Some("1".to_string()),
        cleanup_interval_mins: Some("1".to_string()),
        max_downloads: Some("2".to_string()),
        upload_page_enabled: Some("true".to_string()),
        upload_password: Some("s3cret".to_string()),
        use_filename_suffix: Some("true".to_string()),
        base_url: None,
    })
}

fn submit(registry: &mut Registry, config: &AppConfig, name: &str, now: u64) -> (String, String) {
    let mut form = UploadForm::new();
    form.set_password(Some("s3cret".to_string()));
    form.set_file(Some(name.to_string()), Some("text/plain".to_string()), b"hello".to_vec());
    let plan = begin_upload(config, form).unwrap();
    let token = plan.token.clone();
    let location = plan.location.clone();
    let response = complete_upload(registry, config, plan, now).unwrap();
    assert_eq!(response.url, format!("http://localhost:8080/d/{}", token));
    assert_eq!(response.expires_in_minutes, 1);
    assert_eq!(response.remaining_downloads, 2);
    (token, location)
}

#[test]
fn file_is_served_twice_and_then_gone() {
    let config = one_minute_two_downloads();
    let mut registry = Registry::new();
    let (token, location) = submit(&mut registry, &config, "a.txt", 1_000);
    assert!(token.ends_with(".txt"));

    match download(&mut registry, &token, 2_000) {
        Download::Serve { location: place, delete_after, headers } => {
            assert_eq!(place, location);
            assert!(!delete_after);
            assert_eq!(headers.content_disposition, Some("attachment; filename=\"a.txt\"".to_string()));
            assert_eq!(headers.content_type, Some("text/plain".to_string()));
        }
        other => panic!("first download: {:?}", other),
    }
    match download(&mut registry, &token, 3_000) {
        Download::Serve { location: place, delete_after, .. } => {
            assert_eq!(place, location);
            assert!(delete_after);
        }
        other => panic!("second download: {:?}", other),
    }
    assert_eq!(download(&mut registry, &token, 4_000), Download::NotFound);
    assert!(registry.sweep_expired(1_000 + 10 * MINUTE).is_empty());
}

#[test]
fn file_left_alone_is_swept_after_a_minute() {
    let config = one_minute_two_downloads();
    let mut registry = Registry::new();
    let (token, location) = submit(&mut registry, &config, "b.txt", 1_000);

    assert!(registry.sweep_expired(1_000 + MINUTE - 1).is_empty());
    assert!(registry.contains(&token));
    assert_eq!(registry.sweep_expired(1_000 + MINUTE), vec![(token.clone(), location)]);
    assert_eq!(download(&mut registry, &token, 1_000 + MINUTE + 1), Download::NotFound);
    assert_eq!(registry.len(), 0);
}

#[test]
fn file_asked_for_after_a_minute_is_not_found() {
    let config = one_minute_two_downloads();
    let mut registry = Registry::new();
    let (token, location) = submit(&mut registry, &config, "b.txt", 1_000);

    assert_eq!(
        download(&mut registry, &token, 1_001 + MINUTE),
        Download::Expired { location }
    );
    assert_eq!(download(&mut registry, &token, 1_001 + MINUTE), Download::NotFound);
    assert!(registry.sweep_expired(1_001 + 2 * MINUTE).is_empty());
}

#[test]
fn refused_upload_leaves_no_entry() {
    let config = one_minute_two_downloads();
    let mut registry = Registry::new();
    for password in [None, Some("wrong"), Some("")] {
        let mut form = UploadForm::new();
        form.set_password(password.map(|p| p.to_string()));
        form.set_file(Some("a.txt".to_string()), None, vec![1]);
        assert!(begin_upload(&config, form).is_err());
    }
    assert_eq!(registry.len(), 0);
    assert!(registry.sweep_expired(u64::MAX).is_empty());
}
