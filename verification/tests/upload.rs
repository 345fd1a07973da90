use newtemp::config::{AppConfig, Settings};
use newtemp::entry::Entry;
use newtemp::error::AppError;
use newtemp::registry::{Conflict, Registry};
use newtemp::upload::{
    begin_upload, check_upload, complete_upload, download_token, field_kind, is_admitted,
    plan_upload, FieldKind, FilePart, UploadForm, UploadPlan, UploadResponse,
};
use std::path::Path;

fn configured(page: bool, password: &str, suffix: bool) -> AppConfig {
    AppConfig::from_settings(Settings {
        address: None,
        storage_dir: Some("store".to_string()),
        default_ttl_mins: Some("2".to_string()),
        cleanup_interval_mins: None,
        max_downloads: Some("5".to_string()),
        upload_page_enabled: Some(page.to_string()),
        upload_password: Some(password.to_string()),
        use_filename_suffix: Some(suffix.to_string()),
        base_url: Some("https://drop.example".to_string()),
    })
}

fn form_with(password: Option<&str>, filename: Option<&str>) -> UploadForm {
    let mut form = UploadForm::new();
    form.set_password(password.map(|p| p.to_string()));
    if let Some(name) = filename {
        form.set_file(Some(name.to_string()), Some("text/plain".to_string()), vec![1, 2, 3]);
    }
    form
}

fn is_fresh_id(id: &str) -> bool {
    id.len() == 36
        && id.chars().enumerate().all(|(i, c)| {
            if i == 8 || i == 13 || i == 18 || i == 23 {
                c == '-'
            } else {
                c.is_ascii_digit() || ('a'..='f').contains(&c)
            }
        })
}

#[test]
fn fields_are_told_apart_by_name() {
    assert_eq!(field_kind(Some("password")), FieldKind::Password);
    assert_eq!(field_kind(Some("file")), FieldKind::File);
    assert_eq!(field_kind(Some("File")), FieldKind::Other);
    assert_eq!(field_kind(Some("passwords")), FieldKind::Other);
    assert_eq!(field_kind(Some("")), FieldKind::Other);
    assert_eq!(field_kind(None), FieldKind::Other);
}

#[test]
fn new_form_holds_nothing() {
    assert_eq!(UploadForm::new(), UploadForm { password: None, file: None });
}

#[test]
fn later_fields_replace_earlier_ones() {
    let mut form = UploadForm::new();
    form.set_password(Some("one".to_string()));
    form.set_file(Some("a.txt".to_string()), None, vec![1]);
    form.set_password(None);
    form.set_file(Some("b.txt".to_string()), Some("image/png".to_string()), vec![2, 3]);
    assert_eq!(
        form,
        UploadForm {
            password: None,
            file: Some(FilePart {
                filename: "b.txt".to_string(),
                content_type: Some("image/png".to_string()),
                data: vec![2, 3],
            }),
        }
    );
}

#[test]
fn file_without_a_name_is_called_upload_bin() {
    let mut form = UploadForm::new();
    form.set_file(None, None, Vec::new());
    assert_eq!(
        form.file,
        Some(FilePart { filename: "upload.bin".to_string(), content_type: None, data: Vec::new() })
    );
}

#[test]
fn secret_is_asked_only_while_the_page_is_on() {
    let open = configured(false, "s3cret", false);
    assert!(is_admitted(&open, &None));
    assert!(is_admitted(&open, &Some("wrong".to_string())));
    let closed = configured(true, "s3cret", false);
    assert!(is_admitted(&closed, &Some("s3cret".to_string())));
    assert!(!is_admitted(&closed, &Some("s3cret ".to_string())));
    assert!(!is_admitted(&closed, &Some("".to_string())));
    assert!(!is_admitted(&closed, &None));
}

#[test]
fn missing_secret_is_refused_even_where_the_secret_is_empty() {
    let config = configured(true, "", false);
    assert!(!is_admitted(&config, &None));
    assert!(is_admitted(&config, &Some(String::new())));
    assert!(!is_admitted(&config, &Some("x".to_string())));
    assert_eq!(check_upload(&config, form_with(None, Some("a.txt"))), Err(AppError::Unauthorized));
    assert_eq!(check_upload(&config, form_with(None, None)), Err(AppError::Unauthorized));
    assert_eq!(begin_upload(&config, form_with(None, Some("a.txt"))), Err(AppError::Unauthorized));
    assert_eq!(begin_upload(&config, form_with(None, None)), Err(AppError::Unauthorized));
    assert_eq!(begin_upload(&config, form_with(Some(""), None)), Err(AppError::NoFileProvided));
    assert!(begin_upload(&config, form_with(Some(""), Some("a.txt"))).is_ok());
}

#[test]
fn page_switched_on_alone_refuses_an_upload_without_secret() {
    let config = AppConfig::from_settings(Settings {
        address: None,
        storage_dir: None,
        default_ttl_mins: None,
        cleanup_interval_mins: None,
        max_downloads: None,
        upload_page_enabled: Some("true".to_string()),
        upload_password: None,
        use_filename_suffix: None,
        base_url: None,
    });
    let mut form = UploadForm::new();
    form.set_file(Some("a.txt".to_string()), None, vec![1]);
    assert_eq!(begin_upload(&config, form), Err(AppError::Unauthorized));
    let mut form = UploadForm::new();
    form.set_password(Some("secret".to_string()));
    form.set_password(None);
    form.set_file(Some("a.txt".to_string()), None, vec![1]);
    assert_eq!(begin_upload(&config, form), Err(AppError::Unauthorized));
}

#[test]
fn token_never_holds_a_slash() {
    let config = configured(false, "", true);
    for name in ["a/b.c/d", "x.tar/evil", "dir.d/file.tx/t", "../../etc/passwd.txt", "a.b/", "/"] {
        let plan = begin_upload(&config, form_with(None, Some(name))).unwrap();
        assert!(!plan.token.contains('/'), "{:?} gave {}", name, plan.token);
        assert_eq!(Path::new(&plan.location), Path::new("store").join(&plan.token));
    }
}

#[test]
fn wrong_secret_is_unauthorized_before_anything_else() {
    let config = configured(true, "s3cret", false);
    assert_eq!(check_upload(&config, form_with(Some("nope"), Some("a.txt"))), Err(AppError::Unauthorized));
    assert_eq!(check_upload(&config, form_with(None, Some("a.txt"))), Err(AppError::Unauthorized));
    assert_eq!(check_upload(&config, form_with(Some("nope"), None)), Err(AppError::Unauthorized));
    assert_eq!(begin_upload(&config, form_with(Some("nope"), Some("a.txt"))), Err(AppError::Unauthorized));
    assert_eq!(begin_upload(&config, form_with(None, None)), Err(AppError::Unauthorized));
}

#[test]
fn form_without_a_file_is_refused() {
    let config = configured(true, "s3cret", false);
    assert_eq!(check_upload(&config, form_with(Some("s3cret"), None)), Err(AppError::NoFileProvided));
    assert_eq!(begin_upload(&config, form_with(Some("s3cret"), None)), Err(AppError::NoFileProvided));
    let open = configured(false, "s3cret", false);
    assert_eq!(begin_upload(&open, form_with(None, None)), Err(AppError::NoFileProvided));
}

#[test]
fn admitted_form_gives_its_file() {
    let config = configured(true, "s3cret", false);
    assert_eq!(
        check_upload(&config, form_with(Some("s3cret"), Some("a.txt"))),
        Ok(FilePart {
            filename: "a.txt".to_string(),
            content_type: Some("text/plain".to_string()),
            data: vec![1, 2, 3],
        })
    );
}

#[test]
fn token_carries_the_extension_only_where_asked() {
    let ext = Some("txt".to_string());
    assert_eq!(download_token("id".to_string(), &ext, true), "id.txt");
    assert_eq!(download_token("id".to_string(), &ext, false), "id");
    assert_eq!(download_token("id".to_string(), &None, true), "id");
    assert_eq!(download_token("id".to_string(), &Some(String::new()), true), "id");
    assert_eq!(download_token("id".to_string(), &Some("tar.gz".to_string()), true), "id.tar.gz");
}

#[test]
fn plan_takes_over_the_file() {
    let file = FilePart { filename: "a.txt".to_string(), content_type: None, data: vec![9] };
    assert_eq!(
        plan_upload(file, "tok".to_string(), "store/tok".to_string()),
        UploadPlan {
            token: "tok".to_string(),
            location: "store/tok".to_string(),
            display_name: "a.txt".to_string(),
            content_type: None,
            payload: vec![9],
        }
    );
}

#[test]
fn upload_without_suffix_is_stored_under_a_fresh_identifier() {
    let config = configured(false, "", false);
    let plan = begin_upload(&config, form_with(None, Some("report.final.txt"))).unwrap();
    assert!(is_fresh_id(&plan.token), "{}", plan.token);
    assert_eq!(Path::new(&plan.location), Path::new("store").join(&plan.token));
    assert_ne!(plan.location, "store");
    assert_ne!(plan.location, plan.token);
    assert_eq!(plan.display_name, "report.final.txt");
    assert_eq!(plan.content_type, Some("text/plain".to_string()));
    assert_eq!(plan.payload, vec![1, 2, 3]);
}

#[test]
fn upload_with_suffix_ends_in_the_extension() {
    let config = configured(false, "", true);
    let plan = begin_upload(&config, form_with(None, Some("report.final.txt"))).unwrap();
    let (id, ext) = plan.token.split_at(36);
    assert!(is_fresh_id(id), "{}", plan.token);
    assert_eq!(ext, ".txt");
    assert_eq!(Path::new(&plan.location), Path::new("store").join(&plan.token));
}

#[test]
fn upload_of_a_file_without_extension_has_no_suffix() {
    let config = configured(false, "", true);
    for name in ["README", ".bashrc", "archive.", ""] {
        let plan = begin_upload(&config, form_with(None, Some(name))).unwrap();
        assert!(is_fresh_id(&plan.token), "{:?} gave {}", name, plan.token);
    }
}

#[test]
fn two_uploads_get_two_tokens() {
    let config = configured(false, "", true);
    let a = begin_upload(&config, form_with(None, Some("a.txt"))).unwrap();
    let b = begin_upload(&config, form_with(None, Some("a.txt"))).unwrap();
    assert_ne!(a.token, b.token);
}

#[test]
fn empty_and_large_payloads_pass_through_unchanged() {
    let config = configured(false, "", false);
    let mut form = UploadForm::new();
    form.set_file(Some("empty".to_string()), None, Vec::new());
    assert_eq!(begin_upload(&config, form).unwrap().payload, Vec::<u8>::new());
    let big: Vec<u8> = (0..3_000_000u32).map(|i| (i % 251) as u8).collect();
    let mut form = UploadForm::new();
    form.set_file(Some("big.bin".to_string()), None, big.clone());
    assert_eq!(begin_upload(&config, form).unwrap().payload, big);
}

#[test]
fn completed_upload_is_live_for_the_configured_time() {
    let config = configured(false, "", false);
    let mut registry = Registry::new();
    let plan = UploadPlan {
        token: "tok.txt".to_string(),
        location: "store/tok.txt".to_string(),
        display_name: "a.txt".to_string(),
        content_type: Some("text/plain".to_string()),
        payload: vec![1, 2, 3],
    };
    let response = complete_upload(&mut registry, &config, plan, 1_000);
    assert_eq!(
        response,
        Ok(UploadResponse {
            url: "https://drop.example/d/tok.txt".to_string(),
            expires_in_minutes: 2,
            remaining_downloads: 5,
        })
    );
    assert_eq!(
        registry.get("tok.txt"),
        Some(&Entry {
            id: "tok.txt".to_string(),
            location: "store/tok.txt".to_string(),
            display_name: "a.txt".to_string(),
            content_type: Some("text/plain".to_string()),
            expires_at: 120_000_001_000,
            remaining_downloads: 5,
        })
    );
}

#[test]
fn completed_upload_never_overflows_its_deadline() {
    let config = AppConfig::from_settings(Settings {
        address: None,
        storage_dir: None,
        default_ttl_mins: Some("18446744073709551615".to_string()),
        cleanup_interval_mins: None,
        max_downloads: None,
        upload_page_enabled: None,
        upload_password: None,
        use_filename_suffix: None,
        base_url: None,
    });
    let mut registry = Registry::new();
    let plan = UploadPlan {
        token: "t".to_string(),
        location: "data/t".to_string(),
        display_name: "t".to_string(),
        content_type: None,
        payload: Vec::new(),
    };
    let response = complete_upload(&mut registry, &config, plan, u64::MAX).unwrap();
    assert_eq!(response.expires_in_minutes, 307445734561825860);
    assert_eq!(
        registry.get("t").unwrap().expires_at,
        u64::MAX as u128 + u64::MAX as u128 * 1_000_000_000
    );
}

#[test]
fn completed_upload_with_a_live_token_is_a_conflict() {
    let config = configured(false, "", false);
    let mut registry = Registry::new();
    let plan = |name: &str| UploadPlan {
        token: "tok".to_string(),
        location: "store/tok".to_string(),
        display_name: name.to_string(),
        content_type: None,
        payload: Vec::new(),
    };
    assert!(complete_upload(&mut registry, &config, plan("first"), 0).is_ok());
    assert_eq!(complete_upload(&mut registry, &config, plan("second"), 0), Err(Conflict));
    assert_eq!(registry.len(), 1);
    assert_eq!(registry.get("tok").unwrap().display_name, "first");
}
