use newtemp::config::{AppConfig, Settings, NANOS_PER_SEC};

fn no_settings() -> Settings {
    Settings {
        address: None,
        storage_dir: None,
        default_ttl_mins: None,
        cleanup_interval_mins: None,
        max_downloads: None,
        upload_page_enabled: None,
        upload_password: None,
        use_filename_suffix: None,
        base_url: None,
    }
}

fn text(s: &str) -> Option<String> {
    Some(s.to_string())
}

#[test]
fn defaults_apply_where_nothing_is_set() {
    let config = AppConfig::from_settings(no_settings());
    assert_eq!(
        config,
        AppConfig {
            address: "0.0.0.0:8080".to_string(),
            storage_dir: "data".to_string(),
            ttl_secs: 3600,
            cleanup_interval_secs: 60,
            max_downloads: 3,
            upload_page_enabled: false,
            upload_password: String::new(),
            use_filename_suffix: false,
            base_url: "http://localhost:8080".to_string(),
        }
    );
}

#[test]
fn settings_are_taken_over() {
    let config = AppConfig::from_settings(Settings {
        address: text("127.0.0.1:9000"),
        storage_dir: text("/var/drop"),
        default_ttl_mins: text("1"),
        cleanup_interval_mins: text("5"),
        max_downloads: text("2"),
        upload_page_enabled: text("true"),
        upload_password: text("hunter2"),
        use_filename_suffix: text("true"),
        base_url: text("https://drop.example"),
    });
    assert_eq!(
        config,
        AppConfig {
            address: "127.0.0.1:9000".to_string(),
            storage_dir: "/var/drop".to_string(),
            ttl_secs: 60,
            cleanup_interval_secs: 300,
            max_downloads: 2,
            upload_page_enabled: true,
            upload_password: "hunter2".to_string(),
            use_filename_suffix: true,
            base_url: "https://drop.example".to_string(),
        }
    );
}

#[test]
fn unreadable_numbers_fall_back() {
    let mut settings = no_settings();
    settings.default_ttl_mins = text("soon");
    settings.cleanup_interval_mins = text("-1");
    settings.max_downloads = text("4294967296");
    let config = AppConfig::from_settings(settings);
    assert_eq!(config.ttl_secs, 3600);
    assert_eq!(config.cleanup_interval_secs, 60);
    assert_eq!(config.max_downloads, 3);

    let mut settings = no_settings();
    settings.default_ttl_mins = text("");
    settings.cleanup_interval_mins = text("18446744073709551616");
    settings.max_downloads = text(" 7");
    let config = AppConfig::from_settings(settings);
    assert_eq!(config.ttl_secs, 3600);
    assert_eq!(config.cleanup_interval_secs, 60);
    assert_eq!(config.max_downloads, 3);
}

#[test]
fn minutes_become_seconds_and_stop_at_the_top() {
    let mut settings = no_settings();
    settings.default_ttl_mins = text("0");
    settings.cleanup_interval_mins = text("307445734561825860");
    let config = AppConfig::from_settings(settings);
    assert_eq!(config.ttl_secs, 0);
    assert_eq!(config.cleanup_interval_secs, 18446744073709551600);

    let mut settings = no_settings();
    settings.default_ttl_mins = text("307445734561825861");
    settings.cleanup_interval_mins = text("18446744073709551615");
    let config = AppConfig::from_settings(settings);
    assert_eq!(config.ttl_secs, u64::MAX);
    assert_eq!(config.cleanup_interval_secs, u64::MAX);
}

#[test]
fn max_downloads_may_be_zero_or_signed_plus() {
    let mut settings = no_settings();
    settings.max_downloads = text("0");
    assert_eq!(AppConfig::from_settings(settings).max_downloads, 0);
    let mut settings = no_settings();
    settings.max_downloads = text("+12");
    assert_eq!(AppConfig::from_settings(settings).max_downloads, 12);
}

#[test]
fn only_true_switches_on() {
    for (value, on) in [("true", true), ("false", false), ("1", false), ("TRUE", false), ("", false), ("true ", false), ("yes", false)] {
        let mut settings = no_settings();
        settings.upload_page_enabled = text(value);
        settings.use_filename_suffix = text(value);
        let config = AppConfig::from_settings(settings);
        assert_eq!(config.upload_page_enabled, on, "{:?}", value);
        assert_eq!(config.use_filename_suffix, on, "{:?}", value);
    }
}

#[test]
fn empty_texts_are_kept() {
    let mut settings = no_settings();
    settings.address = text("");
    settings.storage_dir = text("");
    settings.base_url = text("");
    settings.upload_password = text("");
    let config = AppConfig::from_settings(settings);
    assert_eq!(config.address, "");
    assert_eq!(config.storage_dir, "");
    assert_eq!(config.base_url, "");
    assert_eq!(config.upload_password, "");
}

#[test]
fn download_url_is_base_then_route_then_token() {
    let config = AppConfig::from_settings(no_settings());
    assert_eq!(config.build_download_url("abc.txt"), "http://localhost:8080/d/abc.txt");
    let mut settings = no_settings();
    settings.base_url = text("https://drop.example/");
    let config = AppConfig::from_settings(settings);
    assert_eq!(config.build_download_url("x"), "https://drop.example//d/x");
    assert_eq!(config.build_download_url(""), "https://drop.example//d/");
}

#[test]
fn a_second_has_a_billion_nanoseconds() {
    assert_eq!(NANOS_PER_SEC, 1_000_000_000);
}

#[test]
fn sweeper_never_waits_for_no_time() {
    let mut settings = no_settings();
    settings.cleanup_interval_mins = text("0");
    let config = AppConfig::from_settings(settings);
    assert_eq!(config.cleanup_interval_secs, 0);
    assert_eq!(config.sweep_period_secs(), 1);
    let config = AppConfig::from_settings(no_settings());
    assert_eq!(config.sweep_period_secs(), 60);
    let mut settings = no_settings();
    settings.cleanup_interval_mins = text("18446744073709551615");
    assert_eq!(AppConfig::from_settings(settings).sweep_period_secs(), u64::MAX);
}

#[test]
fn config_clone_is_equal() {
    let config = AppConfig::from_settings(no_settings());
    assert_eq!(config.clone(), config);
}
