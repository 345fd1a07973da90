//! The service's settings: what the environment held, and what the service
//! makes of it.

use vstd::prelude::*;
use vstd::string::StringExecFns;
use crate::decimal::{number_up_to, parse_u32, parse_u64};
use crate::text::{join3, same_text};

verus! {

/// The settings as they were found, each one absent or as text.
#[derive(Debug, PartialEq, Eq)]
pub struct Settings {
    /// The address to listen on.
    pub address: Option<String>,
    /// The directory that holds the payloads.
    pub storage_dir: Option<String>,
    /// The lifetime of an upload, in minutes.
    pub default_ttl_mins: Option<String>,
    /// The time between two sweeps, in minutes.
    pub cleanup_interval_mins: Option<String>,
    /// The number of downloads an upload is good for.
    pub max_downloads: Option<String>,
    /// Whether the upload page is served: `true` switches it on.
    pub upload_page_enabled: Option<String>,
    /// The secret that uploads must carry while the upload page is served.
    pub upload_password: Option<String>,
    /// Whether a download token ends in the file's extension: `true` switches
    /// it on.
    pub use_filename_suffix: Option<String>,
    /// What download links begin with.
    pub base_url: Option<String>,
}

/// The settings the service runs with.
#[derive(Debug, PartialEq, Eq)]
pub struct AppConfig {
    /// The address to listen on, as text.
    pub address: String,
    /// The directory that holds the payloads.
    pub storage_dir: String,
    /// The lifetime of an upload, in seconds.
    pub ttl_secs: u64,
    /// The time between two sweeps, in seconds.
    pub cleanup_interval_secs: u64,
    /// The number of downloads an upload is good for.
    pub max_downloads: u32,
    /// Whether the upload page is served, and uploads must carry the secret.
    pub upload_page_enabled: bool,
    /// The secret that uploads must carry while the upload page is served.
    pub upload_password: String,
    /// Whether a download token ends in the file's extension.
    pub use_filename_suffix: bool,
    /// What download links begin with.
    pub base_url: String,
}

/// The number of nanoseconds in a second.
pub const NANOS_PER_SEC: u128 = 1_000_000_000;

/// The text of `setting`, or `fallback` where it is absent.
pub open spec fn text_or(setting: Option<String>, fallback: Seq<char>) -> Seq<char> {
    match setting {
        Some(t) => t@,
        None => fallback,
    }
}

/// `minutes` in seconds, held at the largest `u64` where that is exceeded.
pub open spec fn minutes_as_secs(minutes: nat) -> u64 {
    if minutes * 60 <= u64::MAX {
        (minutes * 60) as u64
    } else {
        u64::MAX
    }
}

/// The seconds that a setting in minutes stands for: `fallback` where the
/// setting is absent or is no number of at most 64 bits.
pub open spec fn secs_or(setting: Option<String>, fallback: u64) -> u64 {
    match setting {
        Some(t) => match number_up_to(t@, u64::MAX as nat) {
            Some(minutes) => minutes_as_secs(minutes),
            None => fallback,
        },
        None => fallback,
    }
}

/// The count that a setting stands for: `fallback` where the setting is
/// absent or is no number of at most 32 bits.
pub open spec fn count_or(setting: Option<String>, fallback: u32) -> u32 {
    match setting {
        Some(t) => match number_up_to(t@, u32::MAX as nat) {
            Some(n) => n as u32,
            None => fallback,
        },
        None => fallback,
    }
}

/// Whether a setting switches something on: it is present and reads `true`.
pub open spec fn switched_on(setting: Option<String>) -> bool {
    match setting {
        Some(t) => t@ == "true"@,
        None => false,
    }
}

/// The link under which the blob named `token` is downloaded.
pub open spec fn download_url(base_url: Seq<char>, token: Seq<char>) -> Seq<char> {
    base_url + "/d/"@ + token
}

fn owned_or(setting: Option<String>, fallback: &str) -> (text: String)
    ensures
        text@ == text_or(setting, fallback@),
{
    match setting {
        Some(t) => t,
        None => String::from_str(fallback),
    }
}

fn read_secs(setting: &Option<String>, fallback: u64) -> (secs: u64)
    ensures
        secs == secs_or(*setting, fallback),
{
    match setting {
        Some(t) => match parse_u64(t.as_str()) {
            Some(minutes) => match minutes.checked_mul(60) {
                Some(secs) => secs,
                None => u64::MAX,
            },
            None => fallback,
        },
        None => fallback,
    }
}

fn read_count(setting: &Option<String>, fallback: u32) -> (count: u32)
    ensures
        count == count_or(*setting, fallback),
{
    match setting {
        Some(t) => match parse_u32(t.as_str()) {
            Some(n) => n,
            None => fallback,
        },
        None => fallback,
    }
}

fn read_switch(setting: &Option<String>) -> (on: bool)
    ensures
        on == switched_on(*setting),
{
    match setting {
        Some(t) => same_text(t.as_str(), "true"),
        None => false,
    }
}

impl Clone for AppConfig {
    fn clone(&self) -> (copy: AppConfig)
        ensures
            copy == *self,
    {
        AppConfig {
            address: self.address.clone(),
            storage_dir: self.storage_dir.clone(),
            ttl_secs: self.ttl_secs,
            cleanup_interval_secs: self.cleanup_interval_secs,
            max_downloads: self.max_downloads,
            upload_page_enabled: self.upload_page_enabled,
            upload_password: self.upload_password.clone(),
            use_filename_suffix: self.use_filename_suffix,
            base_url: self.base_url.clone(),
        }
    }
}

impl AppConfig {
    /// The settings the service runs with, given what the environment held.
    ///
    /// An absent setting takes its default, and so does a number that cannot
    /// be read. The defaults: listen on `0.0.0.0:8080`, store under `data`,
    /// keep an upload for 60 minutes and 3 downloads, sweep every minute, no
    /// upload page, an empty secret, no extension on tokens, links that begin
    /// with `http://localhost:8080`.
    pub fn from_settings(settings: Settings) -> (config: AppConfig)
        ensures
            config.address@ == text_or(settings.address, "0.0.0.0:8080"@),
            config.storage_dir@ == text_or(settings.storage_dir, "data"@),
            config.ttl_secs == secs_or(settings.default_ttl_mins, 3600),
            config.cleanup_interval_secs == secs_or(settings.cleanup_interval_mins, 60),
            config.max_downloads == count_or(settings.max_downloads, 3),
            config.upload_page_enabled == switched_on(settings.upload_page_enabled),
            config.upload_password@ == text_or(settings.upload_password, ""@),
            config.use_filename_suffix == switched_on(settings.use_filename_suffix),
            config.base_url@ == text_or(settings.base_url, "http://localhost:8080"@),
    {
        let ttl_secs: u64 = read_secs(&settings.default_ttl_mins, 3600);
        let cleanup_interval_secs: u64 = read_secs(&settings.cleanup_interval_mins, 60);
        let max_downloads: u32 = read_count(&settings.max_downloads, 3);
        let upload_page_enabled = read_switch(&settings.upload_page_enabled);
        let use_filename_suffix = read_switch(&settings.use_filename_suffix);
        AppConfig {
            address: owned_or(settings.address, "0.0.0.0:8080"),
            storage_dir: owned_or(settings.storage_dir, "data"),
            ttl_secs,
            cleanup_interval_secs,
            max_downloads,
            upload_page_enabled,
            upload_password: owned_or(settings.upload_password, ""),
            use_filename_suffix,
            base_url: owned_or(settings.base_url, "http://localhost:8080"),
        }
    }

    /// The lifetime of an upload, in nanoseconds.
    pub open spec fn ttl_nanos(&self) -> u128 {
        (self.ttl_secs * NANOS_PER_SEC) as u128
    }

    /// The time between two sweeps, in seconds, as the sweeper takes it: the
    /// configured time, but a second where none is configured, so that there
    /// is always a next sweep.
    pub open spec fn spec_sweep_period_secs(&self) -> u64 {
        if self.cleanup_interval_secs == 0 {
            1
        } else {
            self.cleanup_interval_secs
        }
    }

    /// The time between two sweeps, in seconds, as the sweeper takes it.
    #[verifier::when_used_as_spec(spec_sweep_period_secs)]
    pub fn sweep_period_secs(&self) -> (secs: u64)
        ensures
            secs == self.spec_sweep_period_secs(),
    {
        if self.cleanup_interval_secs == 0 {
            1
        } else {
            self.cleanup_interval_secs
        }
    }

    /// The lifetime of an upload, in whole minutes.
    pub open spec fn ttl_minutes(&self) -> u64 {
        self.ttl_secs / 60
    }

    /// The link under which the blob named `token` is downloaded.
    pub fn build_download_url(&self, token: &str) -> (url: String)
        ensures
            url@ == download_url(self.base_url@, token@),
    {
        join3(self.base_url.as_str(), "/d/", token)
    }
}

} // verus!
