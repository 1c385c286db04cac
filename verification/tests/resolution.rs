use raspkiosk::config::{ConfigError, KioskConfig, Notice, about_blank_url, default_start_url};
use raspkiosk::loader::{FileOutcome, Resolution, load_config, resolve_config};
use raspkiosk::paths::{Candidate, candidate_list, resolve_config_path};

fn contents(text: &str) -> FileOutcome {
    FileOutcome::Contents { path: String::from("kioskconfig.yaml"), text: String::from(text) }
}

#[test]
fn returns_default_when_missing_field() {
    let config = load_config(&contents("{}")).expect("config");
    assert_eq!(config.start_url, default_start_url());
}

#[test]
fn prefers_env_path() {
    let candidates = candidate_list(
        Some(Candidate { path: String::from("/tmp/env.yaml"), is_file: true }),
        Some(Candidate { path: String::from("/work/kioskconfig.yaml"), is_file: true }),
        None,
    );
    let path = resolve_config_path(&candidates).expect("config");
    assert_eq!(path, "/tmp/env.yaml");
    let config = load_config(&contents("start_url: https://example.com")).expect("config");
    assert_eq!(config.start_url, "https://example.com");
}

#[test]
fn returns_error_when_not_found() {
    let candidates = candidate_list(
        None,
        Some(Candidate { path: String::from("/empty/kioskconfig.yaml"), is_file: false }),
        Some(Candidate { path: String::from("/bin/kioskconfig.yaml"), is_file: false }),
    );
    let result = resolve_config_path(&candidates);
    assert!(matches!(result, Err(ConfigError::NotFound)));
}

#[test]
fn parse_valid_yaml() {
    let config = load_config(&contents("start_url: https://tauri.app\n")).expect("config");
    assert_eq!(config.start_url, "https://tauri.app");
}

#[test]
fn invalid_url_is_reported() {
    let bad_config = KioskConfig { start_url: String::from("not a url") };
    let resolution = resolve_config(&contents("start_url: not a url"), true);
    match resolution.outcome {
        Err(ConfigError::InvalidUrl(url)) => assert_eq!(url, bad_config.start_url),
        other => panic!("expected an invalid-url error, got {other:?}"),
    }
}

#[test]
fn override_wins_over_both_directories() {
    let candidates = candidate_list(
        Some(Candidate { path: String::from("/etc/kiosk.yaml"), is_file: true }),
        Some(Candidate { path: String::from("/work/kioskconfig.yaml"), is_file: true }),
        Some(Candidate { path: String::from("/bin/kioskconfig.yaml"), is_file: true }),
    );
    assert_eq!(resolve_config_path(&candidates).expect("path"), "/etc/kiosk.yaml");
}

#[test]
fn missing_override_falls_through_to_cwd() {
    let candidates = candidate_list(
        Some(Candidate { path: String::from("/etc/kiosk.yaml"), is_file: false }),
        Some(Candidate { path: String::from("/work/kioskconfig.yaml"), is_file: true }),
        Some(Candidate { path: String::from("/bin/kioskconfig.yaml"), is_file: true }),
    );
    assert_eq!(resolve_config_path(&candidates).expect("path"), "/work/kioskconfig.yaml");
}

#[test]
fn exe_dir_is_last_resort() {
    let candidates = candidate_list(
        None,
        Some(Candidate { path: String::from("/work/kioskconfig.yaml"), is_file: false }),
        Some(Candidate { path: String::from("/bin/kioskconfig.yaml"), is_file: true }),
    );
    assert_eq!(resolve_config_path(&candidates).expect("path"), "/bin/kioskconfig.yaml");
}

#[test]
fn no_candidates_at_all_is_not_found() {
    let candidates = candidate_list(None, None, None);
    assert!(matches!(resolve_config_path(&candidates), Err(ConfigError::NotFound)));
}

#[test]
fn empty_mapping_resolves_to_default() {
    let resolution = resolve_config(&contents("{}"), false);
    let config = resolution.outcome.expect("config");
    assert_eq!(config.start_url, "https://www.raspberrypi.com");
    assert!(resolution.notices.is_empty());
}

#[test]
fn empty_document_resolves_to_default() {
    let resolution = resolve_config(&contents(""), false);
    assert_eq!(resolution.outcome.expect("config").start_url, "https://www.raspberrypi.com");
}

#[test]
fn no_file_anywhere_resolves_to_default() {
    let resolution = resolve_config(&FileOutcome::Absent, false);
    assert_eq!(resolution.outcome.expect("config").start_url, "https://www.raspberrypi.com");
    assert_eq!(resolution.notices.len(), 1);
    assert!(matches!(resolution.notices[0], Notice::NoConfigFile));
}

#[test]
fn valid_configured_url_is_kept_unchanged() {
    let resolution = resolve_config(&contents("start_url: https://example.com"), false);
    assert_eq!(resolution.outcome.expect("config").start_url, "https://example.com");
    assert!(resolution.notices.is_empty());
}

#[test]
fn invalid_url_resolves_to_about_blank_with_diagnostic() {
    let resolution = resolve_config(&contents("start_url: not a url"), false);
    assert_eq!(resolution.outcome.expect("config").start_url, "about:blank");
    assert_eq!(resolution.notices.len(), 1);
    match &resolution.notices[0] {
        Notice::InvalidStartUrl { url, .. } => {
            assert_eq!(url, "not a url");
            assert!(resolution.notices[0].describe().contains("not a url"));
        }
        other => panic!("expected an invalid-url notice, got {other:?}"),
    }
}

#[test]
fn unreadable_file_resolves_to_default_with_diagnostic() {
    let file = FileOutcome::Unreadable {
        path: String::from("/work/kioskconfig.yaml"),
        error: String::from("permission denied"),
    };
    let resolution = resolve_config(&file, false);
    assert_eq!(resolution.outcome.expect("config").start_url, "https://www.raspberrypi.com");
    assert_eq!(resolution.notices.len(), 1);
    match &resolution.notices[0] {
        Notice::ReadFailed { path, error } => {
            assert_eq!(path, "/work/kioskconfig.yaml");
            assert_eq!(error, "permission denied");
            assert!(resolution.notices[0].describe().contains("/work/kioskconfig.yaml"));
        }
        other => panic!("expected a read-failure notice, got {other:?}"),
    }
}

#[test]
fn malformed_document_resolves_to_default_with_diagnostic() {
    let resolution = resolve_config(&contents("start_url: [unclosed"), false);
    assert_eq!(resolution.outcome.expect("config").start_url, "https://www.raspberrypi.com");
    assert_eq!(resolution.notices.len(), 1);
    assert!(matches!(&resolution.notices[0], Notice::ParseFailed { .. }));
}

#[test]
fn non_mapping_document_is_a_parse_failure() {
    let resolution = resolve_config(&contents("just a scalar"), false);
    assert_eq!(resolution.outcome.expect("config").start_url, "https://www.raspberrypi.com");
    assert_eq!(resolution.notices.len(), 1);
    match &resolution.notices[0] {
        Notice::ParseFailed { path, error } => {
            assert_eq!(path, "kioskconfig.yaml");
            assert_eq!(error, "the document is not a mapping");
        }
        other => panic!("expected a parse-failure notice, got {other:?}"),
    }
}

#[test]
fn unrecognized_keys_are_ignored() {
    let resolution =
        resolve_config(&contents("other: 1\nstart_url: https://example.com\nmore: x"), false);
    assert_eq!(resolution.outcome.expect("config").start_url, "https://example.com");
    assert!(resolution.notices.is_empty());
}

#[test]
fn strict_policy_still_tolerates_missing_and_unparsable_files() {
    let absent = resolve_config(&FileOutcome::Absent, true);
    assert_eq!(absent.outcome.expect("config").start_url, "https://www.raspberrypi.com");

    let malformed = resolve_config(&contents(": : :"), true);
    assert_eq!(malformed.outcome.expect("config").start_url, "https://www.raspberrypi.com");
}

#[test]
fn load_config_surfaces_each_error_kind() {
    assert!(matches!(load_config(&FileOutcome::Absent), Err(ConfigError::NotFound)));
    let unreadable = FileOutcome::Unreadable {
        path: String::from("kioskconfig.yaml"),
        error: String::from("permission denied"),
    };
    match load_config(&unreadable) {
        Err(ConfigError::Io(message)) => assert_eq!(message, "permission denied"),
        other => panic!("expected a read error, got {other:?}"),
    }
    assert!(matches!(load_config(&contents("[1, 2")), Err(ConfigError::Parse(_))));
}

#[test]
fn describe_names_the_error() {
    assert_eq!(ConfigError::NotFound.describe(), "unable to locate kioskconfig.yaml");
    assert_eq!(
        ConfigError::Io(String::from("gone")).describe(),
        "failed to read kiosk configuration: gone"
    );
    assert_eq!(
        ConfigError::InvalidUrl(String::from("not a url")).describe(),
        "invalid start_url 'not a url'"
    );
    assert_eq!(
        Notice::NoConfigFile.describe(),
        "kioskconfig.yaml not found; falling back to default URL https://www.raspberrypi.com"
    );
}

#[test]
fn compiled_in_addresses() {
    assert_eq!(default_start_url(), "https://www.raspberrypi.com");
    assert_eq!(about_blank_url(), "about:blank");
    assert_eq!(KioskConfig::default().start_url, "https://www.raspberrypi.com");
}

#[test]
fn resolution_is_debug_printable() {
    let resolution: Resolution = resolve_config(&FileOutcome::Absent, false);
    assert!(format!("{resolution:?}").contains("raspberrypi"));
}
