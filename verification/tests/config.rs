use corerunner::config::{
    config_path, config_text, loaded, needs_migration, saved, serialized, DEFAULT_CONFIG_TEXT,
    LEGACY_CONFIG_FILE,
};
use corerunner::descriptor::{AppConfig, Game};
use corerunner::error::{Error, ErrorKind};

#[test]
fn configuration_lives_below_the_home_directory() {
    let location = config_path("/home/u");
    assert_eq!(location.dir, "/home/u/.config/corerunner");
    assert_eq!(location.file, "/home/u/.config/corerunner/config.json");
    assert_eq!(LEGACY_CONFIG_FILE, "launcher_config.json");
}

#[test]
fn migration_is_due_only_from_an_existing_old_file_to_a_missing_new_one() {
    assert!(needs_migration(true, false));
    assert!(!needs_migration(true, true));
    assert!(!needs_migration(false, false));
    assert!(!needs_migration(false, true));
}

#[test]
fn stored_text_is_read_as_it_is() {
    assert_eq!(config_text(Some("{broken".to_string())), "{broken");
    assert_eq!(config_text(Some(String::new())), "");
}

#[test]
fn missing_file_yields_the_empty_configuration() {
    let text = config_text(None);
    assert_eq!(text, DEFAULT_CONFIG_TEXT);
    assert_eq!(text, "{\"proton_root\":\"\",\"games\":[]}");
    let parsed: serde_json::Value = serde_json::from_str(&text).unwrap();
    let empty = AppConfig::empty();
    assert_eq!(parsed["proton_root"], serde_json::Value::String(empty.proton_root.clone()));
    assert_eq!(parsed["games"], serde_json::Value::Array(vec![]));
    assert_eq!(parsed.as_object().unwrap().len(), 2);
    assert_eq!(empty.proton_root, "");
    assert!(empty.games.is_empty());
    assert_eq!(AppConfig::default(), empty);
}

fn sample_config() -> AppConfig {
    AppConfig {
        proton_root: "/opt/proton".to_string(),
        games: vec![Game {
            id: 9,
            name: "Hades".to_string(),
            proton_path: "/opt/proton/v/proton".to_string(),
            exe_path: "/g/hades.exe".to_string(),
            prefix_path: "/p/hades".to_string(),
            use_ace: true,
            use_ntsync: false,
            use_antilag: true,
            custom_env: "A=1".to_string(),
            launch_args: "-x".to_string(),
        }],
    }
}

#[test]
fn record_that_was_read_is_handed_on() {
    assert_eq!(loaded(Ok(sample_config()), "/c/config.json"), Ok(sample_config()));
    assert_eq!(loaded(Ok(AppConfig::empty()), ""), Ok(AppConfig::empty()));
}

#[test]
fn corrupt_file_is_reported_with_reason_and_place() {
    let err = loaded(Err("EOF while parsing".to_string()), "/c/config.json").unwrap_err();
    assert_eq!(
        err,
        Error::Corrupt {
            reason: "EOF while parsing".to_string(),
            location: "/c/config.json".to_string(),
        }
    );
    assert_eq!(err.kind(), ErrorKind::Config);
    assert_eq!(
        err.message(),
        "Config corrupt: EOF while parsing. Reset dengan hapus /c/config.json"
    );
}

#[test]
fn serialization_failure_is_a_config_error() {
    assert_eq!(serialized(Ok("{}".to_string())), Ok("{}".to_string()));
    let err = serialized(Err("bad key".to_string())).unwrap_err();
    assert_eq!(err, Error::Serialize { reason: "bad key".to_string() });
    assert_eq!(err.message(), "Gagal serialize config: bad key");
}

#[test]
fn write_failure_is_a_config_error() {
    assert_eq!(saved(Ok(())), Ok(()));
    let err = saved(Err("read-only file system".to_string())).unwrap_err();
    assert_eq!(err, Error::Save { reason: "read-only file system".to_string() });
    assert_eq!(err.kind(), ErrorKind::Config);
    assert_eq!(err.message(), "Gagal simpan config: read-only file system");
}
