//! Configuration directory, learned rules and configuration files.
use flow_wm::common::FlowError;
use flow_wm::config::dirs::{
    config_dir, dir_source, history_rules_path, history_rules_path_in, home_from_appdata,
    log_file_path_in, logs_dir, logs_dir_in, resolve_config_dir, user_app_config_path,
    user_app_config_path_in, user_rules_path, user_rules_path_in, DirEnv, DirSource,
    CONFIG_DIR_ENV,
};
use flow_wm::config::history::{
    HistoryRead, HistoryStore, SaveEvent, SaveStep, HISTORY_FILE_HEADER,
};
use flow_wm::config::lifecycle::{
    ahk_template_path, check_config, init_config_dir, load_app_config, load_default_rules,
    load_rules_config, read_result, write_ahk_template, writes_default_file, ConfigLoadError,
    FileCheck, FileRead, InitContents, InitRun, InitStep,
};
use flow_wm::config::{
    FlowConfig, MatchRule, Padding, WindowAction, WindowRule, WindowRulesConfig,
};
use std::path::{Path, PathBuf};

fn env() -> DirEnv {
    DirEnv {
        flow_config_dir: None,
        userprofile: Some("C:\\Users\\alice".to_string()),
        appdata: None,
    }
}

#[test]
fn user_rules_path_ends_with_flow_rules_toml() {
    let path = PathBuf::from(user_rules_path(&env()));
    assert!(path.ends_with("flow-rules.toml"), "path was: {path:?}");
}

#[test]
fn user_rules_path_is_under_flow_subdir() {
    let path = PathBuf::from(user_rules_path(&env()));
    assert!(
        path.to_string_lossy().contains("flow"),
        "path should contain 'flow' subdir: {path:?}"
    );
}

#[test]
fn user_rules_path_parent_is_flow() {
    let path = PathBuf::from(user_rules_path(&env()));
    assert_eq!(
        path.parent().and_then(|p| p.file_name()).and_then(|n| n.to_str()),
        Some("flow"),
        "parent dir should be 'flow': {path:?}"
    );
}

#[test]
fn user_rules_path_returns_pathbuf() {
    let path: PathBuf = PathBuf::from(user_rules_path(&env()));
    assert!(!path.as_os_str().is_empty(), "path should not be empty");
}

#[test]
fn user_rules_path_filename_is_flow_rules_toml() {
    let path = PathBuf::from(user_rules_path(&env()));
    assert_eq!(
        path.file_name().and_then(|n| n.to_str()),
        Some("flow-rules.toml"),
        "filename should be flow-rules.toml: {path:?}"
    );
}

#[test]
fn user_app_config_path_returns_flow_toml() {
    let path = PathBuf::from(user_app_config_path(&env()));
    assert!(path.ends_with("flow.toml"), "path was: {path:?}");
}

#[test]
fn user_rules_path_in_returns_correct_path() {
    let dir = Path::new("C:\\test\\config");
    let path = PathBuf::from(user_rules_path_in("C:\\test\\config"));
    assert_eq!(path, dir.join("flow-rules.toml"));
}

#[test]
fn user_app_config_path_in_returns_correct_path() {
    let dir = Path::new("C:\\test\\config");
    let path = PathBuf::from(user_app_config_path_in("C:\\test\\config"));
    assert_eq!(path, dir.join("flow.toml"));
}

#[test]
fn logs_dir_in_appends_logs_subdir() {
    let dir = Path::new("C:\\test\\config");
    let logs = PathBuf::from(logs_dir_in("C:\\test\\config"));
    assert_eq!(logs, dir.join("logs"));
}

#[test]
fn logs_dir_ends_with_logs() {
    let logs = PathBuf::from(logs_dir(&env()));
    assert!(logs.ends_with("logs"), "logs dir was: {logs:?}");
}

#[test]
fn log_file_path_in_produces_dated_filename() {
    let path = PathBuf::from(log_file_path_in("C:\\test\\config", "2026-06-17"));
    assert!(path.ends_with("flowd-2026-06-17.log"), "path was: {path:?}");
}

#[test]
fn log_file_path_in_nests_under_logs() {
    let path = PathBuf::from(log_file_path_in("C:\\test\\config", "2026-06-17"));
    assert_eq!(
        path.parent(),
        Some(PathBuf::from(logs_dir_in("C:\\test\\config")).as_path()),
        "log file should be directly under the logs dir"
    );
}

#[test]
fn log_file_path_in_distinguishes_dates() {
    let a = PathBuf::from(log_file_path_in("C:\\test\\config", "2026-06-17"));
    let b = PathBuf::from(log_file_path_in("C:\\test\\config", "2026-06-18"));
    assert_ne!(a, b, "different dates must produce different paths");
}

#[test]
fn history_rules_path_ends_with_history_flow_rules_toml() {
    let path = PathBuf::from(history_rules_path(&env()));
    assert!(
        path.ends_with("history-flow-rules.toml"),
        "path was: {path:?}"
    );
}

#[test]
fn history_rules_path_in_returns_correct_path() {
    let dir = Path::new("C:\\test\\config");
    let path = PathBuf::from(history_rules_path_in("C:\\test\\config"));
    assert_eq!(path, dir.join("history-flow-rules.toml"));
}

#[test]
fn resolve_config_dir_with_override_uses_override() {
    let custom = "C:\\tmp\\my-custom-config";
    let dir = resolve_config_dir(Some(custom), &env());
    assert_eq!(dir, custom, "CLI override should be used directly");
    assert_eq!(dir_source(Some(custom), &env()), DirSource::CliFlag);
}

#[test]
fn resolve_config_dir_without_override_uses_env() {
    let expected = "C:\\tmp\\flow";
    let env = DirEnv {
        flow_config_dir: Some(expected.to_string()),
        ..env()
    };
    let dir = resolve_config_dir(None, &env);
    assert_eq!(dir, expected, "env var should override default");
    assert_eq!(dir_source(None, &env), DirSource::EnvVar);
    assert_eq!(CONFIG_DIR_ENV, "FLOW_CONFIG_DIR");
}

#[test]
fn resolve_config_dir_without_anything_uses_default() {
    let dir = resolve_config_dir(None, &env());
    assert!(
        dir.contains(".config") && dir.ends_with("flow"),
        "default path should be …/.config/flow: {dir:?}"
    );
    assert_eq!(
        PathBuf::from(dir),
        Path::new("C:\\Users\\alice").join(".config").join("flow")
    );
    assert_eq!(
        dir_source(None, &env()).label(),
        "default (USERPROFILE/.config/flow)"
    );
}

#[test]
fn resolve_config_dir_cli_override_beats_env_var() {
    let env_val = "C:\\env\\flow";
    let cli_path = "C:\\cli\\flow";
    let env = DirEnv {
        flow_config_dir: Some(env_val.to_string()),
        ..env()
    };
    let dir = resolve_config_dir(Some(cli_path), &env);
    assert_eq!(
        dir, cli_path,
        "CLI override must win over FLOW_CONFIG_DIR env var"
    );
    assert_ne!(
        dir, env_val,
        "env var path must not be returned when CLI override is given"
    );
}

#[test]
fn config_dir_falls_back_to_appdata_then_to_the_current_directory() {
    let appdata = Path::new("home").join("bob").join("AppData").join("Roaming");
    let env = DirEnv {
        flow_config_dir: None,
        userprofile: None,
        appdata: Some(appdata.to_string_lossy().into_owned()),
    };
    assert_eq!(
        PathBuf::from(config_dir(&env)),
        Path::new("home").join("bob").join(".config").join("flow")
    );
    let short = DirEnv {
        appdata: Some(String::new()),
        ..env
    };
    assert_eq!(
        PathBuf::from(config_dir(&short)),
        Path::new(".config").join("flow")
    );
    let bare = DirEnv {
        appdata: None,
        ..short
    };
    assert_eq!(PathBuf::from(config_dir(&bare)), Path::new(".").join("flow"));
    assert_eq!(home_from_appdata("a", None), "a");
    assert_eq!(home_from_appdata("a", Some("b".to_string())), "b");
}

#[test]
fn record_new_app_pushes_rule() {
    let mut store = HistoryStore::default();
    let changed = store.record(WindowAction::Tile, "chrome.exe", Some("Chrome_WidgetWin_1"));
    assert!(changed);
    assert_eq!(store.len(), 1);
    assert_eq!(store.rules()[0].match_.exe.as_deref(), Some("chrome.exe"));
    assert_eq!(
        store.rules()[0].match_.class.as_deref(),
        Some("Chrome_WidgetWin_1")
    );
    assert_eq!(store.rules()[0].action, WindowAction::Tile);
}

#[test]
fn record_existing_app_updates_action() {
    let mut store = HistoryStore::default();
    store.record(WindowAction::Tile, "chrome.exe", Some("Chrome_WidgetWin_1"));
    let changed = store.record(
        WindowAction::Float,
        "chrome.exe",
        Some("Chrome_WidgetWin_1"),
    );
    assert!(changed);
    assert_eq!(store.len(), 1, "should still be exactly one rule (dedup)");
    assert_eq!(store.rules()[0].action, WindowAction::Float);
}

#[test]
fn record_exe_only_when_class_none() {
    let mut store = HistoryStore::default();
    store.record(WindowAction::Float, "notepad.exe", None);
    assert_eq!(store.len(), 1);
    assert!(store.rules()[0].match_.class.is_none());
    assert_eq!(store.rules()[0].match_.exe.as_deref(), Some("notepad.exe"));
}

#[test]
fn record_no_change_returns_false() {
    let mut store = HistoryStore::default();
    let first = store.record(WindowAction::Tile, "code.exe", Some("Electron"));
    assert!(first);
    let second = store.record(WindowAction::Tile, "code.exe", Some("Electron"));
    assert!(!second, "same action should not report a change");
    assert_eq!(store.len(), 1);
}

#[test]
fn record_empty_class_treated_as_none() {
    let mut store = HistoryStore::default();
    store.record(WindowAction::Float, "app.exe", Some(""));
    assert!(store.rules()[0].match_.class.is_none());
    let changed = store.record(WindowAction::Tile, "app.exe", None);
    assert!(changed);
    assert_eq!(store.len(), 1);
}

#[test]
fn identity_distinguishes_different_classes_same_exe() {
    let mut store = HistoryStore::default();
    store.record(WindowAction::Tile, "code.exe", Some("Electron"));
    store.record(WindowAction::Float, "code.exe", Some("Chrome_WidgetWin_1"));
    assert_eq!(store.len(), 2, "different classes should be separate rules");
}

fn rule(exe: &str, class: Option<&str>, action: WindowAction) -> WindowRule {
    WindowRule {
        match_: MatchRule {
            exe: Some(exe.to_string()),
            class: class.map(|c| c.to_string()),
            ..MatchRule::default()
        },
        action,
        initial_width_px: None,
        override_persist: false,
    }
}

#[test]
fn load_missing_file_returns_empty() {
    let store = HistoryStore::load(HistoryRead::Missing);
    assert!(store.is_empty());
    assert_eq!(store.len(), 0);
}

#[test]
fn load_corrupt_file_returns_empty() {
    assert!(HistoryStore::load(HistoryRead::Corrupt).is_empty());
    assert!(HistoryStore::load(HistoryRead::Unreadable).is_empty());
}

#[test]
fn load_valid_file_populates_store() {
    let store = HistoryStore::load(HistoryRead::Rules(WindowRulesConfig {
        default_action: WindowAction::Float,
        rules: vec![rule("chrome.exe", Some("Chrome_WidgetWin_1"), WindowAction::Tile)],
    }));
    assert_eq!(store.len(), 1);
    assert_eq!(store.rules()[0].action, WindowAction::Tile);
}

#[test]
fn save_includes_human_readable_header() {
    let mut store = HistoryStore::default();
    store.record(WindowAction::Tile, "app.exe", None);
    let contents = HistoryStore::file_content("default_action = \"float\"\n");
    assert!(
        contents.contains("history-stm-rules.toml"),
        "header should contain the file name"
    );
    assert!(
        contents.contains("Priority chain"),
        "header should explain the priority chain"
    );
    assert!(contents.ends_with("> default_action.\ndefault_action = \"float\"\n"));
    assert!(HISTORY_FILE_HEADER.lines().all(|l| l.starts_with('#')));
    assert_eq!(store.config().rules.len(), 1);
}

#[test]
fn saving_goes_through_a_temporary_file() {
    let no = || Err("no".to_string());
    match HistoryStore::save(SaveEvent::Serialized(Ok("x".to_string()))) {
        SaveStep::WriteTemp(text) => assert_eq!(text, format!("{HISTORY_FILE_HEADER}x")),
        other => panic!("{other:?}"),
    }
    assert_eq!(
        HistoryStore::save(SaveEvent::Serialized(Err("no".to_string()))),
        SaveStep::Fail("no".to_string())
    );
    assert_eq!(HistoryStore::save(SaveEvent::TempWritten(Ok(()))), SaveStep::Rename);
    assert_eq!(
        HistoryStore::save(SaveEvent::TempWritten(no())),
        SaveStep::Fail("no".to_string())
    );
    assert_eq!(HistoryStore::save(SaveEvent::Renamed(Ok(()))), SaveStep::Done);
    assert_eq!(
        HistoryStore::save(SaveEvent::Renamed(no())),
        SaveStep::RemoveTemp("no".to_string())
    );
}

#[test]
fn record_updates_the_first_match_and_keeps_everything_else() {
    let mut hand_edited = rule("app.exe", None, WindowAction::Float);
    hand_edited.initial_width_px = Some(900);
    let mut store = HistoryStore::load(HistoryRead::Rules(WindowRulesConfig {
        default_action: WindowAction::Ignore,
        rules: vec![
            rule("other.exe", None, WindowAction::Ignore),
            hand_edited,
            rule("app.exe", None, WindowAction::Ignore),
        ],
    }));
    assert!(store.record(WindowAction::Tile, "app.exe", None));
    assert_eq!(store.len(), 3);
    assert_eq!(store.rules()[0], rule("other.exe", None, WindowAction::Ignore));
    assert_eq!(store.rules()[1].action, WindowAction::Tile);
    assert_eq!(store.rules()[1].initial_width_px, Some(900));
    assert_eq!(store.rules()[2].action, WindowAction::Ignore);
    assert!(!store.record(WindowAction::Tile, "app.exe", Some("")));
    assert!(store.record(WindowAction::Tile, "APP.EXE", None));
    assert_eq!(store.len(), 4);
    assert_eq!(store.config().default_action, WindowAction::Ignore);
}

#[test]
fn load_app_config_valid_file_parses_correctly() {
    let parsed = FlowConfig {
        columns_per_screen: 3,
        ..FlowConfig::default()
    };
    let loaded = load_app_config("flow.toml", Ok(parsed.clone())).unwrap();
    assert_eq!(loaded, parsed);
}

#[test]
fn load_app_config_missing_file_returns_default() {
    let path = "C:\\__nonexistent_test_path__\\flow.toml";
    let config = load_app_config(path, Err(ConfigLoadError::Missing)).unwrap();
    assert_eq!(config, FlowConfig::default());
    assert_eq!(config.min_column_width_px, 640);
    assert_eq!(config.padding.window_gap, 16);
    assert_eq!(config.padding.up, 0);
    assert_eq!(config.padding.down, 0);
}

#[test]
fn load_app_config_parse_error_message_includes_path() {
    let path = "C:\\cfg\\flow.toml";
    let err = load_app_config(path, Err(ConfigLoadError::Parse("bad key".to_string())))
        .unwrap_err()
        .to_string();
    assert_eq!(
        err,
        "config error: failed to load config C:\\cfg\\flow.toml: parse error: bad key"
    );
}

fn malformed<T>() -> Result<T, ConfigLoadError> {
    let bad = "this is = not = valid = toml = [[[[";
    let e = toml::from_str::<toml::Table>(bad).unwrap_err();
    Err(ConfigLoadError::Parse(e.to_string()))
}

#[test]
fn load_app_config_malformed_toml_returns_error() {
    let result = load_app_config("flow.toml", malformed());
    assert!(
        result.is_err(),
        "malformed flow.toml should propagate an error"
    );
    let err = result.unwrap_err().to_string();
    assert!(
        err.contains("failed to load config"),
        "error should describe the failure: {err}"
    );
}

#[test]
fn load_rules_config_malformed_toml_returns_error() {
    let result = load_rules_config("flow-rules.toml", malformed());
    assert!(
        result.is_err(),
        "malformed flow-rules.toml should propagate an error"
    );
    let err = result.unwrap_err().to_string();
    assert!(
        err.contains("failed to load config"),
        "error should describe the failure: {err}"
    );
}

#[test]
fn load_default_rules_resilient_fallback_on_bad_input() {
    let bad_toml = "this is = not = valid = toml = [[[[[";
    let result = toml::from_str::<toml::Table>(bad_toml);
    assert!(result.is_err(), "malformed TOML should fail to parse");
    let fallback = load_default_rules(Err(result.unwrap_err().to_string()));
    assert_eq!(fallback.default_action, WindowAction::Float);
    assert!(fallback.rules.is_empty(), "fallback should have no rules");
}

#[test]
fn load_app_config_directory_path_propagates_io_error() {
    let err = load_app_config("C:\\cfg", read_failed()).unwrap_err();
    assert_eq!(
        err,
        FlowError::Config("failed to load config C:\\cfg: I/O error: denied".to_string())
    );
}

fn read_failed<T>() -> Result<T, ConfigLoadError> {
    match read_result(FileRead::Failed("denied".to_string())) {
        Ok(_) => unreachable!(),
        Err(e) => Err(e),
    }
}

#[test]
fn load_rules_config_missing_file_returns_default() {
    let path = "C:\\__nonexistent_test_path__\\flow-rules.toml";
    let config = load_rules_config(path, Err(ConfigLoadError::Missing)).unwrap();
    assert_eq!(config.default_action, WindowAction::Float);
    assert!(config.rules.is_empty());
}

#[test]
fn load_rules_config_parse_error_message_includes_path() {
    let err = load_rules_config(
        "C:\\cfg\\flow-rules.toml",
        Err(ConfigLoadError::Parse("bad key".to_string())),
    )
    .unwrap_err()
    .to_string();
    assert_eq!(
        err,
        "config error: failed to load config C:\\cfg\\flow-rules.toml: parse error: bad key"
    );
}

#[test]
fn load_rules_config_directory_path_propagates_io_error() {
    let err = load_rules_config("C:\\cfg", read_failed()).unwrap_err().to_string();
    assert_eq!(
        err,
        "config error: failed to load config C:\\cfg: I/O error: denied"
    );
}

#[test]
fn reading_tells_missing_files_from_unreadable_ones() {
    assert_eq!(
        read_result(FileRead::Contents("x".to_string())),
        Ok("x".to_string())
    );
    assert_eq!(read_result(FileRead::NotFound), Err(ConfigLoadError::Missing));
    assert_eq!(ConfigLoadError::Missing.to_string(), "file not found");
    assert_eq!(
        ConfigLoadError::Io("denied".to_string()).to_string(),
        "I/O error: denied"
    );
}

#[test]
fn load_default_rules_falls_back_to_no_rules() {
    let bundled = WindowRulesConfig {
        default_action: WindowAction::Ignore,
        rules: vec![rule("a.exe", None, WindowAction::Tile)],
    };
    assert_eq!(load_default_rules(Ok(bundled.clone())), bundled);
    assert_eq!(
        load_default_rules(Err("bad".to_string())),
        WindowRulesConfig::default()
    );
}

fn contents() -> InitContents {
    InitContents {
        config_example: "example".to_string(),
        default_rules: Ok("rules".to_string()),
        config_schema: Ok("{1}".to_string()),
        rules_schema: Ok("{2}".to_string()),
    }
}

#[test]
fn init_config_dir_creates_directory_and_files() {
    let dir = "cfg";
    let steps = init_config_dir(dir, &contents());
    let at = |parts: &[&str]| {
        let mut p = PathBuf::from(dir);
        for part in parts {
            p = p.join(part);
        }
        p
    };
    let mut dirs = Vec::new();
    let mut files = Vec::new();
    for step in &steps {
        match step {
            InitStep::CreateDir { path, .. } => dirs.push(PathBuf::from(path)),
            InitStep::WriteNew { path, content, .. } => {
                files.push((PathBuf::from(path), content.clone()))
            }
            InitStep::Fail { message } => panic!("{message}"),
        }
    }
    assert_eq!(dirs, vec![at(&[]), at(&["schemas"])]);
    assert_eq!(
        files,
        vec![
            (at(&["flow.toml"]), "example".to_string()),
            (
                at(&["flow-rules.toml"]),
                "#:schema ./schemas/flow-rules.schema.json\n\nrules".to_string()
            ),
            (
                at(&["schemas", "flow-config.schema.json"]),
                "{1}".to_string()
            ),
            (
                at(&["schemas", "flow-rules.schema.json"]),
                "{2}".to_string()
            ),
        ]
    );
}

#[test]
fn init_config_dir_does_not_overwrite_existing() {
    assert!(!writes_default_file(true));
    assert!(writes_default_file(false));
    for step in &init_config_dir("cfg", &contents()) {
        assert_eq!(step.finish(&Ok(false)), Ok(()));
        assert_eq!(step.finish(&Ok(true)), Ok(()));
    }
}

#[test]
fn init_stops_at_the_first_fatal_failure() {
    let steps = init_config_dir("cfg", &contents());
    let failed = Err("denied".to_string());
    assert_eq!(
        steps[0].finish(&failed),
        Err("failed to create config directory \"cfg\": denied".to_string())
    );
    assert!(steps[1]
        .finish(&failed)
        .unwrap_err()
        .starts_with("failed to create schemas directory \"cfg"));
    assert!(steps[2]
        .finish(&failed)
        .unwrap_err()
        .starts_with("failed to write default config \"cfg"));
    assert!(steps[3]
        .finish(&failed)
        .unwrap_err()
        .starts_with("failed to write default rules \"cfg"));
    assert_eq!(steps[4].finish(&failed), Ok(()));
    assert_eq!(steps[5].finish(&failed), Ok(()));
    let broken = InitContents {
        default_rules: Err("no".to_string()),
        ..contents()
    };
    let steps = init_config_dir("cfg", &broken);
    assert_eq!(steps.len(), 3);
    assert_eq!(
        steps[2].finish(&Ok(true)),
        Err("failed to serialize default WindowRulesConfig: no".to_string())
    );
    let without_schemas = InitContents {
        config_schema: Err("no".to_string()),
        rules_schema: Err("no".to_string()),
        ..contents()
    };
    assert_eq!(init_config_dir("cfg", &without_schemas).len(), 4);
}

#[test]
fn write_ahk_template_creates_file() {
    assert_eq!(
        write_ahk_template("cfg", Ok(true)),
        Ok(true),
        "should report newly written"
    );
    assert_eq!(
        PathBuf::from(ahk_template_path("cfg")),
        Path::new("cfg").join("flow.ahk")
    );
}

#[test]
fn write_ahk_template_does_not_overwrite_existing() {
    assert_eq!(
        write_ahk_template("cfg", Ok(false)),
        Ok(false),
        "should report already-existed"
    );
    let err = write_ahk_template("cfg", Err("denied".to_string())).unwrap_err();
    assert!(err.starts_with("failed to write AutoHotkey template \"cfg"));
    assert!(err.ends_with("flow.ahk\": denied"));
}

#[test]
fn check_config_valid_directory_returns_ok() {
    let result = check_config(
        "cfg",
        &FileCheck::Parsed(FlowConfig::default()),
        &FileCheck::Parsed(WindowRulesConfig::default()),
    );
    assert!(result.is_ok(), "check_config failed: {result:?}");
}

#[test]
fn check_config_invalid_app_config_returns_err() {
    let config = FlowConfig {
        padding: Padding {
            window_gap: -1,
            ..Padding::default()
        },
        ..FlowConfig::default()
    };
    let result = check_config("cfg", &FileCheck::Parsed(config), &FileCheck::Missing);
    assert!(
        result.is_err(),
        "check_config should reject negative padding"
    );
    let err_msg = result.unwrap_err();
    assert!(
        err_msg.contains("padding.window_gap"),
        "error should mention the invalid field: {err_msg}"
    );
    assert!(err_msg.starts_with("flow.toml validation error: "));
}

#[test]
fn check_config_empty_directory_returns_ok() {
    let result = check_config("cfg", &FileCheck::Missing, &FileCheck::Missing);
    assert!(result.is_ok(), "empty directory should pass check_config");
}

#[test]
fn check_config_partial_toml_returns_ok() {
    let config = FlowConfig {
        column_width: Some(800),
        ..FlowConfig::default()
    };
    let result = check_config("cfg", &FileCheck::Parsed(config), &FileCheck::Missing);
    assert!(
        result.is_ok(),
        "partial flow.toml should pass check_config (merged with defaults): {result:?}"
    );
}

#[test]
fn check_config_malformed_app_toml_returns_err() {
    let result = check_config(
        "cfg",
        &FileCheck::Malformed("oops".to_string()),
        &FileCheck::Missing,
    );
    assert_eq!(result, Err("flow.toml parse error: oops".to_string()));
}

#[test]
fn check_config_malformed_rules_returns_err() {
    let result = check_config(
        "cfg",
        &FileCheck::Missing,
        &FileCheck::Malformed("oops".to_string()),
    );
    assert_eq!(result, Err("flow-rules.toml parse error: oops".to_string()));
}

#[test]
fn check_config_names_the_file_that_cannot_be_read() {
    let err = check_config(
        "cfg",
        &FileCheck::Unreadable("denied".to_string()),
        &FileCheck::Malformed("oops".to_string()),
    )
    .unwrap_err();
    assert!(err.starts_with("failed to read \"cfg"));
    assert!(err.ends_with("flow.toml\": denied"));
    let err = check_config(
        "cfg",
        &FileCheck::Missing,
        &FileCheck::Unreadable("denied".to_string()),
    )
    .unwrap_err();
    assert!(err.ends_with("flow-rules.toml\": denied"));
}

#[test]
fn home_lies_two_levels_above_appdata() {
    let env = DirEnv {
        flow_config_dir: None,
        userprofile: None,
        appdata: Some("users/bob/AppData/Roaming".to_string()),
    };
    assert_eq!(
        PathBuf::from(resolve_config_dir(None, &env)),
        Path::new("users/bob").join(".config").join("flow")
    );
}

#[test]
fn files_in_verbatim_directories_keep_their_names() {
    let dir = "\\\\?\\C:\\flow";
    let a = log_file_path_in(dir, "2026-06-17");
    let b = log_file_path_in(dir, "2026-06-18");
    assert_ne!(a, b);
    assert!(a.ends_with("flowd-2026-06-17.log"));
    assert!(user_rules_path_in(dir).ends_with("flow-rules.toml"));
}

#[test]
fn home_is_found_above_a_windows_appdata() {
    let env = DirEnv {
        flow_config_dir: None,
        userprofile: None,
        appdata: Some("C:\\Users\\x\\AppData\\Roaming".to_string()),
    };
    let appdata = Path::new("C:\\Users\\x\\AppData\\Roaming");
    let home = appdata.parent().and_then(Path::parent).unwrap_or(appdata);
    assert_eq!(
        PathBuf::from(resolve_config_dir(None, &env)),
        home.join(".config").join("flow")
    );
}

#[test]
fn the_temporary_file_is_next_to_the_file() {
    for dir in ["cfg", "a/b.c", "C:\\flow", ""] {
        let path = history_rules_path_in(dir);
        assert_eq!(HistoryStore::temp_path(&path), format!("{path}.tmp"));
    }
    assert_eq!(HistoryStore::temp_path("dir/rules"), "dir/rules.toml.tmp");
    assert_eq!(HistoryStore::temp_path("dir/rules.x"), "dir/rules.toml.tmp");
}

#[test]
fn a_set_up_ends_with_the_first_step_that_aborts() {
    let step = |failure: Option<&str>| InitStep::WriteNew {
        path: "p".to_string(),
        content: "c".to_string(),
        failure: failure.map(str::to_string),
    };
    let denied: Result<bool, String> = Err("denied".to_string());
    let mut run = InitRun::new(vec![step(None), step(Some("a: ")), step(Some("b: "))]);
    run.advance(&denied);
    assert!(run.current().is_some());
    run.advance(&denied);
    assert!(run.current().is_none());
    assert_eq!(run.done, 2);
    assert_eq!(run.result(), Err("a: denied".to_string()));
    let mut run = InitRun::new(vec![step(None), step(Some("a: "))]);
    run.advance(&denied);
    run.advance(&Ok(false));
    assert!(run.current().is_none());
    assert_eq!(run.result(), Ok(()));
}
