//! Starting at login and the command line client.
use flow_wm::autostart::{
    ahk_pidfile_path, ahk_script, describe_shortcut, disable_autostart, enable_autostart, flow_ahk_path, is_white_space,
    flow_exe_path, kill_process, parse_pid, pidfile_content, shortcut_created, shortcut_path,
    spawn_ahk_script, startup_dir, stop_ahk_script, Launch, Removal, StopPlan, Wide, FLOW_LNK,
};
use flow_wm::cli::{
    cmd_config, cmd_config_edit, cmd_dispatch, cmd_query, cmd_query_all, cmd_stop, daemon_args,
    daemon_exe_in, daemon_exe_path, error_line, find_daemon_exe, preflight_config_check,
    preflight_paths, query_answer, resolve_editor, send_command, spawn_daemon, start_gate,
    wait_for_daemon, ConfigCommands, DispatchCommands, EditorExit, HorizontalDirection,
    SocketMessage, SocketResponse, WaitStep, WindowMode, DAEMON_POLL_MS,
    DAEMON_START_TIMEOUT_SECS, DETACHED,
};
use flow_wm::common::{Direction, FlowError};
use flow_wm::config::dirs::DirEnv;
use flow_wm::config::lifecycle::FileRead;
use flow_wm::config::{FlowConfig, WindowRulesConfig};
use std::path::{Path, PathBuf};

fn env() -> DirEnv {
    DirEnv {
        flow_config_dir: Some("cfg".to_string()),
        userprofile: None,
        appdata: Some("roaming".to_string()),
    }
}

fn without_appdata() -> DirEnv {
    DirEnv {
        appdata: None,
        ..env()
    }
}

fn startup() -> PathBuf {
    Path::new("roaming")
        .join("Microsoft")
        .join("Windows")
        .join("Start Menu")
        .join("Programs")
        .join("Startup")
}

#[test]
fn startup_dir_ends_with_startup_when_appdata_set() {
    let dir = startup_dir(&env()).expect("APPDATA is set");
    assert!(dir.ends_with("Startup"), "dir was: {dir:?}");
    assert!(dir.contains("Start Menu"), "dir was: {dir:?}");
    assert_eq!(PathBuf::from(dir), startup());
}

#[test]
fn startup_dir_errors_without_appdata() {
    let result = startup_dir(&without_appdata());
    assert!(result.is_err(), "should error when APPDATA is unset");
}

#[test]
fn ahk_pidfile_path_is_stable_name_in_config_dir() {
    assert_eq!(
        PathBuf::from(ahk_pidfile_path(&env())),
        Path::new("cfg").join("flow.ahk.pid")
    );
}

#[test]
fn flow_ahk_path_points_at_config_dir_script() {
    assert_eq!(
        PathBuf::from(flow_ahk_path(&env())),
        Path::new("cfg").join("flow.ahk")
    );
}

#[test]
fn shortcut_filename_is_stable() {
    assert_eq!(FLOW_LNK, "flow.lnk");
}

#[test]
fn disable_autostart_no_op_when_shortcut_missing() {
    let report =
        disable_autostart(&env(), Removal::NotFound).expect("missing shortcut is a no-op");
    assert_eq!(PathBuf::from(report.shortcut), startup().join(FLOW_LNK));
}

#[test]
fn disable_autostart_removes_existing_shortcut() {
    let report = disable_autostart(&env(), Removal::Removed).expect("removing existing shortcut");
    assert_eq!(PathBuf::from(report.shortcut), startup().join(FLOW_LNK));
}

#[test]
fn disable_autostart_reports_a_shortcut_that_stays() {
    let err = disable_autostart(&env(), Removal::Failed("locked".to_string())).unwrap_err();
    assert!(err.starts_with("failed to remove roaming"));
    assert!(err.ends_with("flow.lnk: locked"));
}

#[test]
fn enable_autostart_with_ahk_errors_when_script_missing() {
    let err = enable_autostart(true, &env(), false, Ok("bin/flow.exe".to_string()))
        .expect_err("should error when flow.ahk missing");
    assert!(
        err.contains("flow.ahk not found"),
        "error should mention flow.ahk: {err}"
    );
    assert!(
        err.contains("flow config init --ahk"),
        "error should suggest the fix: {err}"
    );
}

#[test]
fn enable_autostart_describes_the_shortcut() {
    let shortcut = enable_autostart(false, &env(), false, Ok("bin/flow.exe".to_string())).unwrap();
    assert_eq!(PathBuf::from(&shortcut.link), startup().join(FLOW_LNK));
    assert_eq!(shortcut.target, "bin/flow.exe");
    assert_eq!(shortcut.args, "start");
    assert_eq!(shortcut.working_dir, Some("bin".to_string()));
    let link = shortcut.link.clone();
    assert_eq!(shortcut_created(shortcut.clone(), Ok(())).unwrap().shortcut, link);
    assert_eq!(
        shortcut_created(shortcut, Err("no COM".to_string())),
        Err("no COM".to_string())
    );
    let shortcut = enable_autostart(true, &env(), true, Ok("flow.exe".to_string())).unwrap();
    assert_eq!(shortcut.args, "start --ahk");
    assert_eq!(
        enable_autostart(false, &env(), false, Err("gone".to_string())),
        Err("cannot determine current executable: gone".to_string())
    );
    assert_eq!(flow_exe_path(Ok("x".to_string())), Ok("x".to_string()));
}

#[test]
fn shortcuts_keep_what_they_are_given() {
    let s = describe_shortcut(true, "l".to_string(), "t".to_string(), Some("d".to_string()));
    assert_eq!((s.link.as_str(), s.target.as_str()), ("l", "t"));
    assert_eq!(s.args, "start --ahk");
    assert_eq!(s.working_dir, Some("d".to_string()));
    assert_eq!(
        describe_shortcut(false, "l".to_string(), "t".to_string(), None).working_dir,
        None
    );
}

#[test]
fn stop_ahk_script_returns_false_when_pidfile_missing() {
    assert_eq!(
        stop_ahk_script(&env(), FileRead::NotFound),
        StopPlan::Nothing
    );
}

#[test]
fn stop_ahk_script_handles_corrupt_pidfile() {
    for text in ["not-a-number", "", "  ", "-4", "4294967296", "12 34", "+", "1.5"] {
        assert_eq!(
            stop_ahk_script(&env(), FileRead::Contents(text.to_string())),
            StopPlan::CleanUp,
            "{text:?}"
        );
    }
}

#[test]
fn stop_ahk_script_errors_when_pidfile_unreadable() {
    match stop_ahk_script(&env(), FileRead::Failed("denied".to_string())) {
        StopPlan::Fail(err) => {
            assert!(
                err.contains("flow.ahk.pid"),
                "error should reference the pidfile path: {err}"
            );
            assert!(err.starts_with("failed to read cfg"));
            assert!(err.ends_with(": denied"));
        }
        other => panic!("unreadable pidfile should surface an error, got: {other:?}"),
    }
}

#[test]
fn stop_kills_exactly_what_was_recorded() {
    for pid in [1, 9, 10, 4321, u32::MAX] {
        let text = pidfile_content(pid);
        assert_eq!(text, pid.to_string());
        assert_eq!(
            stop_ahk_script(&env(), FileRead::Contents(text)),
            StopPlan::Kill(pid)
        );
    }
    assert_eq!(
        stop_ahk_script(&env(), FileRead::Contents(" \t42\r\n".to_string())),
        StopPlan::Kill(42)
    );
    assert_eq!(parse_pid("+007"), Some(7));
    assert_eq!(parse_pid("7 "), None);
    assert_eq!(kill_process(false, Ok(())), Ok(false));
    assert_eq!(kill_process(true, Ok(())), Ok(true));
    assert_eq!(
        kill_process(true, Err("denied".to_string())),
        Err("TerminateProcess failed: denied".to_string())
    );
}

#[test]
fn spawning_the_script_reports_every_failure() {
    assert_eq!(
        spawn_ahk_script(Launch::Failed("x".to_string())),
        Err("ShellExecuteExW failed: x".to_string())
    );
    assert_eq!(
        spawn_ahk_script(Launch::NoProcess),
        Err("ShellExecuteExW returned no process handle (is AutoHotkey installed?)".to_string())
    );
    assert_eq!(
        spawn_ahk_script(Launch::Pid(0)),
        Err("GetProcessId returned 0 after launching flow.ahk".to_string())
    );
    assert_eq!(spawn_ahk_script(Launch::Pid(5)), Ok(5));
    assert!(ahk_script(&env(), false)
        .unwrap_err()
        .ends_with("; run `flow config init --ahk` to create it"));
    assert_eq!(ahk_script(&env(), true), Ok(flow_ahk_path(&env())));
}

#[test]
fn disable_autostart_errors_when_appdata_unset() {
    let err = disable_autostart(&without_appdata(), Removal::Removed)
        .expect_err("should error when APPDATA is unset");
    assert!(
        err.contains("%APPDATA%"),
        "error should mention %APPDATA%: {err}"
    );
    assert_eq!(shortcut_path(&without_appdata()), Err(err));
}

#[test]
fn enable_autostart_without_ahk_errors_when_appdata_unset() {
    let err = enable_autostart(false, &without_appdata(), false, Ok("flow.exe".to_string()))
        .expect_err("should error when APPDATA is unset");
    assert!(
        err.contains("%APPDATA%"),
        "error should mention %APPDATA%: {err}"
    );
}

#[test]
fn wide_from_str_ascii_encodes_with_null_terminator() {
    let w = Wide::from_str("ABC");
    assert_eq!(w.buf, vec![0x41, 0x42, 0x43, 0x00]);
}

#[test]
fn wide_from_str_empty_yields_only_null_terminator() {
    let w = Wide::from_str("");
    assert_eq!(w.buf, vec![0x00]);
}

#[test]
fn wide_from_str_unicode_bmp_encodes_as_single_code_unit() {
    let w = Wide::from_str("café");
    assert_eq!(w.buf, vec![0x63, 0x61, 0x66, 0xE9, 0x00]);
}

#[test]
fn wide_from_str_supplemental_plane_encodes_as_surrogate_pair() {
    let w = Wide::from_str("\u{1F600}");
    assert_eq!(w.buf, vec![0xD83D, 0xDE00, 0x00]);
}

#[test]
fn wide_strings_agree_with_the_standard_encoding() {
    for s in ["hello", "\u{FFFF}\u{10000}\u{10FFFF}", "日本語 ✓"] {
        let mut expected: Vec<u16> = s.encode_utf16().collect();
        expected.push(0);
        assert_eq!(Wide::from_str(s).buf, expected);
    }
}

#[test]
fn daemon_start_timeout_is_reasonable() {
    assert!(
        DAEMON_START_TIMEOUT_SECS > 0,
        "DAEMON_START_TIMEOUT must be > 0"
    );
    assert!(
        DAEMON_START_TIMEOUT_SECS <= 30,
        "DAEMON_START_TIMEOUT must be <= 30s (user shouldn't wait longer)"
    );
}

#[test]
fn daemon_start_timeout_is_not_zero() {
    assert_ne!(
        DAEMON_START_TIMEOUT_SECS, 0,
        "zero timeout would skip waiting entirely"
    );
}

#[test]
fn wait_for_daemon_maps_not_found_error() {
    let _: fn(bool, u64) -> WaitStep = wait_for_daemon;
    assert_eq!(wait_for_daemon(true, 9_999), WaitStep::Ready);
    assert_eq!(wait_for_daemon(false, 4_999), WaitStep::Sleep(DAEMON_POLL_MS));
    assert_eq!(
        wait_for_daemon(false, 5_000),
        WaitStep::TimedOut("timed out waiting for daemon to start".to_string())
    );
    assert_eq!(DAEMON_POLL_MS, 200);
}

#[test]
fn resolve_editor_returns_string() {
    let result = resolve_editor(None, None);
    assert!(result.is_ok(), "resolve_editor should always return Ok");
    let editor = result.unwrap();
    assert!(!editor.is_empty(), "editor command should not be empty");
    assert_eq!(editor, "notepad.exe");
    assert_eq!(resolve_editor(Some("vim"), Some("code")), Ok("vim".to_string()));
    assert_eq!(resolve_editor(Some(""), Some("code")), Ok("code".to_string()));
    assert_eq!(resolve_editor(Some(""), Some("")), Ok("notepad.exe".to_string()));
}

#[test]
fn dispatch_commands_send_their_message() {
    let sent = |c: DispatchCommands| {
        let r = cmd_dispatch(c);
        (r.message, r.success)
    };
    assert_eq!(
        sent(DispatchCommands::Focus { direction: Direction::Up }),
        (SocketMessage::FocusUp, "focus changed".to_string())
    );
    assert_eq!(
        sent(DispatchCommands::SwapColumn { direction: HorizontalDirection::Right }),
        (
            SocketMessage::SwapColumn { direction: Direction::Right },
            "column swapped".to_string()
        )
    );
    assert_eq!(
        sent(DispatchCommands::MoveWindow { direction: Direction::Down }),
        (
            SocketMessage::MoveWindow { direction: Direction::Down },
            "window moved".to_string()
        )
    );
    assert_eq!(
        sent(DispatchCommands::MergeColumn { direction: HorizontalDirection::Left }),
        (
            SocketMessage::MergeColumn { direction: Direction::Left },
            "column merged".to_string()
        )
    );
    assert_eq!(
        sent(DispatchCommands::Promote { direction: HorizontalDirection::Left }),
        (
            SocketMessage::Promote { direction: Direction::Left },
            "window promoted".to_string()
        )
    );
    assert_eq!(sent(DispatchCommands::ExpandColumn).1, "column expanded");
    assert_eq!(sent(DispatchCommands::ShrinkColumn).1, "column shrunk");
    assert_eq!(sent(DispatchCommands::Center).1, "viewport centered");
    assert_eq!(sent(DispatchCommands::CloseWindow).1, "window closed");
    assert_eq!(
        sent(DispatchCommands::SetWindow { mode: WindowMode::Cycle }),
        (
            SocketMessage::SetWindow { mode: WindowMode::Cycle },
            "window set to cycle".to_string()
        )
    );
    assert_eq!(
        sent(DispatchCommands::SwitchWorkspace { workspace_id: 3 }),
        (
            SocketMessage::SwitchWorkspace { workspace_id: 3 },
            "workspace switched".to_string()
        )
    );
    assert_eq!(
        sent(DispatchCommands::SwapWorkspace { workspace_id: 4 }).1,
        "workspace swapped"
    );
    assert_eq!(
        sent(DispatchCommands::MoveWindowToWorkspace { workspace_id: 0 }),
        (
            SocketMessage::MoveWindowToWorkspace { workspace_id: 0 },
            "window moved to workspace".to_string()
        )
    );
}

#[test]
fn only_reload_contacts_the_daemon() {
    assert_eq!(
        cmd_config(ConfigCommands::Reload).map(|r| (r.message, r.success)),
        Some((
            SocketMessage::ReloadConfig,
            "configuration reloaded".to_string()
        ))
    );
    for c in [
        ConfigCommands::Init,
        ConfigCommands::Edit,
        ConfigCommands::Path,
        ConfigCommands::Check,
    ] {
        assert_eq!(cmd_config(c), None);
    }
    assert_eq!(cmd_stop().message, SocketMessage::Stop);
    assert_eq!(cmd_stop().success, "daemon stopped");
    assert_eq!(cmd_query(), SocketMessage::QueryWindowsAll);
}

#[test]
fn answers_become_lines_or_errors() {
    assert_eq!(
        send_command(Ok(SocketResponse::Done), "done"),
        Ok("stm: done".to_string())
    );
    let data = SocketResponse::Data {
        payload: "{}".to_string(),
    };
    assert_eq!(send_command(Ok(data), "done"), Ok("stm: done".to_string()));
    let error = SocketResponse::Error {
        message: "no".to_string(),
    };
    assert_eq!(
        send_command(Ok(error.clone()), "done"),
        Err("daemon error: no".to_string())
    );
    assert_eq!(
        send_command(Err("pipe".to_string()), "done"),
        Err("failed to send command: pipe".to_string())
    );
    assert_eq!(cmd_query_all(Ok(error)), Err("daemon error: no".to_string()));
    assert_eq!(
        cmd_query_all(Err("pipe".to_string())),
        Err("failed to send command: pipe".to_string())
    );
    assert_eq!(
        cmd_query_all(Ok(SocketResponse::Done)),
        Ok("stm: ok".to_string())
    );
    assert_eq!(error_line("x"), "stm: x");
}

#[test]
fn query_data_is_laid_out_for_reading() {
    let payload = |text: &str| {
        Ok(SocketResponse::Data {
            payload: text.to_string(),
        })
    };
    assert_eq!(
        cmd_query_all(payload("{\"a\":[1,2],\"b\":\"x\"}")),
        Ok("{\n  \"a\": [\n    1,\n    2\n  ],\n  \"b\": \"x\"\n}".to_string())
    );
    assert_eq!(cmd_query_all(payload("not json")), Ok("not json".to_string()));
    assert_eq!(query_answer(payload("raw"), None), Ok("raw".to_string()));
    assert_eq!(
        query_answer(payload("raw"), Some("nice".to_string())),
        Ok("nice".to_string())
    );
}

#[test]
fn starting_the_daemon_is_refused_for_a_reason() {
    assert_eq!(start_gate(false), Ok(()));
    assert_eq!(start_gate(true), Err("daemon is already running".to_string()));
    let app_ok: Result<FlowConfig, FlowError> = Ok(FlowConfig::default());
    let rules_ok: Result<WindowRulesConfig, FlowError> = Ok(WindowRulesConfig::default());
    assert_eq!(preflight_config_check(&app_ok, &rules_ok), Ok(None));
    assert_eq!(
        preflight_config_check(&Err(FlowError::Config("bad".to_string())), &rules_ok),
        Err("stm: cannot start: config error: bad".to_string())
    );
    assert_eq!(
        preflight_config_check(&app_ok, &Err(FlowError::Config("bad".to_string()))),
        Ok(Some(
            "stm: warning: config error: bad; using default window rules".to_string()
        ))
    );
    let (app, rules) = preflight_paths(Some("over"), &env());
    assert_eq!(PathBuf::from(app), Path::new("over").join("flow.toml"));
    assert_eq!(PathBuf::from(rules), Path::new("over").join("flow-rules.toml"));
}

#[test]
fn the_daemon_lies_next_to_the_program() {
    let exe = Path::new("bin").join("stm.exe").to_string_lossy().into_owned();
    let daemon = daemon_exe_path(Ok(exe)).unwrap();
    assert_eq!(PathBuf::from(&daemon), Path::new("bin").join("stmd.exe"));
    assert_eq!(
        daemon_exe_path(Err("gone".to_string())),
        Err("cannot determine current executable: gone".to_string())
    );
    assert_eq!(
        daemon_exe_in(None),
        Err("cannot determine executable directory".to_string())
    );
    assert_eq!(find_daemon_exe("x".to_string(), true), Ok("x".to_string()));
    assert_eq!(
        find_daemon_exe("x".to_string(), false),
        Err("daemon binary not found at x".to_string())
    );
    assert_eq!(daemon_args(None), Vec::<String>::new());
    assert_eq!(
        daemon_args(Some("d.log")),
        vec!["--log-file".to_string(), "d.log".to_string()]
    );
    let no = || Err("no".to_string());
    assert_eq!(spawn_daemon("x", Ok(()), no()), Ok(()));
    assert_eq!(spawn_daemon("x", no(), Ok(())), Ok(()));
    assert_eq!(
        spawn_daemon("x", no(), Err("never".to_string())),
        Err("failed to spawn daemon (x): never".to_string())
    );
    assert_eq!(DETACHED, 0x0000_0200 | 0x0800_0000);
}

#[test]
fn editors_may_fail() {
    assert_eq!(cmd_config_edit("vim", EditorExit::Success), Ok(()));
    assert_eq!(
        cmd_config_edit("vim", EditorExit::NotStarted("gone".to_string())),
        Err("failed to start editor 'vim': gone".to_string())
    );
    assert_eq!(
        cmd_config_edit("vim", EditorExit::Failure(Some(-3))),
        Err("editor 'vim' exited with status -3".to_string())
    );
    assert_eq!(
        cmd_config_edit("vim", EditorExit::Failure(None)),
        Err("editor 'vim' exited with status unknown".to_string())
    );
}

#[test]
fn white_space_is_what_the_standard_library_takes_for_it() {
    for c in '\0'..=char::MAX {
        assert_eq!(is_white_space(c), c.is_whitespace(), "{c:?}");
    }
    for text in ["123\n", "\u{2003}123\u{85}", "\u{feff}123", "123", "\n", "1 23 "] {
        let expected = match text.trim().parse::<u32>() {
            Ok(pid) => StopPlan::Kill(pid),
            Err(_) => StopPlan::CleanUp,
        };
        assert_eq!(stop_ahk_script(&env(), FileRead::Contents(text.to_string())), expected);
    }
}

#[test]
fn programs_without_a_directory_have_no_daemon() {
    let none = Err("cannot determine executable directory".to_string());
    assert_eq!(daemon_exe_path(Ok(String::new())), none);
    assert_eq!(daemon_exe_path(Ok("/".to_string())), none);
    assert_eq!(daemon_exe_path(Ok("stm.exe".to_string())), Ok("stmd.exe".to_string()));
    assert_eq!(
        daemon_exe_path(Ok("/stm.exe".to_string())).map(PathBuf::from),
        Ok(Path::new("/").join("stmd.exe"))
    );
    assert_eq!(
        daemon_exe_path(Ok("a//b/./c/stm".to_string())).map(PathBuf::from),
        Ok(Path::new("a//b/./c").join("stmd.exe"))
    );
}

#[test]
fn the_daemon_lies_next_to_a_program_after_backslashes() {
    for exe in [
        "C:\\Program Files\\stm\\stm.exe",
        "C:\\stm.exe",
        "\\stm.exe",
        "C:/Users\\x\\stm.exe",
    ] {
        assert_eq!(
            daemon_exe_path(Ok(exe.to_string())).map(PathBuf::from),
            Ok(Path::new(exe).parent().unwrap().join("stmd.exe")),
            "{exe}"
        );
    }
}

#[test]
fn answers_keep_their_numbers() {
    for number in ["0.1", "1.7976931348623157e308", "5e-324", "123456789.12345679"] {
        let payload = format!("[{number}]");
        let value: f64 = number.parse().unwrap();
        let text = cmd_query_all(Ok(SocketResponse::Data { payload })).unwrap();
        let shown: f64 = text.trim_matches(|c: char| "[] \n".contains(c)).parse().unwrap();
        assert_eq!(shown, value);
    }
}
