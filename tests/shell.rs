use pluto_duck_shell::{
    activation_actions, callback_script, check_entry, check_web_url, decimal_text,
    dispatch_opened, frontend_url, launcher_result, locate_server_root, main_window_settings,
    navigation_target, probe_address, respond, setup_failure, sidecar_environment,
    sidecar_layout, starts_with, validate_external_url, LaunchErrorKind, LauncherOutcome,
    ProbeAction, ProbeState, Prober, ServerSlot, SetupStep, ShellEvent, ShellResponse,
    WindowAction, CONNECT_TIMEOUT_MS, READY_TIMEOUT_MS, RETRY_DELAY_MS,
};

fn expected_script(lit: &str) -> String {
    format!(
        "window.__plutoAuthCallbackQueue = window.__plutoAuthCallbackQueue || [];window.__plutoAuthCallbackQueue.push({0});window.dispatchEvent(new CustomEvent('pluto-auth-callback', {{ detail: {{ url: {0} }} }}));",
        lit
    )
}

fn eval_text(a: &WindowAction) -> &str {
    match a {
        WindowAction::Eval(s) => s.as_str(),
        _ => panic!("expected a script"),
    }
}

#[test]
fn frontend_url_is_loopback_port() {
    assert_eq!(frontend_url(), "http://127.0.0.1:3100");
    assert_eq!(probe_address(), "127.0.0.1:3100");
}

#[test]
fn decimal_text_spells_numbers() {
    assert_eq!(decimal_text(0), "0");
    assert_eq!(decimal_text(7), "7");
    assert_eq!(decimal_text(10), "10");
    assert_eq!(decimal_text(3100), "3100");
    assert_eq!(decimal_text(65535), "65535");
}

#[test]
fn external_open_rejects_other_schemes() {
    let r = validate_external_url("javascript:alert(1)");
    assert_eq!(r, Err("Only http(s) URLs are allowed".to_string()));
    assert_eq!(
        validate_external_url("ftp://example.com"),
        Err("Only http(s) URLs are allowed".to_string())
    );
    assert_eq!(validate_external_url(""), Err("Only http(s) URLs are allowed".to_string()));
    assert_eq!(validate_external_url("   "), Err("Only http(s) URLs are allowed".to_string()));
    assert_eq!(
        validate_external_url("HTTP://example.com"),
        Err("Only http(s) URLs are allowed".to_string())
    );
    assert_eq!(
        validate_external_url("http:/example.com"),
        Err("Only http(s) URLs are allowed".to_string())
    );
}

#[test]
fn external_open_accepts_trimmed_https() {
    let r = validate_external_url("  https://example.com/path?x=1  ");
    assert_eq!(r, Ok("https://example.com/path?x=1".to_string()));
    assert_eq!(validate_external_url("http://a"), Ok("http://a".to_string()));
    assert_eq!(validate_external_url("\thttp://a\n"), Ok("http://a".to_string()));
}

#[test]
fn check_web_url_on_prefixes() {
    assert!(check_web_url("http://").is_ok());
    assert!(check_web_url("https://x").is_ok());
    assert!(check_web_url("https:/x").is_err());
    assert!(check_web_url(" https://x").is_err());
    assert!(starts_with("abc", "ab"));
    assert!(starts_with("abc", ""));
    assert!(!starts_with("ab", "abc"));
    assert!(!starts_with("xbc", "ab"));
}

#[test]
fn launcher_result_messages() {
    assert_eq!(launcher_result(LauncherOutcome::Exited { success: true, status: "exit status: 0".to_string() }), Ok(()));
    assert_eq!(
        launcher_result(LauncherOutcome::Exited { success: false, status: "exit status: 3".to_string() }),
        Err("Browser command failed with status: exit status: 3".to_string())
    );
    assert_eq!(
        launcher_result(LauncherOutcome::SpawnFailed { reason: "No such file or directory".to_string() }),
        Err("Failed to launch browser: No such file or directory".to_string())
    );
}

#[test]
fn cold_activation_single_url() {
    let urls = vec!["plutoduck://auth?code=abc".to_string()];
    let actions = dispatch_opened(&urls, true);
    assert_eq!(actions.len(), 3);
    assert!(matches!(actions[0], WindowAction::Show));
    assert!(matches!(actions[1], WindowAction::Focus));
    assert_eq!(eval_text(&actions[2]), expected_script("\"plutoduck://auth?code=abc\""));
}

#[test]
fn warm_activation_special_characters() {
    let url = "x://y?q=\"hello\\world\"".to_string();
    let actions = dispatch_opened(&vec![url], true);
    assert_eq!(actions.len(), 3);
    let lit = r#""x://y?q=\"hello\\world\"""#;
    assert_eq!(eval_text(&actions[2]), expected_script(lit));
    let decoded: String = serde_json::from_str(lit).unwrap();
    assert_eq!(decoded, "x://y?q=\"hello\\world\"");
}

#[test]
fn activation_batch_keeps_order() {
    let urls = vec!["a://1".to_string(), "b://2".to_string(), "c://3".to_string()];
    let actions = dispatch_opened(&urls, true);
    assert_eq!(actions.len(), 5);
    assert!(matches!(actions[0], WindowAction::Show));
    assert!(matches!(actions[1], WindowAction::Focus));
    assert_eq!(eval_text(&actions[2]), expected_script("\"a://1\""));
    assert_eq!(eval_text(&actions[3]), expected_script("\"b://2\""));
    assert_eq!(eval_text(&actions[4]), expected_script("\"c://3\""));
}

#[test]
fn activation_without_main_window_or_urls_does_nothing() {
    assert!(dispatch_opened(&vec!["a://1".to_string()], false).is_empty());
    assert!(dispatch_opened(&vec![], true).is_empty());
    assert!(dispatch_opened(&vec![], false).is_empty());
}

#[test]
fn activation_actions_one_script_per_literal() {
    let lits = vec!["\"a\"".to_string(), "\"b\"".to_string()];
    let actions = activation_actions(&lits, true);
    assert_eq!(actions.len(), 4);
    assert!(matches!(actions[0], WindowAction::Show));
    assert!(matches!(actions[1], WindowAction::Focus));
    assert_eq!(eval_text(&actions[2]), expected_script("\"a\""));
    assert_eq!(eval_text(&actions[3]), expected_script("\"b\""));
    assert!(activation_actions(&lits, false).is_empty());
}

#[test]
fn activation_escapes_control_characters() {
    let url = "a\u{1}b\tc\u{7f}\u{e9}".to_string();
    let actions = dispatch_opened(&vec![url], true);
    assert_eq!(eval_text(&actions[2]), expected_script("\"a\\u0001b\\tc\u{7f}\u{e9}\""));
}

#[test]
fn callback_script_embeds_literal_twice() {
    assert_eq!(callback_script("\"u\""), expected_script("\"u\""));
}

#[test]
fn sidecar_absent_names_probed_path() {
    let path = "/opt/app/dist/pluto-duck-frontend-server/server.js";
    let err = check_entry(path, false).unwrap_err();
    assert_eq!(err.kind, LaunchErrorKind::ConfigurationMissing);
    assert!(err.message.contains(path));
    assert_eq!(err.message, format!("node server entry not found at {path}"));
    assert!(check_entry(path, true).is_ok());
}

#[test]
fn server_root_checks() {
    let e = locate_server_root(false, "/r/dist", true).unwrap_err();
    assert_eq!(e.kind, LaunchErrorKind::ConfigurationMissing);
    assert_eq!(e.message, "resource directory unavailable");
    let e = locate_server_root(true, "/r/dist", false).unwrap_err();
    assert_eq!(e.kind, LaunchErrorKind::ConfigurationMissing);
    assert_eq!(e.message, "node server directory not found in resources (/r/dist)");
    assert!(locate_server_root(true, "/r/dist", true).is_ok());
}

#[test]
fn setup_failures_by_step() {
    let e = setup_failure(SetupStep::LogDirectory);
    assert_eq!(e.kind, LaunchErrorKind::FilesystemSetup);
    assert_eq!(e.message, "failed to create log directory");
    assert_eq!(setup_failure(SetupStep::StdoutLog).message, "failed to create stdout log");
    assert_eq!(setup_failure(SetupStep::StderrLog).message, "failed to create stderr log");
    let e = setup_failure(SetupStep::Spawn);
    assert_eq!(e.kind, LaunchErrorKind::SpawnFailure);
    assert_eq!(e.message, "failed to spawn node server process");
}

#[test]
fn sidecar_environment_entries() {
    let env = sidecar_environment("/data/node-server");
    assert_eq!(
        env,
        vec![
            ("PLUTODUCK_DATA_DIR__ROOT".to_string(), "/data/node-server".to_string()),
            ("HOSTNAME".to_string(), "127.0.0.1".to_string()),
            ("PORT".to_string(), "3100".to_string()),
        ]
    );
}

#[test]
fn sidecar_layout_names() {
    let l = sidecar_layout();
    assert_eq!(l.program, "node");
    assert_eq!(l.entry_file, "server.js");
    assert_eq!(l.resource_subdir, "dist/pluto-duck-frontend-server");
    assert_eq!(l.data_dir, "node-server");
    assert_eq!(l.temp_fallback_dir, "pluto_duck");
    assert_eq!(l.log_dir, "logs");
    assert_eq!(l.stdout_log, "node-server-stdout.log");
    assert_eq!(l.stderr_log, "node-server-stderr.log");
}

#[test]
fn termination_happens_once() {
    let mut slot = ServerSlot::new(42u32);
    assert!(slot.is_held());
    assert_eq!(slot.take_for_termination(), Some(42));
    assert!(!slot.is_held());
    assert_eq!(slot.take_for_termination(), None);
    assert_eq!(slot.take_for_termination(), None);
}

#[test]
fn probe_succeeds_on_connect() {
    let mut p = Prober::start(1000, READY_TIMEOUT_MS);
    assert_eq!(p.deadline_ms, 16000);
    assert_eq!(p.on_tick(1000), ProbeAction::Connect);
    assert_eq!(p.on_attempt(false), ProbeAction::Sleep);
    assert_eq!(p.on_tick(1600), ProbeAction::Connect);
    assert_eq!(p.on_attempt(true), ProbeAction::Finish);
    assert!(p.is_ready());
    assert_eq!(p.on_tick(2000), ProbeAction::Finish);
    assert_eq!(p.state, ProbeState::Connected);
}

#[test]
fn probe_expires_at_deadline() {
    let mut p = Prober::start(0, 1000);
    assert_eq!(p.on_tick(999), ProbeAction::Connect);
    assert_eq!(p.on_attempt(false), ProbeAction::Sleep);
    assert_eq!(p.on_tick(1000), ProbeAction::Finish);
    assert_eq!(p.state, ProbeState::Expired);
    assert!(!p.is_ready());
    assert_eq!(p.on_attempt(true), ProbeAction::Finish);
    assert_eq!(p.state, ProbeState::Expired);
    let q = Prober::start(u64::MAX - 5, 100);
    assert_eq!(q.deadline_ms, u64::MAX);
    assert_eq!((CONNECT_TIMEOUT_MS, RETRY_DELAY_MS, READY_TIMEOUT_MS), (400, 200, 15000));
}

#[test]
fn navigation_waits_for_readiness() {
    let mut p = Prober::start(0, 1000);
    assert_eq!(navigation_target(false, &Some(p)), None);
    p.on_tick(10);
    p.on_attempt(true);
    assert_eq!(navigation_target(false, &Some(p)), Some("http://127.0.0.1:3100".to_string()));
    assert_eq!(navigation_target(true, &Some(p)), None);
    let mut e = Prober::start(0, 1000);
    e.on_tick(2000);
    assert_eq!(navigation_target(false, &Some(e)), Some("http://127.0.0.1:3100".to_string()));
}

#[test]
fn sidecar_absent_means_no_navigation() {
    assert_eq!(navigation_target(false, &None), None);
}

#[test]
fn close_hides_and_reopen_reveals() {
    assert_eq!(respond(ShellEvent::CloseRequested), ShellResponse::PreventCloseAndHide);
    assert_eq!(
        respond(ShellEvent::Reopen { has_visible_windows: false }),
        ShellResponse::RevealAllWindows
    );
    assert_eq!(respond(ShellEvent::Reopen { has_visible_windows: true }), ShellResponse::Nothing);
    assert_eq!(respond(ShellEvent::Opened), ShellResponse::DispatchActivation);
    assert_eq!(respond(ShellEvent::Exit), ShellResponse::TerminateSidecar);
    assert_eq!(respond(ShellEvent::Ready), ShellResponse::Nothing);
}

#[test]
fn main_window_settings_values() {
    let s = main_window_settings();
    assert_eq!(s.label, "main");
    assert_eq!(s.title, "Pluto Duck");
    assert_eq!((s.width, s.height), (1400, 900));
    assert!(s.resizable);
    assert_eq!(s.titlebar_height, 40);
}
