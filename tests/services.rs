use statusline::code88::browser_fallback_paths;
use statusline::code88::browser_names;
use statusline::code88::browser_launch_args;
use statusline::code88::check_token_response;
use statusline::code88::find_available_port;
use statusline::code88::Code88Error as LoginError;
use statusline::code88::detect_browser;
use statusline::code88::token_path;
use statusline::timer::RunTimer;
use statusline::timer::TimePoint;
use statusline::timer::TimeSpan;
use statusline::usage::check_usage_response;
use statusline::usage::Code88Error;
use statusline::workspace::persist_mcp_enabled;
use statusline::workspace::persist_model_selection;
use statusline::workspace::McpServerEntry;
use statusline::workspace::ReasoningEffort;
use statusline::workspace::WorkspaceMcpServerState;
use statusline::workspace::WorkspaceState;

#[test]
fn test_detect_browser() {
    let resolved: Vec<Option<String>> = browser_names()
        .iter()
        .map(|name| which::which(name).ok().map(|p| p.to_string_lossy().into_owned()))
        .collect();
    let fallback = browser_fallback_paths();
    let present: Vec<bool> = fallback.iter().map(|p| std::path::Path::new(p).exists()).collect();
    let browser = detect_browser(&resolved, &fallback, &present);
    if let Some(path) = browser {
        assert!(std::path::Path::new(&path).exists());
    }
}

#[test]
fn detect_browser_prefers_resolved_commands() {
    let fallback = browser_fallback_paths();
    let resolved = vec![None, Some("/opt/chromium".to_string()), Some("/x".to_string())];
    let present = vec![true, false, false, false, false, false];
    assert_eq!(detect_browser(&resolved, &fallback, &present), Some("/opt/chromium".to_string()));
    let resolved: Vec<Option<String>> = vec![None; 6];
    let present = vec![false, false, true, false, false, true];
    assert_eq!(detect_browser(&resolved, &fallback, &present), Some("/usr/bin/chromium".to_string()));
    let present = vec![false; 6];
    assert_eq!(detect_browser(&resolved, &fallback, &present), None);
}

#[test]
fn token_path_joins_file_name() {
    assert_eq!(token_path("/home/me/.codex"), "/home/me/.codex/88code-token.json");
    assert_eq!(token_path("/home/me/.codex/"), "/home/me/.codex/88code-token.json");
    assert_eq!(token_path(""), "88code-token.json");
}

#[test]
fn test_code88_error_display() {
    assert_eq!(
        Code88Error::Network("timeout".to_string()).to_string(),
        "Network error: timeout"
    );
    assert_eq!(Code88Error::HttpStatus(401).to_string(), "HTTP status error: 401");
    assert_eq!(
        Code88Error::Parse("invalid json".to_string()).to_string(),
        "Parse error: invalid json"
    );
    assert_eq!(Code88Error::NoData.to_string(), "No data returned");
    assert_eq!(Code88Error::ApiError(-1).to_string(), "API error code: -1");
}

#[test]
fn usage_response_needs_ok_and_zero_code() {
    assert!(matches!(check_usage_response(true, 0, Some(5u8)), Ok(5)));
    assert!(matches!(check_usage_response::<u8>(true, 0, None), Err(Code88Error::NoData)));
    assert!(matches!(check_usage_response(false, -1, Some(5u8)), Err(Code88Error::ApiError(-1))));
    assert!(matches!(check_usage_response(true, 3, Some(5u8)), Err(Code88Error::ApiError(3))));
}

#[test]
fn run_timer_snapshot_advances_in_real_seconds() {
    let start = TimePoint::from_millis(5_000);
    let timer = RunTimer::new(start);
    let first_tick = start.plus(TimeSpan::from_millis(1_200));
    let snapshot = timer.snapshot(first_tick);
    assert_eq!(snapshot.elapsed_running.as_millis(), 1_200);
    assert_eq!(snapshot.elapsed_at(first_tick).as_secs(), 1);

    let later = first_tick.plus(TimeSpan::from_millis(1_000));
    assert_eq!(snapshot.elapsed_at(later).as_secs(), 2);
}

#[test]
fn pause_then_resume_keeps_elapsed() {
    let mut timer = RunTimer::new(TimePoint::from_millis(0));
    let now = TimePoint::from_millis(4_500);
    let before = timer.snapshot(now).elapsed_running;
    timer.pause(now);
    assert_eq!(timer.snapshot(now).elapsed_running, before);
    timer.resume(now);
    assert_eq!(timer.snapshot(now).elapsed_running, before);
    let later = TimePoint::from_millis(6_000);
    assert_eq!(timer.snapshot(later).elapsed_running.as_millis(), 6_000);
    timer.pause(TimePoint::from_millis(7_000));
    assert_eq!(timer.snapshot(TimePoint::from_millis(9_000)).elapsed_running.as_millis(), 7_000);
}

#[test]
fn persists_and_loads_workspace_state() {
    let state = persist_model_selection(WorkspaceState::default(), "gpt-5-codex", Some(ReasoningEffort::High));
    let state = persist_mcp_enabled(state, "docs", false);
    assert_eq!(state.model.as_deref(), Some("gpt-5-codex"));
    assert_eq!(state.model_reasoning_effort, Some(ReasoningEffort::High));
    let docs = state.mcp_servers.iter().find(|e| e.name == "docs").and_then(|e| e.state.enabled);
    assert_eq!(docs, Some(false));
}

#[test]
fn unset_servers_are_not_stored() {
    let state = WorkspaceState {
        model: None,
        model_reasoning_effort: None,
        mcp_servers: vec![
            McpServerEntry { name: "a".to_string(), state: WorkspaceMcpServerState { enabled: None } },
            McpServerEntry { name: "b".to_string(), state: WorkspaceMcpServerState { enabled: Some(true) } },
        ],
    };
    let state = persist_mcp_enabled(state, "b", false);
    assert_eq!(state.mcp_servers.len(), 1);
    assert_eq!(state.mcp_servers[0].name, "b");
    assert_eq!(state.mcp_servers[0].state.enabled, Some(false));
}

#[test]
fn token_answer_needs_ok_and_token() {
    assert!(matches!(check_token_response(true, 0, Some("abc".to_string())), Ok(t) if t == "abc"));
    assert!(matches!(check_token_response(true, 0, None), Err(LoginError::NoToken)));
    assert!(matches!(check_token_response(false, 7, Some("abc".to_string())), Err(LoginError::ApiError(7))));
}

#[test]
fn first_free_debug_port_is_chosen() {
    assert_eq!(find_available_port(&vec![true, true, true, true, true]), Some(9222));
    assert_eq!(find_available_port(&vec![false, false, true, false, true]), Some(9224));
    assert_eq!(find_available_port(&vec![false; 5]), None);
}

#[test]
fn launch_arguments_enable_debugging() {
    let args = browser_launch_args(9223, "/tmp/profile", "https://example.org/login");
    assert_eq!(
        args,
        vec![
            "--remote-debugging-port=9223".to_string(),
            "--no-first-run".to_string(),
            "--no-default-browser-check".to_string(),
            "--user-data-dir=/tmp/profile".to_string(),
            "https://example.org/login".to_string(),
        ]
    );
}
