use statusline::render::DefaultStatusLineRenderer;
use statusline::state::context_percent_remaining;
use statusline::state::token_snapshot_from_info;
use statusline::state::StatusLineState;
use statusline::state::TokenUsage;
use statusline::state::TokenUsageInfo;
use statusline::timer::TimePoint;
use unicode_width::UnicodeWidthStr;

#[test]
fn context_snapshot_matches_status_values() {
    let window = 272_000;
    let info = TokenUsageInfo {
        total_token_usage: TokenUsage {
            total_tokens: 540_000,
            input_tokens: 420_000,
            cached_input_tokens: 160_000,
            output_tokens: 120_000,
            reasoning_output_tokens: 60_000,
        },
        last_token_usage: TokenUsage {
            total_tokens: 110_300,
            input_tokens: 74_000,
            cached_input_tokens: 18_000,
            output_tokens: 36_300,
            reasoning_output_tokens: 12_000,
        },
        model_context_window: Some(window),
    };

    let (_, context_snapshot) = token_snapshot_from_info(&info, info.model_context_window);
    let context = context_snapshot.expect("context snapshot");

    assert_eq!(context.window, window);
    assert_eq!(context.tokens_in_context, 98_300);
    assert_eq!(context.percent_remaining, 66);
}

#[test]
fn small_windows_report_nothing_left() {
    let last = TokenUsage { total_tokens: 5_000, ..TokenUsage::default() };
    assert_eq!(context_percent_remaining(&last, 12_000), 0);
    assert_eq!(context_percent_remaining(&last, 112_000), 100);
}

fn width(line: &statusline::style::Line) -> usize {
    line.spans.iter().map(|s| UnicodeWidthStr::width(s.content.as_str())).sum()
}

#[test]
fn task_lifecycle_drives_the_pill() {
    let t0 = TimePoint::from_millis(1_000);
    let mut state = StatusLineState::with_renderer(
        DefaultStatusLineRenderer,
        Some(200_000),
        "~/workspace/codex".to_string(),
        Some("codex".to_string()),
        t0,
    );
    assert!(state.take_redraw_request());
    assert!(!state.take_redraw_request());
    let idle: String = state.render_run_pill(60, t0).spans.iter().map(|s| s.content.as_str()).collect();
    assert!(idle.contains("Ready when you are"), "{idle}");
    assert!(idle.contains("0s"), "{idle}");

    state.start_task("Running tests".to_string(), t0);
    assert_eq!(state.frame_delay_millis(), Some(48));
    let t1 = TimePoint::from_millis(66_000);
    assert_eq!(state.elapsed_seconds(t1), Some(65));
    let pill = state.render_run_pill(60, t1);
    let text: String = pill.spans.iter().map(|s| s.content.as_str()).collect();
    assert!(text.contains("1m 05s"), "{text}");
    assert!(text.contains("Running tests"), "{text}");
    assert_eq!(width(&pill), 60);

    state.set_queued_messages(vec!["git status".to_string()]);
    let text: String = state.render_run_pill(80, t1).spans.iter().map(|s| s.content.as_str()).collect();
    assert!(text.contains("next: git status"), "{text}");

    state.complete_task(t1);
    assert_eq!(state.elapsed_seconds(t1), None);
    assert_eq!(state.frame_delay_millis(), None);
    let line = state.render_line(100, t1);
    assert_eq!(width(&line), 100);
    let text: String = line.spans.iter().map(|s| s.content.as_str()).collect();
    assert!(text.contains("codex"), "{text}");
}
