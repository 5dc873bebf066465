use statusline::content::queue_preview;
use statusline::format::format_elapsed_compact;
use statusline::format::format_token_count;
use statusline::content::run_label_text;
use statusline::middle::context_bar_colors;
use statusline::middle::render_context_bar;
use statusline::model::RunLabelVariant;
use statusline::model::PathVariant;
use statusline::model::RenderModel;
use statusline::model::TokenVariant;
use statusline::render::render_status_line;
use statusline::render::render_status_run_pill;
use statusline::render::CustomStatusLineRenderer;
use statusline::render::DefaultStatusLineRenderer;
use statusline::render::StatusLineRenderer;
use statusline::snapshot::StatusLineContextSnapshot;
use statusline::snapshot::StatusLineDevspaceSnapshot;
use statusline::snapshot::StatusLineEnvironmentSnapshot;
use statusline::snapshot::StatusLineGitSnapshot;
use statusline::snapshot::StatusLineModelSnapshot;
use statusline::snapshot::StatusLineRunState;
use statusline::snapshot::StatusLineSnapshot;
use statusline::snapshot::StatusLineTokenSnapshot;
use statusline::snapshot::TokenCountSnapshot;
use statusline::style::Color;
use statusline::style::Line;
use statusline::style::Style;
use statusline::timer::RunTimerSnapshot;
use statusline::timer::TimePoint;
use statusline::timer::TimeSpan;
use unicode_width::UnicodeWidthStr;

const DEFAULT_STATUS_MESSAGE: &str = "Ready when you are";

fn line_width(line: &Line) -> usize {
    line.spans
        .iter()
        .map(|span| UnicodeWidthStr::width(span.content.as_str()))
        .sum()
}

fn line_text(line: &Line) -> String {
    line.spans.iter().map(|span| span.content.as_str()).collect()
}

fn describe_style(style: Style) -> String {
    let mut parts: Vec<String> = Vec::new();
    if let Some(fg) = style.fg {
        parts.push(format!("fg={fg:?}"));
    }
    if let Some(bg) = style.bg {
        parts.push(format!("bg={bg:?}"));
    }
    if style.bold {
        parts.push("mod=BOLD".to_string());
    }
    if style.italic {
        parts.push("mod=ITALIC".to_string());
    }
    if style.dim {
        parts.push("mod=DIM".to_string());
    }
    if parts.is_empty() {
        "plain".to_string()
    } else {
        parts.join("|")
    }
}

fn snapshot_line_repr(line: &Line) -> String {
    line.spans
        .iter()
        .enumerate()
        .map(|(idx, span)| format!("{idx:02}: {} {:?}", describe_style(span.style), span.content))
        .collect::<Vec<_>>()
        .join("\n")
}

fn sample_snapshot() -> StatusLineSnapshot {
    StatusLineSnapshot {
        cwd_display: Some("~/workspace/codex".to_string()),
        cwd_basename: Some("codex".to_string()),
        cwd_fallback: Some("codex".to_string()),
        model: Some(StatusLineModelSnapshot {
            label: "gpt-5-codex".to_string(),
            detail: Some("high".to_string()),
        }),
        tokens: Some(StatusLineTokenSnapshot {
            total: TokenCountSnapshot {
                total_tokens: 48_234,
                input_tokens: 30_000,
                cached_input_tokens: 8_000,
                output_tokens: 18_234,
                reasoning_output_tokens: 234,
            },
            last: Some(TokenCountSnapshot {
                total_tokens: 2_345,
                input_tokens: 1_200,
                cached_input_tokens: 200,
                output_tokens: 900,
                reasoning_output_tokens: 45,
            }),
        }),
        context: Some(StatusLineContextSnapshot {
            percent_remaining: 68,
            tokens_in_context: 52_000,
            window: 160_000,
        }),
        run_state: Some(StatusLineRunState {
            label: "Applying patch".to_string(),
            timer: Some(RunTimerSnapshot {
                elapsed_running: TimeSpan::from_secs(125),
                last_resume_at: None,
                is_paused: true,
            }),
            queued_messages: vec!["git status".to_string(), "cargo test --all".to_string()],
            show_interrupt_hint: true,
            status_changed_at: TimePoint::from_millis(0),
        }),
        git: Some(StatusLineGitSnapshot {
            branch: Some("feature/fix-tests".to_string()),
            dirty: true,
            ahead: Some(1),
            behind: Some(0),
        }),
        environment: StatusLineEnvironmentSnapshot {
            devspace: Some(StatusLineDevspaceSnapshot {
                name: "earth".to_string(),
            }),
            hostname: Some("vermissian".to_string()),
            aws_profile: Some("prod".to_string()),
            kubernetes_context: Some("codex-dev".to_string()),
        },
    }
}

#[test]
fn elapsed_formatting_matches_indicator() {
    assert_eq!(format_elapsed_compact(0), "0s");
    assert_eq!(format_elapsed_compact(59), "59s");
    assert_eq!(format_elapsed_compact(60), "1m 00s");
    assert_eq!(format_elapsed_compact(3_661), "1h 01m 01s");
}

#[test]
fn queue_preview_handles_extra_count() {
    let long = "x".repeat(80);
    let (preview, extra) = queue_preview(&vec![long, "second".to_string(), "third".to_string()]);
    assert!(preview.ends_with('…'));
    assert_eq!(extra, 2);
    assert!(UnicodeWidthStr::width(preview.as_str()) <= 32);
}

#[test]
fn context_bar_colors_follow_thresholds() {
    let (green, _) = context_bar_colors(1_000);
    assert_eq!(green, Color::Green);
    let (yellow, _) = context_bar_colors(7_000);
    assert_eq!(yellow, Color::Yellow);
    let (peach, _) = context_bar_colors(8_500);
    assert_eq!(peach, Color::Peach);
    let (red, _) = context_bar_colors(9_800);
    assert_eq!(red, Color::Red);
}

#[test]
fn renderer_renders_core_segments() {
    let snapshot = StatusLineSnapshot {
        cwd_display: Some("codex".to_string()),
        model: Some(StatusLineModelSnapshot {
            label: "codex-model".to_string(),
            detail: Some("high".to_string()),
        }),
        tokens: Some(StatusLineTokenSnapshot {
            total: TokenCountSnapshot {
                input_tokens: 600,
                cached_input_tokens: 0,
                output_tokens: 424,
                ..TokenCountSnapshot::default()
            },
            last: None,
        }),
        context: Some(StatusLineContextSnapshot {
            percent_remaining: 80,
            ..StatusLineContextSnapshot::default()
        }),
        git: Some(StatusLineGitSnapshot {
            branch: Some("main".to_string()),
            dirty: true,
            ahead: Some(1),
            behind: None,
        }),
        environment: StatusLineEnvironmentSnapshot {
            hostname: Some("vermissian".to_string()),
            aws_profile: Some("prod".to_string()),
            ..StatusLineEnvironmentSnapshot::default()
        },
        ..StatusLineSnapshot::default()
    };
    let renderer = DefaultStatusLineRenderer;
    let line = renderer.render(&snapshot, 80, TimePoint::from_millis(0));
    let rendered = line_text(&line);
    println!("{}", snapshot_line_repr(&line));
    assert!(rendered.contains("codex-model"));
    assert!(rendered.contains("high"));
    assert!(rendered.contains('Σ'));
    assert!(rendered.contains("main*"));
    assert!(rendered.contains(" codex") || rendered.contains(" tui"));
    assert!(!rendered.contains("vermissian"));
    assert_eq!(line_width(&line), 80);
}

#[test]
fn renderer_snapshot_wide_width() {
    let snapshot = sample_snapshot();
    let line = DefaultStatusLineRenderer.render(&snapshot, 80, TimePoint::from_millis(0));
    println!("{}", snapshot_line_repr(&line));
    assert_eq!(line_width(&line), 80);
}

#[test]
fn renderer_snapshot_narrow_width_degrades() {
    let snapshot = sample_snapshot();
    let line = DefaultStatusLineRenderer.render(&snapshot, 40, TimePoint::from_millis(0));
    println!("{}", snapshot_line_repr(&line));
    assert_eq!(line_width(&line), 40);
}

#[test]
fn renderer_run_pill_includes_timer_queue_and_hint() {
    let snapshot = sample_snapshot();
    let renderer = DefaultStatusLineRenderer;
    let repr = snapshot_line_repr(&renderer.render_run_pill(&snapshot, 80, TimePoint::from_millis(0)));
    assert!(repr.contains("2m 05s"), "timer text missing: {repr}");
    assert!(repr.contains("Applying patch"), "run label missing from pill: {repr}");
    assert!(repr.contains("next:"), "queue prefix missing: {repr}");
    assert!(repr.contains("git status"), "queue preview missing: {repr}");
    assert!(repr.contains("(+1)"), "queue extra count missing: {repr}");
}

#[test]
fn renderer_run_pill_idle_is_blank_capsule() {
    let mut snapshot = sample_snapshot();
    snapshot.run_state = None;
    let renderer = DefaultStatusLineRenderer;
    let repr = snapshot_line_repr(&renderer.render_run_pill(&snapshot, 60, TimePoint::from_millis(0)));
    assert!(
        repr.lines().all(|line| line.contains("plain \"")),
        "idle pill should collapse to plain padding: {repr}"
    );
}

#[test]
fn custom_renderer_matches_default_statusline() {
    let snapshot = sample_snapshot();
    let now = TimePoint::from_millis(0);
    let default_line = DefaultStatusLineRenderer.render(&snapshot, 80, now);
    let custom_line = CustomStatusLineRenderer.render(&snapshot, 80, now);
    assert_eq!(snapshot_line_repr(&custom_line), snapshot_line_repr(&default_line));
}

#[test]
fn custom_renderer_matches_default_run_pill() {
    let snapshot = sample_snapshot();
    let now = TimePoint::from_millis(0);
    let default_line = DefaultStatusLineRenderer.render_run_pill(&snapshot, 60, now);
    let custom_line = CustomStatusLineRenderer.render_run_pill(&snapshot, 60, now);
    assert_eq!(snapshot_line_repr(&custom_line), snapshot_line_repr(&default_line));
}

#[test]
fn run_label_defaults_to_waiting_message() {
    let now = TimePoint::from_millis(0);
    let snapshot = StatusLineSnapshot {
        context: Some(StatusLineContextSnapshot {
            percent_remaining: 100,
            tokens_in_context: 0,
            window: 1,
        }),
        run_state: Some(StatusLineRunState {
            status_changed_at: now,
            ..StatusLineRunState::default()
        }),
        ..StatusLineSnapshot::default()
    };
    let renderer = DefaultStatusLineRenderer;
    let line = renderer.render(&snapshot, 120, now);
    let has_default = line
        .spans
        .iter()
        .any(|span| span.content.contains(DEFAULT_STATUS_MESSAGE));
    assert!(has_default, "status capsule should show default message when label empty");
}

#[test]
fn token_formatting_examples() {
    assert_eq!(format_token_count(0), "0");
    assert_eq!(format_token_count(999), "999");
    assert_eq!(format_token_count(1_000), "1k");
    assert_eq!(format_token_count(1_500_000), "1.5M");
    assert_eq!(format_token_count(2_340_000_000), "2.3B");
    assert_eq!(format_token_count(7_000_000_000_000), "7T");
    assert_eq!(format_token_count(-5), "0");
    assert_eq!(format_token_count(48_234), "48.2k");
    assert_eq!(format_token_count(1_050), "1.1k");
    assert_eq!(format_token_count(1_049), "1k");
}

#[test]
fn context_tier_boundaries() {
    assert_eq!(context_bar_colors(6_000).0, Color::Green);
    assert_eq!(context_bar_colors(6_001).0, Color::Yellow);
    assert_eq!(context_bar_colors(8_000).0, Color::Yellow);
    assert_eq!(context_bar_colors(9_200).0, Color::Peach);
    assert_eq!(context_bar_colors(9_201).0, Color::Red);
    assert_eq!(context_bar_colors(6_000).1, Color::GreenLight);
    assert_eq!(context_bar_colors(9_201).1, Color::RedLight);
}

#[test]
fn wide_line_keeps_model_and_dirty_branch() {
    let snapshot = sample_snapshot();
    let line = render_status_line(&snapshot, 80, TimePoint::from_millis(0));
    let text = line_text(&line);
    println!("{}", snapshot_line_repr(&line));
    assert_eq!(line_width(&line), 80);
    assert!(text.contains("gpt-5-codex"), "{text}");
    assert!(text.contains("feature/fix-tests*"), "{text}");
    assert!(!text.contains('…'), "{text}");
}

#[test]
fn narrow_line_falls_back_to_summary() {
    let snapshot = sample_snapshot();
    let line = render_status_line(&snapshot, 10, TimePoint::from_millis(0));
    let text = line_text(&line);
    assert_eq!(line_width(&line), 10);
    assert_eq!(text, "codex | g…");
    assert_eq!(text.matches('…').count(), 1);
}

#[test]
fn pill_previews_first_queued_message() {
    let snapshot = sample_snapshot();
    let line = render_status_run_pill(&snapshot, 60, TimePoint::from_millis(0));
    let text = line_text(&line);
    assert_eq!(line_width(&line), 60);
    let repr = snapshot_line_repr(&line);
    assert!(repr.contains("\"git status\""), "{repr}");
    assert!(repr.contains("\"(+1)\""), "{repr}");
    assert!(text.contains("git status (+1)"), "{text}");
}

#[test]
fn every_width_is_filled_exactly() {
    let snapshot = sample_snapshot();
    let now = TimePoint::from_millis(0);
    for width in 0..=160u16 {
        let line = render_status_line(&snapshot, width, now);
        assert_eq!(line_width(&line), width as usize, "status line at {width}");
        let pill = render_status_run_pill(&snapshot, width, now);
        assert_eq!(line_width(&pill), width as usize, "pill at {width}");
    }
    let empty = StatusLineSnapshot::default();
    for width in 0..=40u16 {
        assert_eq!(line_width(&render_status_line(&empty, width, now)), width as usize);
        assert_eq!(line_width(&render_status_run_pill(&empty, width, now)), width as usize);
    }
    assert!(render_status_line(&snapshot, 0, now).spans.is_empty());
}

#[test]
fn pill_keeps_timer_and_label_when_wide() {
    let snapshot = sample_snapshot();
    let text = line_text(&render_status_run_pill(&snapshot, 30, TimePoint::from_millis(0)));
    assert!(text.contains("2m 05s"), "{text}");
    assert!(text.contains("Applying patch"), "{text}");
    assert!(!text.contains("next:"), "{text}");
}

#[test]
fn degradation_never_restores_detail() {
    let snapshot = sample_snapshot();
    let mut model = RenderModel::new(&snapshot);
    assert_eq!(model.token_variant, TokenVariant::Full);
    assert!(model.env.devspace && model.env.hostname);
    let mut steps = 0;
    let mut previous = model;
    while model.apply_next_degrade() {
        steps += 1;
        assert!(model.degrade_cursor > previous.degrade_cursor);
        assert!(!model.env.devspace || previous.env.devspace);
        assert!(!model.env.hostname || previous.env.hostname);
        assert!(!model.include_queue_preview || previous.include_queue_preview);
        assert!(!model.show_run_timer || previous.show_run_timer);
        assert!(!model.show_run_label || previous.show_run_label);
        if previous.path_variant == PathVariant::Hidden {
            assert_eq!(model.path_variant, PathVariant::Hidden);
        }
        previous = model;
    }
    assert_eq!(steps, 18);
    assert!(!model.env.devspace && !model.env.hostname && !model.env.aws_profile && !model.env.kubernetes);
    assert_eq!(model.path_variant, PathVariant::Hidden);
    assert_eq!(model.token_variant, TokenVariant::Hidden);
    assert!(!model.apply_next_degrade());
}

#[test]
fn context_bar_draws_from_one_cell_above_minimum() {
    let snapshot = StatusLineSnapshot {
        context: Some(StatusLineContextSnapshot { percent_remaining: 68, tokens_in_context: 0, window: 1 }),
        ..StatusLineSnapshot::default()
    };
    assert!(render_context_bar(&snapshot, 31).is_none());
    for width in 32..=40usize {
        let spans = render_context_bar(&snapshot, width).expect("bar above the minimum");
        let cells = spans
            .iter()
            .filter(|s| s.content.chars().all(|c| ('\u{ee00}'..='\u{ee05}').contains(&c)) && !s.content.is_empty())
            .count();
        assert_eq!(cells, width - 31);
        let total: usize = spans.iter().map(|s| UnicodeWidthStr::width(s.content.as_str())).sum();
        assert_eq!(total, width);
    }
}

#[test]
fn run_label_is_trimmed_only_around_spaces() {
    let mut snapshot = sample_snapshot();
    let run = snapshot.run_state.as_mut().unwrap();
    run.label = "\tfoo".to_string();
    let state = run.clone();
    let mut model = RenderModel::new(&snapshot);
    assert_eq!(run_label_text(&model, &state), "\tfoo");
    let mut spaced = state.clone();
    spaced.label = "  Applying patch ".to_string();
    assert_eq!(run_label_text(&model, &spaced), "Applying patch");
    spaced.label = " \t ".to_string();
    assert_eq!(run_label_text(&model, &spaced), DEFAULT_STATUS_MESSAGE);
    model.run_label_variant = RunLabelVariant::Short;
    spaced.label = "Applying patch".to_string();
    assert_eq!(run_label_text(&model, &spaced), "Applying");
}
