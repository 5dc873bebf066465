//! The segments of the status line and its middle region, built from a
//! snapshot at the detail levels of a render model.

use vstd::prelude::*;
use vstd::string::StringExecFns;
use crate::content::git_text;
use crate::content::git_text_spec;
use crate::content::path_text;
use crate::content::path_text_spec;
use crate::content::queue_preview;
use crate::content::queue_preview_text;
use crate::content::run_label_spec;
use crate::content::run_label_text;
use crate::content::timer_text;
use crate::content::timer_text_spec;
use crate::content::format_token_summary;
use crate::content::token_summary_spec;
use crate::format::devspace_glyph;
use crate::format::devspace_icon;
use crate::format::model_icon;
use crate::format::select_model_icon;
use crate::model::RenderModel;
use crate::segments::PowerlineSegment;
use crate::segments::SegmentView;
use crate::segments::segment_views;
use crate::snapshot::StatusLineRunState;
use crate::snapshot::StatusLineSnapshot;
use crate::style::Color;
use crate::style::Span;
use crate::style::SpanView;
use crate::style::Style;
use crate::style::dim_style;
use crate::style::dim_text_style;
use crate::style::plain_style;
use crate::style::queue_style;
use crate::style::views;
use crate::text::chars_of;
use crate::text::dec;
use crate::text::is_blank;
use crate::text::push_char;
use crate::text::push_decimal;
use crate::text::string_of;
use crate::text::strip_prefix_all;
use crate::text::strip_prefix_all_chars;
use crate::text::trim;
use crate::text::trim_string;
use crate::text::truncate_graphemes;
use crate::text::truncated_graphemes;
use crate::timer::TimePoint;

verus! {

pub open spec fn raw_view(t: Seq<char>) -> SpanView {
    SpanView { text: t, style: plain_style() }
}

pub open spec fn spinner_view() -> SpanView {
    SpanView { text: seq!['\u{25e6}'], style: dim_style() }
}

fn span_of_char(c: char, style: Style) -> (r: Span)
    ensures
        r@ == (SpanView { text: seq![c], style }),
{
    let mut s = String::new();
    push_char(&mut s, c);
    assert(s@ =~= seq![c]);
    Span::styled(s, style)
}

/// The run capsule's spinner.
pub fn status_spinner() -> (r: Span)
    ensures
        r@ == spinner_view(),
{
    span_of_char('\u{25e6}', Style::dim())
}

/// Whether the run's timer is running.
pub open spec fn timer_running(state: StatusLineRunState) -> bool {
    state.timer matches Some(t) && !t.is_paused
}

/// The capsule is green while the timer runs, mauve otherwise.
pub open spec fn capsule_accent(state: StatusLineRunState) -> Color {
    if timer_running(state) { Color::Green } else { Color::Mauve }
}

/// Spans of the run capsule: the timer, then the spinner and label.
pub open spec fn capsule_content(m: RenderModel, state: StatusLineRunState, now: TimePoint) -> Seq<SpanView> {
    let timer: Seq<SpanView> = if m.show_run_timer {
        seq![raw_view(timer_text_spec(state, now))]
    } else {
        Seq::empty()
    };
    let label: Seq<SpanView> = if m.show_run_label {
        (if m.show_run_timer { seq![raw_view(seq![' '])] } else { Seq::empty() }) + seq![
            spinner_view(),
            raw_view(seq![' ']),
            raw_view(trim(run_label_spec(m.run_label_variant, state.label@))),
        ]
    } else {
        Seq::empty()
    };
    if timer.len() + label.len() == 0 {
        seq![spinner_view()]
    } else {
        timer + label
    }
}

/// Spans of the queue preview segment.
pub open spec fn queue_content(queued: Seq<String>) -> Seq<SpanView> {
    let extra = queued.len() - 1;
    seq![
        SpanView { text: seq!['n', 'e', 'x', 't', ':'], style: dim_style() },
        raw_view(seq![' ']),
        SpanView { text: queue_preview_text(queued), style: queue_style() },
    ] + (if extra > 0 {
        seq![
            raw_view(seq![' ']),
            SpanView { text: seq!['(', '+'] + dec(extra as nat) + seq![')'], style: queue_style() },
        ]
    } else {
        Seq::empty()
    })
}

/// The run-state segments: the capsule, then the queue preview when shown.
pub open spec fn run_segments_spec(m: RenderModel, state: Option<StatusLineRunState>, now: TimePoint) -> Seq<SegmentView> {
    match state {
        None => Seq::empty(),
        Some(st) => seq![SegmentView { accent: capsule_accent(st), spans: capsule_content(m, st, now) }]
            + (if m.include_queue_preview && st.queued_messages@.len() > 0 {
            seq![SegmentView { accent: Color::Mauve, spans: queue_content(st.queued_messages@) }]
        } else {
            Seq::empty()
        }),
    }
}

fn str_span(s: &str, style: Style) -> (r: Span)
    ensures
        r@ == (SpanView { text: s@, style }),
{
    Span::styled(String::from_str(s), style)
}

fn queue_segment(queued: &Vec<String>) -> (r: PowerlineSegment)
    requires
        queued@.len() > 0,
    ensures
        r@ == (SegmentView { accent: Color::Mauve, spans: queue_content(queued@) }),
{
    let (preview, extra) = queue_preview(queued);
    let mut spans: Vec<Span> = Vec::new();
    proof {
        reveal_strlit("next:");
        reveal_strlit(" ");
        assert("next:"@ =~= seq!['n', 'e', 'x', 't', ':']);
        assert(" "@ =~= seq![' ']);
    }
    spans.push(str_span("next:", Style::dim()));
    spans.push(str_span(" ", Style::plain()));
    spans.push(Span::styled(preview, Style::queue_preview()));
    let ghost head = views(spans@);
    if extra > 0 {
        spans.push(str_span(" ", Style::plain()));
        let mut count = String::new();
        push_char(&mut count, '(');
        push_char(&mut count, '+');
        push_decimal(&mut count, extra as u64);
        push_char(&mut count, ')');
        assert(count@ =~= seq!['(', '+'] + dec(extra as nat) + seq![')']);
        spans.push(Span::styled(count, Style::queue_preview()));
    }
    let ghost extra_part: Seq<SpanView> = if extra > 0 {
        seq![
            raw_view(seq![' ']),
            SpanView { text: seq!['(', '+'] + dec(extra as nat) + seq![')'], style: queue_style() },
        ]
    } else {
        Seq::empty()
    };
    assert(views(spans@) =~= head + extra_part);
    assert(views(spans@) =~= queue_content(queued@));
    PowerlineSegment::from_spans(Color::Mauve, spans)
}

/// The run-state segments of `state`.
pub fn run_state_segments(m: &RenderModel, state: Option<&StatusLineRunState>, now: TimePoint) -> (r: Vec<PowerlineSegment>)
    ensures
        segment_views(r@) == run_segments_spec(*m, match state { Some(s) => Some(*s), None => None }, now),
{
    let state = match state {
        None => {
            let r: Vec<PowerlineSegment> = Vec::new();
            assert(segment_views(r@) =~= Seq::<SegmentView>::empty());
            return r;
        },
        Some(s) => s,
    };
    proof {
        reveal_strlit(" ");
        assert(" "@ =~= seq![' ']);
    }
    let mut capsule: Vec<Span> = Vec::new();
    if m.show_run_timer {
        capsule.push(Span::raw(timer_text(state, now)));
    }
    let ghost timer: Seq<SpanView> = if m.show_run_timer {
        seq![raw_view(timer_text_spec(*state, now))]
    } else {
        Seq::empty()
    };
    assert(views(capsule@) =~= timer);
    if m.show_run_label {
        if m.show_run_timer {
            capsule.push(Span::raw(String::from_str(" ")));
        }
        capsule.push(status_spinner());
        capsule.push(Span::raw(String::from_str(" ")));
        capsule.push(Span::raw(trim_string(run_label_text(m, state).as_str())));
    }
    let ghost label: Seq<SpanView> = if m.show_run_label {
        (if m.show_run_timer { seq![raw_view(seq![' '])] } else { Seq::empty() }) + seq![
            spinner_view(),
            raw_view(seq![' ']),
            raw_view(trim(run_label_spec(m.run_label_variant, state.label@))),
        ]
    } else {
        Seq::empty()
    };
    assert(views(capsule@) =~= timer + label);
    if capsule.len() == 0 {
        capsule.push(status_spinner());
    }
    assert(views(capsule@) =~= capsule_content(*m, *state, now));
    let running = match &state.timer {
        Some(t) => !t.is_paused,
        None => false,
    };
    let accent = if running { Color::Green } else { Color::Mauve };
    let mut segments: Vec<PowerlineSegment> = Vec::new();
    segments.push(PowerlineSegment::from_spans(accent, capsule));
    if m.include_queue_preview && state.queued_messages.len() > 0 {
        segments.push(queue_segment(&state.queued_messages));
    }
    assert(segment_views(segments@) =~= run_segments_spec(*m, Some(*state), now));
    segments
}

/// Spans of the model segment: icon, label in bold, reasoning detail in
/// italics, and the token summary when shown.
pub open spec fn model_content(m: RenderModel, s: StatusLineSnapshot) -> Option<Seq<SpanView>> {
    match s.model {
        None => None,
        Some(model) => Some(
            seq![raw_view(seq![model_icon(model.label@)])] + (if model.label@.len() > 0 {
                seq![
                    raw_view(seq![' ']),
                    SpanView { text: model.label@, style: Style { bold: true, ..plain_style() } },
                ]
            } else {
                Seq::empty()
            }) + (match model.detail {
                Some(d) => seq![
                    raw_view(seq![' ']),
                    SpanView {
                        text: d@,
                        style: Style { fg: Some(Color::Base), italic: true, ..plain_style() },
                    },
                ],
                None => Seq::empty(),
            }) + (match token_summary_spec(m, s) {
                Some(t) => seq![raw_view(seq![' ']), SpanView { text: t, style: dim_text_style() }],
                None => Seq::empty(),
            }),
        ),
    }
}

/// Left-aligned segments: run state, working directory, model.
pub open spec fn left_segments_spec(m: RenderModel, s: StatusLineSnapshot, now: TimePoint) -> Seq<SegmentView> {
    run_segments_spec(m, s.run_state, now) + (match path_text_spec(m, s) {
        Some(p) => seq![SegmentView { accent: Color::Lavender, spans: seq![raw_view(p)] }],
        None => Seq::empty(),
    }) + (match model_content(m, s) {
        Some(c) => seq![SegmentView { accent: Color::Sky, spans: c }],
        None => Seq::empty(),
    })
}

fn model_segment(m: &RenderModel, s: &StatusLineSnapshot) -> (r: Option<PowerlineSegment>)
    ensures
        r matches Some(seg) ==> model_content(*m, *s) == Some(seg@.spans) && seg@.accent == Color::Sky,
        r is None ==> model_content(*m, *s) is None,
{
    let model = match &s.model {
        None => return None,
        Some(model) => model,
    };
    let ghost mv = *model;
    proof {
        reveal_strlit(" ");
        assert(" "@ =~= seq![' ']);
    }
    let mut spans: Vec<Span> = Vec::new();
    spans.push(span_of_char(select_model_icon(model.label.as_str()), Style::plain()));
    if model.label.unicode_len() > 0 {
        spans.push(str_span(" ", Style::plain()));
        spans.push(Span::styled(
            model.label.clone(),
            Style { fg: None, bg: None, bold: true, italic: false, dim: false },
        ));
    }
    let ghost a = seq![raw_view(seq![model_icon(model.label@)])] + (if model.label@.len() > 0 {
        seq![
            raw_view(seq![' ']),
            SpanView { text: model.label@, style: Style { bold: true, ..plain_style() } },
        ]
    } else {
        Seq::empty()
    });
    assert(views(spans@) =~= a);
    if let Some(d) = &model.detail {
        spans.push(str_span(" ", Style::plain()));
        spans.push(Span::styled(
            d.clone(),
            Style { fg: Some(Color::Base), bg: None, bold: false, italic: true, dim: false },
        ));
    }
    let ghost b = a + (match mv.detail {
        Some(d) => seq![
            raw_view(seq![' ']),
            SpanView {
                text: d@,
                style: Style { fg: Some(Color::Base), italic: true, ..plain_style() },
            },
        ],
        None => Seq::empty(),
    });
    assert(views(spans@) =~= b);
    if let Some(t) = format_token_summary(m, s) {
        spans.push(str_span(" ", Style::plain()));
        spans.push(Span::styled(t, Style::dim_text()));
    }
    assert(Some(views(spans@)) =~= model_content(*m, *s));
    Some(PowerlineSegment::from_spans(Color::Sky, spans))
}

/// The left-aligned segments of the line.
pub fn collect_left_segments(m: &RenderModel, s: &StatusLineSnapshot, now: TimePoint) -> (r: Vec<PowerlineSegment>)
    ensures
        segment_views(r@) == left_segments_spec(*m, *s, now),
{
    let mut segments = run_state_segments(m, s.run_state.as_ref(), now);
    let ghost run = segment_views(segments@);
    assert(run == run_segments_spec(*m, s.run_state, now));
    if let Some(p) = path_text(m, s) {
        segments.push(PowerlineSegment::text(Color::Lavender, p));
    }
    let ghost with_path = segment_views(segments@);
    assert(with_path =~= run + (match path_text_spec(*m, *s) {
        Some(p) => seq![SegmentView { accent: Color::Lavender, spans: seq![raw_view(p)] }],
        None => Seq::empty(),
    }));
    if let Some(seg) = model_segment(m, s) {
        segments.push(seg);
    }
    assert(segment_views(segments@) =~= left_segments_spec(*m, *s, now));
    segments
}

/// A badge: an icon and a text cut to some number of clusters.
pub open spec fn badge(icon: Seq<char>, text: Seq<char>, max: nat) -> Seq<char> {
    icon + truncated_graphemes(text, max)
}

pub open spec fn aws_prefix() -> Seq<char> {
    seq!['e', 'x', 'p', 'o', 'r', 't', ' ', 'A', 'W', 'S', '_', 'P', 'R', 'O', 'F', 'I', 'L', 'E', '=']
}

pub open spec fn eks_prefix() -> Seq<char> {
    seq!['a', 'r', 'n', ':', 'a', 'w', 's', ':', 'e', 'k', 's', ':']
}

pub open spec fn gke_prefix() -> Seq<char> {
    seq!['g', 'k', 'e', '_']
}

pub open spec fn text_segment(accent: Color, t: Seq<char>) -> Seq<SegmentView> {
    seq![SegmentView { accent, spans: seq![raw_view(t)] }]
}

/// Right-aligned segments: dev environment, host, git, cloud profile and
/// orchestration context, each when included and present.
pub open spec fn right_segments_spec(m: RenderModel, s: StatusLineSnapshot) -> Seq<SegmentView> {
    let env = s.environment;
    (match env.devspace {
        Some(d) if m.env.devspace => {
            let t = badge(seq![devspace_glyph(d.name@), ' '], d.name@, 16);
            if trim(t).len() > 0 { text_segment(Color::Mauve, t) } else { Seq::empty() }
        },
        _ => Seq::empty(),
    }) + (match env.hostname {
        Some(h) if m.env.hostname => text_segment(Color::Rosewater, badge(seq!['\u{f233}', ' '], h@, 20)),
        _ => Seq::empty(),
    }) + (match s.git {
        Some(g) => match git_text_spec(m.git_variant, g) {
            Some(t) => text_segment(Color::Sky, t),
            None => Seq::empty(),
        },
        None => Seq::empty(),
    }) + (match env.aws_profile {
        Some(p) if m.env.aws_profile => text_segment(
            Color::Peach,
            badge(seq!['\u{e7ad}', ' '], strip_prefix_all(p@, aws_prefix()), 16),
        ),
        _ => Seq::empty(),
    }) + (match env.kubernetes_context {
        Some(k) if m.env.kubernetes => text_segment(
            Color::Teal,
            badge(seq!['\u{2638}', ' '], strip_prefix_all(strip_prefix_all(k@, eks_prefix()), gke_prefix()), 18),
        ),
        _ => Seq::empty(),
    })
}

fn badge_text(icon: char, text: &str, max: usize) -> (r: String)
    ensures
        r@ == badge(seq![icon, ' '], text@, max as nat),
{
    let mut out = String::new();
    push_char(&mut out, icon);
    push_char(&mut out, ' ');
    out.append(truncate_graphemes(text, max).as_str());
    assert(out@ =~= badge(seq![icon, ' '], text@, max as nat));
    out
}

fn strip_literal(s: &str, prefix: &str) -> (r: String)
    ensures
        r@ == strip_prefix_all(s@, prefix@),
{
    string_of(&strip_prefix_all_chars(&chars_of(s), &chars_of(prefix)))
}

/// The right-aligned segments of the line.
pub fn collect_right_segments(m: &RenderModel, s: &StatusLineSnapshot) -> (r: Vec<PowerlineSegment>)
    ensures
        segment_views(r@) == right_segments_spec(*m, *s),
{
    let mut segments: Vec<PowerlineSegment> = Vec::new();
    let env = &s.environment;
    let ghost mut expect: Seq<SegmentView> = Seq::empty();
    if m.env.devspace {
        if let Some(d) = &env.devspace {
            let t = badge_text(devspace_icon(d.name.as_str()), d.name.as_str(), 16);
            if !is_blank(t.as_str()) {
                segments.push(PowerlineSegment::text(Color::Mauve, t));
            }
        }
    }
    if m.env.hostname {
        if let Some(h) = &env.hostname {
            segments.push(PowerlineSegment::text(Color::Rosewater, badge_text('\u{f233}', h.as_str(), 20)));
        }
    }
    if let Some(g) = &s.git {
        if let Some(t) = git_text(m.git_variant, g) {
            segments.push(PowerlineSegment::text(Color::Sky, t));
        }
    }
    proof {
        reveal_strlit("export AWS_PROFILE=");
        reveal_strlit("arn:aws:eks:");
        reveal_strlit("gke_");
        assert("export AWS_PROFILE="@ =~= aws_prefix());
        assert("arn:aws:eks:"@ =~= eks_prefix());
        assert("gke_"@ =~= gke_prefix());
    }
    if m.env.aws_profile {
        if let Some(p) = &env.aws_profile {
            let trimmed = strip_literal(p.as_str(), "export AWS_PROFILE=");
            segments.push(PowerlineSegment::text(Color::Peach, badge_text('\u{e7ad}', trimmed.as_str(), 16)));
        }
    }
    if m.env.kubernetes {
        if let Some(k) = &env.kubernetes_context {
            let first = strip_literal(k.as_str(), "arn:aws:eks:");
            let trimmed = strip_literal(first.as_str(), "gke_");
            segments.push(PowerlineSegment::text(Color::Teal, badge_text('\u{2638}', trimmed.as_str(), 18)));
        }
    }
    assert(segment_views(segments@) =~= right_segments_spec(*m, *s));
    segments
}

} // verus!
