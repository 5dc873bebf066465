//! The fitting engines: the status line, filled to exactly the terminal
//! width by giving up detail in a fixed order, and the run pill.

use vstd::prelude::*;
use vstd::string::StringExecFns;
use crate::layout::collect_left_segments;
use crate::layout::collect_right_segments;
use crate::content::run_label_spec;
use crate::content::timer_text_spec;
use crate::layout::capsule_content;
use crate::layout::left_segments_spec;
use crate::layout::raw_view;
use crate::layout::right_segments_spec;
use crate::layout::run_segments_spec;
use crate::layout::run_state_segments;
use crate::middle::blank_span;
use crate::middle::blank_view;
use crate::middle::middle_spec;
use crate::middle::render_middle;
use crate::model::ContextVariant;
use crate::model::DEGRADE_STEPS;
use crate::model::DegradeOp;
use crate::model::EnvironmentInclusion;
use crate::model::GitVariant;
use crate::model::PathVariant;
use crate::model::RenderModel;
use crate::model::RunLabelVariant;
use crate::model::TokenVariant;
use crate::model::after;
use crate::model::applies;
use crate::model::lemma_no_richer_transitive;
use crate::model::next_degrade;
use crate::model::no_richer;
use crate::segments::Joint;
use crate::segments::compose;
use crate::segments::compose_segments;
use crate::snapshot::StatusLineSnapshot;
use crate::style::Line;
use crate::style::Span;
use crate::style::SpanView;
use crate::style::lemma_single_width;
use crate::style::lemma_spans_width_concat;
use crate::style::spans_display_width;
use crate::style::spans_width;
use crate::style::views;
use crate::text::display_width;
use crate::text::str_width;
use crate::text::trim;
use crate::text::truncate_to_width;
use crate::text::truncated_to_width;
use crate::timer::TimePoint;

verus! {

/// One attempt at the line: left and right segments at their natural width
/// and the middle region filling exactly what is left. Nothing when the
/// sides leave no room, the middle cannot fill the rest, or the whole is not
/// exactly `width` wide.
pub open spec fn try_spec(m: RenderModel, s: StatusLineSnapshot, width: nat, now: TimePoint) -> Option<Seq<SpanView>> {
    let left = compose(Joint::Left, left_segments_spec(m, s, now));
    let right = compose(Joint::Right, right_segments_spec(m, s));
    let lw = spans_width(left);
    let rw = spans_width(right);
    if lw + rw > width {
        None
    } else {
        match middle_spec(m, s, (width - lw - rw) as nat) {
            None => None,
            Some(mid) => {
                let line = left + mid + right;
                if spans_width(line) == width { Some(line) } else { None }
            },
        }
    }
}

/// Builds the line at the model's detail levels if it fits `width` exactly.
pub fn try_render_line(m: &RenderModel, s: &StatusLineSnapshot, width: usize, now: TimePoint) -> (r: Option<Vec<Span>>)
    ensures
        r matches Some(v) ==> try_spec(*m, *s, width as nat, now) == Some(views(v@)),
        r is None ==> try_spec(*m, *s, width as nat, now) is None,
{
    let mut left = compose_segments(Joint::Left, collect_left_segments(m, s, now));
    let mut right = compose_segments(Joint::Right, collect_right_segments(m, s));
    let lw = match spans_display_width(&left) {
        None => return None,
        Some(w) => w,
    };
    let rw = match spans_display_width(&right) {
        None => return None,
        Some(w) => w,
    };
    if lw > width || rw > width - lw {
        return None;
    }
    let mut middle = match render_middle(m, s, width - lw - rw) {
        None => return None,
        Some(v) => v,
    };
    let ghost lv = views(left@);
    let ghost mv = views(middle@);
    let ghost rv = views(right@);
    let mut line: Vec<Span> = Vec::new();
    line.append(&mut left);
    line.append(&mut middle);
    line.append(&mut right);
    assert(views(line@) =~= lv + mv + rv);
    match spans_display_width(&line) {
        Some(total) => {
            if total == width {
                Some(line)
            } else {
                None
            }
        },
        None => None,
    }
}

/// Keeps whole spans while they fit in `budget` columns; the first one that
/// does not is cut to the columns left (if its cut form fits) and ends it.
pub open spec fn fit_spans(spans: Seq<SpanView>, budget: nat) -> Seq<SpanView>
    decreases spans.len(),
{
    if spans.len() == 0 {
        Seq::empty()
    } else {
        let w0 = str_width(spans[0].text);
        if w0 <= budget {
            seq![spans[0]] + fit_spans(spans.drop_first(), (budget - w0) as nat)
        } else {
            let t = truncated_to_width(spans[0].text, budget);
            if str_width(t) <= budget {
                seq![SpanView { text: t, style: spans[0].style }]
            } else {
                Seq::empty()
            }
        }
    }
}

/// `spans` cut to `width` columns and padded with blanks to exactly `width`.
pub open spec fn fitted(spans: Seq<SpanView>, width: nat) -> Seq<SpanView> {
    let f = fit_spans(spans, width);
    let used = spans_width(f);
    if used < width {
        f + seq![blank_view((width - used) as nat)]
    } else {
        f
    }
}

/// Cuts `spans` to `width` columns and pads the rest with blanks.
pub fn fit_to_width(spans: Vec<Span>, width: usize) -> (r: Vec<Span>)
    ensures
        views(r@) == fitted(views(spans@), width as nat),
        spans_width(views(r@)) == width,
{
    let ghost all = views(spans@);
    let mut rest = spans;
    let mut out: Vec<Span> = Vec::new();
    let mut budget: usize = width;
    let mut done = false;
    proof {
        assert(views(rest@) =~= all);
        assert(views(out@) =~= Seq::<SpanView>::empty());
    }
    while rest.len() > 0 && !done
        invariant
            budget <= width,
            spans_width(views(out@)) + budget == width,
            !done ==> views(out@) + fit_spans(views(rest@), budget as nat) == fit_spans(all, width as nat),
            done ==> views(out@) == fit_spans(all, width as nat),
        decreases rest.len() + (if done { 0int } else { 1int }),
    {
        let ghost rv = views(rest@);
        let ghost ov = views(out@);
        let s = rest.remove(0);
        proof {
            assert(rv[0] == s@);
            assert(views(rest@) =~= rv.drop_first());
        }
        let w0 = display_width(s.content.as_str());
        if w0 <= budget {
            budget = budget - w0;
            out.push(s);
            proof {
                assert(views(out@) =~= ov + seq![s@]);
                lemma_spans_width_concat(ov, seq![s@]);
                lemma_single_width(s@);
                assert(views(out@) + fit_spans(views(rest@), budget as nat) =~= ov + fit_spans(rv, (budget + w0) as nat));
            }
        } else {
            let t = truncate_to_width(s.content.as_str(), budget);
            let tw = display_width(t.as_str());
            let style = s.style;
            if tw <= budget {
                budget = budget - tw;
                out.push(Span::styled(t, style));
                proof {
                    let one = seq![SpanView { text: truncated_to_width(rv[0].text, (budget + tw) as nat), style: rv[0].style }];
                    assert(views(out@) =~= ov + one);
                    lemma_spans_width_concat(ov, one);
                    lemma_single_width(one[0]);
                }
            } else {
                proof {
                    assert(ov + Seq::<SpanView>::empty() =~= ov);
                }
            }
            done = true;
        }
    }
    proof {
        if !done {
            assert(views(rest@).len() == 0);
            assert(views(out@) + Seq::<SpanView>::empty() =~= views(out@));
        }
    }
    let ghost f = views(out@);
    if budget > 0 {
        out.push(blank_span(budget));
        proof {
            assert(views(out@) =~= f + seq![blank_view(budget as nat)]);
            lemma_spans_width_concat(f, seq![blank_view(budget as nat)]);
            lemma_single_width(blank_view(budget as nat));
        }
    }
    out
}

} // verus!

verus! {

/// `parts` joined by ` | `.
pub open spec fn join_bar(parts: Seq<Seq<char>>) -> Seq<char>
    decreases parts.len(),
{
    if parts.len() == 0 {
        Seq::empty()
    } else if parts.len() == 1 {
        parts[0]
    } else {
        join_bar(parts.drop_last()) + seq![' ', '|', ' '] + parts.last()
    }
}

/// The pieces of the minimal summary: directory, model label, and git branch
/// with its dirty marker, each when known.
pub open spec fn fallback_parts(s: StatusLineSnapshot) -> Seq<Seq<char>> {
    (match s.cwd_fallback {
        Some(p) => seq![p@],
        None => match s.cwd_display {
            Some(p) => seq![p@],
            None => Seq::empty(),
        },
    }) + (match s.model {
        Some(m) => seq![m.label@],
        None => Seq::empty(),
    }) + (match s.git {
        Some(g) => match g.branch {
            Some(b) => seq![b@ + (if g.dirty { seq!['*'] } else { Seq::empty() })],
            None => Seq::empty(),
        },
        None => Seq::empty(),
    })
}

pub open spec fn placeholder() -> Seq<char> {
    seq!['c', 'o', 'd', 'e', 'x']
}

/// The minimal one-line summary, or the placeholder when nothing is known.
pub open spec fn fallback_text(s: StatusLineSnapshot) -> Seq<char> {
    let parts = fallback_parts(s);
    if parts.len() == 0 { placeholder() } else { join_bar(parts) }
}

/// The minimal summary of `s` as one unstyled string.
pub fn fallback_line(s: &StatusLineSnapshot) -> (r: String)
    ensures
        r@ == fallback_text(*s),
{
    let ghost sv = *s;
    let mut parts: Vec<String> = Vec::new();
    match &s.cwd_fallback {
        Some(p) => parts.push(p.clone()),
        None => match &s.cwd_display {
            Some(p) => parts.push(p.clone()),
            None => {},
        },
    }
    let ghost a: Seq<Seq<char>> = match sv.cwd_fallback {
        Some(p) => seq![p@],
        None => match sv.cwd_display {
            Some(p) => seq![p@],
            None => Seq::empty(),
        },
    };
    assert(parts@.map_values(|p: String| p@) =~= a);
    if let Some(m) = &s.model {
        parts.push(m.label.clone());
    }
    let ghost b: Seq<Seq<char>> = a + (match sv.model {
        Some(m) => seq![m.label@],
        None => Seq::empty(),
    });
    assert(parts@.map_values(|p: String| p@) =~= b);
    if let Some(g) = &s.git {
        if let Some(b) = &g.branch {
            let mut t = b.clone();
            if g.dirty {
                crate::text::push_char(&mut t, '*');
            }
            assert(t@ =~= b@ + (if g.dirty { seq!['*'] } else { Seq::empty() }));
            parts.push(t);
        }
    }
    let ghost pv = parts@.map_values(|p: String| p@);
    assert(pv =~= b + (match sv.git {
        Some(g) => match g.branch {
            Some(br) => seq![br@ + (if g.dirty { seq!['*'] } else { Seq::empty() })],
            None => Seq::empty(),
        },
        None => Seq::empty(),
    }));
    assert(pv =~= fallback_parts(*s));
    if parts.len() == 0 {
        let r = String::from_str("codex");
        proof {
            reveal_strlit("codex");
            assert(r@ =~= placeholder());
        }
        return r;
    }
    let mut out = parts[0].clone();
    let mut i: usize = 1;
    assert(pv.take(1).drop_last() =~= Seq::<Seq<char>>::empty());
    while i < parts.len()
        invariant
            1 <= i <= parts@.len(),
            pv == parts@.map_values(|p: String| p@),
            out@ == join_bar(pv.take(i as int)),
        decreases parts.len() - i,
    {
        proof {
            reveal_strlit(" | ");
            assert(" | "@ =~= seq![' ', '|', ' ']);
        }
        out.append(" | ");
        out.append(parts[i].as_str());
        proof {
            assert(pv.take(i + 1).drop_last() =~= pv.take(i as int));
        }
        i += 1;
    }
    assert(pv.take(parts@.len() as int) =~= pv);
    out
}

pub proof fn lemma_try_width(m: RenderModel, s: StatusLineSnapshot, width: nat, now: TimePoint)
    ensures
        try_spec(m, s, width, now) matches Some(l) ==> spans_width(l) == width,
{
}

/// The fallback line: the minimal summary cut and padded to `width`.
pub open spec fn fallback_spec(s: StatusLineSnapshot, width: nat) -> Seq<SpanView> {
    fitted(seq![raw_view(fallback_text(s))], width)
}

/// The status line: the first attempt that fits, giving up detail in the
/// fixed order between attempts, and the fallback line once the order is
/// used up.
pub open spec fn fit_spec(m: RenderModel, s: StatusLineSnapshot, width: nat, now: TimePoint) -> Seq<SpanView>
    decreases DEGRADE_STEPS - m.degrade_cursor,
{
    match try_spec(m, s, width, now) {
        Some(line) => line,
        None => {
            let (ok, m2) = next_degrade(m);
            if ok && m.degrade_cursor < m2.degrade_cursor <= DEGRADE_STEPS {
                fit_spec(m2, s, width, now)
            } else {
                fallback_spec(s, width)
            }
        },
    }
}

/// The status line of `snapshot` for a terminal `width` columns wide.
pub fn render_status_line(snapshot: &StatusLineSnapshot, width: u16, now: TimePoint) -> (r: Line)
    ensures
        spans_width(r@) == width as nat,
        width == 0 ==> r@.len() == 0,
        width > 0 ==> r@ == fit_spec(RenderModel::initial(snapshot), *snapshot, width as nat, now),
{
    let target = width as usize;
    if target == 0 {
        let r = Line { spans: Vec::new() };
        assert(r@ =~= Seq::<SpanView>::empty());
        return r;
    }
    let mut model = RenderModel::new(snapshot);
    loop
        invariant
            target == width as usize,
            target > 0,
            model.degrade_cursor <= DEGRADE_STEPS,
            no_richer(model, RenderModel::initial(snapshot)),
            fit_spec(model, *snapshot, target as nat, now) == fit_spec(
                RenderModel::initial(snapshot),
                *snapshot,
                target as nat,
                now,
            ),
        decreases DEGRADE_STEPS - model.degrade_cursor,
    {
        if let Some(spans) = try_render_line(&model, snapshot, target, now) {
            proof {
                lemma_try_width(model, *snapshot, target as nat, now);
                assert(fit_spec(model, *snapshot, target as nat, now) == views(spans@));
            }
            return Line { spans };
        }
        let ghost before = model;
        let ok = model.apply_next_degrade();
        proof {
            lemma_no_richer_transitive(model, before, RenderModel::initial(snapshot));
            assert(fit_spec(before, *snapshot, target as nat, now) == (if ok {
                fit_spec(model, *snapshot, target as nat, now)
            } else {
                fallback_spec(*snapshot, target as nat)
            }));
        }
        if !ok {
            let text = fallback_line(snapshot);
            let one = vec![Span::raw(text)];
            assert(views(one@) =~= seq![raw_view(fallback_text(*snapshot))]);
            let spans = fit_to_width(one, target);
            return Line { spans };
        }
    }
}

/// Drops the queue preview, or else hides the timer; says whether either
/// applied.
pub fn degrade_run_capsule(m: &mut RenderModel) -> (r: bool)
    ensures
        (r, *final(m)) == capsule_degrade(*old(m)),
{
    if m.apply_degrade(DegradeOp::DropQueuePreview) {
        return true;
    }
    m.apply_degrade(DegradeOp::HideRunTimer)
}

/// The capsule's own degradation: the queue preview first, then the timer.
pub open spec fn capsule_degrade(m: RenderModel) -> (bool, RenderModel) {
    if applies(m, DegradeOp::DropQueuePreview) {
        (true, after(m, DegradeOp::DropQueuePreview))
    } else if applies(m, DegradeOp::HideRunTimer) {
        (true, after(m, DegradeOp::HideRunTimer))
    } else {
        (false, m)
    }
}

/// The model of the run pill: only run-state elements, the queue preview
/// included and the interrupt hint off.
pub open spec fn pill_model(s: StatusLineSnapshot) -> RenderModel {
    RenderModel {
        path_variant: PathVariant::Hidden,
        token_variant: TokenVariant::Hidden,
        context_variant: ContextVariant::Hidden,
        git_variant: GitVariant::Hidden,
        env: EnvironmentInclusion { hostname: false, aws_profile: false, kubernetes: false, devspace: false },
        include_queue_preview: true,
        show_interrupt_hint: false,
        ..RenderModel::initial(&s)
    }
}

/// The capsule of the run pill at the model's detail levels.
pub open spec fn capsule_line(m: RenderModel, s: StatusLineSnapshot, now: TimePoint) -> Seq<SpanView> {
    compose(Joint::Capsule, run_segments_spec(m, s.run_state, now))
}

/// `line` with blanks after it up to `width` columns.
pub open spec fn pad_to(line: Seq<SpanView>, width: nat) -> Seq<SpanView> {
    let w = spans_width(line);
    if w < width { line + seq![blank_view((width - w) as nat)] } else { line }
}

/// Most attempts the pill makes before it cuts what it has.
pub const PILL_ATTEMPTS: usize = 8;

/// The run pill: the capsule padded to `width` as soon as it fits, dropping
/// the queue preview and then the timer while it does not, and cut to
/// `width` when nothing is left to drop.
pub open spec fn pill_spec(m: RenderModel, s: StatusLineSnapshot, width: nat, now: TimePoint, attempts: nat) -> Seq<SpanView>
    decreases (if m.include_queue_preview { 1int } else { 0int }) + (if m.show_run_timer { 1int } else { 0int }),
{
    let line = capsule_line(m, s, now);
    let w = spans_width(line);
    if w <= width {
        pad_to(line, width)
    } else {
        let (ok, m2) = capsule_degrade(m);
        if !ok || attempts + 1 > PILL_ATTEMPTS {
            fitted(line, width)
        } else {
            pill_spec(m2, s, width, now, attempts + 1)
        }
    }
}

/// The run pill of `snapshot`, exactly `width` columns wide.
pub fn render_status_run_pill(snapshot: &StatusLineSnapshot, width: u16, now: TimePoint) -> (r: Line)
    ensures
        spans_width(r@) == width as nat,
        width == 0 ==> r@.len() == 0,
        width > 0 ==> r@ == pill_spec(pill_model(*snapshot), *snapshot, width as nat, now, 0),
{
    let target = width as usize;
    if target == 0 {
        let r = Line { spans: Vec::new() };
        assert(r@ =~= Seq::<SpanView>::empty());
        return r;
    }
    let mut model = RenderModel::new(snapshot);
    model.path_variant = PathVariant::Hidden;
    model.token_variant = TokenVariant::Hidden;
    model.context_variant = ContextVariant::Hidden;
    model.git_variant = GitVariant::Hidden;
    model.env = EnvironmentInclusion::empty();
    model.include_queue_preview = true;
    model.show_interrupt_hint = false;
    assert(model == pill_model(*snapshot));
    let mut attempts: usize = 0;
    loop
        invariant
            attempts <= PILL_ATTEMPTS,
            target == width as usize,
            target > 0,
            pill_spec(model, *snapshot, target as nat, now, attempts as nat) == pill_spec(
                pill_model(*snapshot),
                *snapshot,
                target as nat,
                now,
                0,
            ),
        decreases (if model.include_queue_preview { 1int } else { 0int }) + (if model.show_run_timer { 1int } else { 0int }),
    {
        let segments = run_state_segments(&model, snapshot.run_state.as_ref(), now);
        let mut spans = compose_segments(Joint::Capsule, segments);
        let ghost line = views(spans@);
        assert(line == capsule_line(model, *snapshot, now));
        match spans_display_width(&spans) {
            Some(w) => {
                if w <= target {
                    if w < target {
                        spans.push(blank_span(target - w));
                        proof {
                            assert(views(spans@) =~= line + seq![blank_view((target - w) as nat)]);
                            lemma_spans_width_concat(line, seq![blank_view((target - w) as nat)]);
                            lemma_single_width(blank_view((target - w) as nat));
                        }
                    }
                    return Line { spans };
                }
            },
            None => {},
        }
        if !degrade_run_capsule(&mut model) {
            let spans = fit_to_width(spans, target);
            return Line { spans };
        }
        attempts += 1;
        if attempts > PILL_ATTEMPTS {
            let spans = fit_to_width(spans, target);
            return Line { spans };
        }
    }
}

/// Whenever the capsule fits without its queue preview, the pill shows the
/// capsule with the timer and label intact: the full capsule if that fits
/// too, else the capsule without the preview, padded to the width.
pub proof fn lemma_pill_keeps_timer_and_label(s: StatusLineSnapshot, width: nat, now: TimePoint)
    requires
        spans_width(capsule_line(after(pill_model(s), DegradeOp::DropQueuePreview), s, now)) <= width,
    ensures
        ({
            let m0 = pill_model(s);
            let m1 = after(m0, DegradeOp::DropQueuePreview);
            &&& m1.show_run_timer == m0.show_run_timer
            &&& m1.show_run_label == m0.show_run_label
            &&& m1.run_label_variant == m0.run_label_variant
            &&& (s.run_state matches Some(st) ==> {
                &&& capsule_content(m1, st, now) == capsule_content(m0, st, now)
                &&& (st.timer is Some ==> capsule_content(m0, st, now).contains(
                    raw_view(timer_text_spec(st, now)),
                ))
                &&& capsule_content(m0, st, now).contains(
                    raw_view(trim(run_label_spec(RunLabelVariant::Full, st.label@))),
                )
            })
            &&& pill_spec(m0, s, width, now, 0) == (if spans_width(capsule_line(m0, s, now)) <= width {
                pad_to(capsule_line(m0, s, now), width)
            } else {
                pad_to(capsule_line(m1, s, now), width)
            })
        }),
{
    let m0 = pill_model(s);
    let m1 = after(m0, DegradeOp::DropQueuePreview);
    assert(capsule_degrade(m0) == (true, m1));
    if let Some(st) = s.run_state {
        let c = capsule_content(m0, st, now);
        let label = raw_view(trim(run_label_spec(RunLabelVariant::Full, st.label@)));
        if st.timer is Some {
            assert(c[0] == raw_view(timer_text_spec(st, now)));
            assert(c[4] == label);
        } else {
            assert(c[2] == label);
        }
    }
    if spans_width(capsule_line(m0, s, now)) > width {
        assert(pill_spec(m0, s, width, now, 0) == pill_spec(m1, s, width, now, 1));
    }
}

/// How the status line and the run pill are drawn.
pub trait StatusLineRenderer {
    fn render(&self, snapshot: &StatusLineSnapshot, width: u16, now: TimePoint) -> (r: Line)
        ensures
            spans_width(r@) == width as nat,
    ;

    fn render_run_pill(&self, snapshot: &StatusLineSnapshot, width: u16, now: TimePoint) -> (r: Line)
        ensures
            spans_width(r@) == width as nat,
    ;
}

/// The built-in look.
#[derive(Debug, Default, Clone, Copy)]
pub struct DefaultStatusLineRenderer;

impl StatusLineRenderer for DefaultStatusLineRenderer {
    fn render(&self, snapshot: &StatusLineSnapshot, width: u16, now: TimePoint) -> (r: Line) {
        render_status_line(snapshot, width, now)
    }

    fn render_run_pill(&self, snapshot: &StatusLineSnapshot, width: u16, now: TimePoint) -> (r: Line) {
        render_status_run_pill(snapshot, width, now)
    }
}

/// An alternate skin over the same fitting engine.
#[derive(Debug, Default, Clone, Copy)]
pub struct CustomStatusLineRenderer;

impl StatusLineRenderer for CustomStatusLineRenderer {
    fn render(&self, snapshot: &StatusLineSnapshot, width: u16, now: TimePoint) -> (r: Line) {
        render_status_line(snapshot, width, now)
    }

    fn render_run_pill(&self, snapshot: &StatusLineSnapshot, width: u16, now: TimePoint) -> (r: Line) {
        render_status_run_pill(snapshot, width, now)
    }
}

} // verus!
