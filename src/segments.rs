//! Powerline composition: padded, coloured segments joined by cap glyphs
//! whose colours bridge neighbouring segments.

use vstd::prelude::*;
use crate::style::Color;
use crate::style::Span;
use crate::style::SpanView;
use crate::style::Style;
use crate::style::fg_bg_style;
use crate::style::fg_style;
use crate::style::views;
use crate::text::push_char;

verus! {

pub const LEFT_CURVE: char = '\u{e0b6}';
pub const RIGHT_CURVE: char = '\u{e0b4}';
pub const LEFT_CHEVRON: char = '\u{e0b0}';
pub const RIGHT_CHEVRON: char = '\u{e0b2}';

/// An accent colour and the spans shown on it.
#[derive(Debug)]
pub struct PowerlineSegment {
    pub accent: Color,
    pub spans: Vec<Span>,
}

/// What a segment shows.
pub struct SegmentView {
    pub accent: Color,
    pub spans: Seq<SpanView>,
}

impl View for PowerlineSegment {
    type V = SegmentView;

    open spec fn view(&self) -> SegmentView {
        SegmentView { accent: self.accent, spans: views(self.spans@) }
    }
}

pub open spec fn segment_views(segs: Seq<PowerlineSegment>) -> Seq<SegmentView> {
    segs.map_values(|s: PowerlineSegment| s@)
}

/// A one-character span.
pub open spec fn glyph(c: char, style: Style) -> SpanView {
    SpanView { text: seq![c], style }
}

/// A span set on a segment's accent: the accent becomes its background and
/// a missing foreground becomes the base colour.
pub open spec fn filled(s: SpanView, accent: Color) -> SpanView {
    SpanView {
        text: s.text,
        style: Style {
            bg: Some(accent),
            fg: if s.style.fg is None { Some(Color::Base) } else { s.style.fg },
            ..s.style
        },
    }
}

/// One column of padding in a segment's accent.
pub open spec fn pad_view(accent: Color) -> SpanView {
    glyph(' ', fg_bg_style(Color::Base, accent))
}

/// A segment's spans on its accent, with one column of padding on each side.
pub open spec fn padded(seg: SegmentView) -> Seq<SpanView> {
    seq![pad_view(seg.accent)] + seg.spans.map_values(|s: SpanView| filled(s, seg.accent))
        + seq![pad_view(seg.accent)]
}

/// Where a run of segments stands, which decides its cap glyphs.
#[derive(Clone, Copy, Debug, PartialEq, Eq, Structural)]
pub enum Joint {
    /// Left aligned: opens with a curve, closes with a chevron.
    Left,
    /// Right aligned: opens with a chevron, closes with a curve.
    Right,
    /// A free-standing capsule: curves at both ends.
    Capsule,
}

pub open spec fn open_glyph(j: Joint, accent: Color) -> SpanView {
    match j {
        Joint::Right => glyph(RIGHT_CHEVRON, fg_style(accent)),
        _ => glyph(LEFT_CURVE, fg_style(accent)),
    }
}

pub open spec fn bridge_glyph(j: Joint, prev: Color, next: Color) -> SpanView {
    match j {
        Joint::Right => glyph(RIGHT_CHEVRON, fg_bg_style(next, prev)),
        _ => glyph(LEFT_CHEVRON, fg_bg_style(prev, next)),
    }
}

pub open spec fn close_glyph(j: Joint, accent: Color) -> SpanView {
    match j {
        Joint::Left => glyph(LEFT_CHEVRON, fg_style(accent)),
        _ => glyph(RIGHT_CURVE, fg_style(accent)),
    }
}

/// The spans that follow a segment of accent `prev` when `rest` comes after it.
pub open spec fn compose_rest(j: Joint, prev: Color, rest: Seq<SegmentView>) -> Seq<SpanView>
    decreases rest.len(),
{
    if rest.len() == 0 {
        seq![close_glyph(j, prev)]
    } else {
        seq![bridge_glyph(j, prev, rest[0].accent)] + padded(rest[0]) + compose_rest(
            j,
            rest[0].accent,
            rest.drop_first(),
        )
    }
}

/// The composed spans of a run of segments; nothing at all for no segment.
pub open spec fn compose(j: Joint, segs: Seq<SegmentView>) -> Seq<SpanView> {
    if segs.len() == 0 {
        Seq::empty()
    } else {
        seq![open_glyph(j, segs[0].accent)] + padded(segs[0]) + compose_rest(
            j,
            segs[0].accent,
            segs.drop_first(),
        )
    }
}

fn glyph_span(c: char, style: Style) -> (r: Span)
    ensures
        r@ == glyph(c, style),
{
    let mut s = String::new();
    push_char(&mut s, c);
    assert(s@ =~= seq![c]);
    Span::styled(s, style)
}

fn open_span(j: Joint, accent: Color) -> (r: Span)
    ensures
        r@ == open_glyph(j, accent),
{
    match j {
        Joint::Right => glyph_span(RIGHT_CHEVRON, Style::fg(accent)),
        _ => glyph_span(LEFT_CURVE, Style::fg(accent)),
    }
}

fn bridge_span(j: Joint, prev: Color, next: Color) -> (r: Span)
    ensures
        r@ == bridge_glyph(j, prev, next),
{
    match j {
        Joint::Right => glyph_span(RIGHT_CHEVRON, Style::fg_bg(next, prev)),
        _ => glyph_span(LEFT_CHEVRON, Style::fg_bg(prev, next)),
    }
}

fn close_span(j: Joint, accent: Color) -> (r: Span)
    ensures
        r@ == close_glyph(j, accent),
{
    match j {
        Joint::Left => glyph_span(LEFT_CHEVRON, Style::fg(accent)),
        _ => glyph_span(RIGHT_CURVE, Style::fg(accent)),
    }
}

/// Sets a span on an accent colour.
pub fn apply_segment_fill(span: &mut Span, accent: Color)
    ensures
        final(span)@ == filled(old(span)@, accent),
{
    span.style.bg = Some(accent);
    if span.style.fg.is_none() {
        span.style.fg = Some(Color::Base);
    }
}

/// One column of padding in `accent`.
pub fn pad_segment_span(accent: Color) -> (r: Span)
    ensures
        r@ == pad_view(accent),
{
    glyph_span(' ', Style::fg_bg(Color::Base, accent))
}

impl PowerlineSegment {
    /// A segment of one unstyled text.
    pub fn text(accent: Color, text: String) -> (r: PowerlineSegment)
        ensures
            r@.accent == accent,
            r@.spans == seq![SpanView { text: text@, style: crate::style::plain_style() }],
    {
        let v = vec![Span::raw(text)];
        assert(views(v@) =~= seq![SpanView { text: text@, style: crate::style::plain_style() }]);
        PowerlineSegment { accent, spans: v }
    }

    pub fn from_spans(accent: Color, spans: Vec<Span>) -> (r: PowerlineSegment)
        ensures
            r@ == (SegmentView { accent, spans: views(spans@) }),
    {
        PowerlineSegment { accent, spans }
    }

    /// The segment's spans on its accent, padded by one column on each side.
    pub fn into_padded_spans(self) -> (r: Vec<Span>)
        ensures
            views(r@) == padded(self@),
    {
        let accent = self.accent;
        let mut spans = self.spans;
        let ghost original = views(spans@);
        let mut output: Vec<Span> = Vec::new();
        output.push(pad_segment_span(accent));
        let n = spans.len();
        let mut i: usize = 0;
        let mut rest: Vec<Span> = Vec::new();
        // Take the spans out front to back.
        while spans.len() > 0
            invariant
                original.len() == n,
                i + spans@.len() == n,
                views(spans@) == original.skip(i as int),
                views(output@) == seq![pad_view(accent)] + original.take(i as int).map_values(
                    |s: SpanView| filled(s, accent),
                ),
            decreases spans.len(),
        {
            let ghost sp = spans@;
            let ghost out_before = output@;
            let mut s = spans.remove(0);
            apply_segment_fill(&mut s, accent);
            output.push(s);
            proof {
                assert(views(sp)[0] == sp[0]@);
                assert(views(output@) =~= views(out_before).push(filled(original[i as int], accent)));
                assert(original.skip(i as int)[0] == original[i as int]);
                assert(original.skip(i + 1) =~= original.skip(i as int).drop_first());
                assert(views(spans@) =~= original.skip(i + 1));
                assert(original.take(i + 1).map_values(|s: SpanView| filled(s, accent))
                    =~= original.take(i as int).map_values(|s: SpanView| filled(s, accent)).push(
                    filled(original[i as int], accent),
                ));
                assert(views(output@) =~= seq![pad_view(accent)] + original.take(i + 1).map_values(
                    |s: SpanView| filled(s, accent),
                ));
            }
            i += 1;
        }
        output.push(pad_segment_span(accent));
        proof {
            assert(original.take(n as int) =~= original);
            assert(views(output@) =~= padded(self@));
        }
        output
    }
}

/// Joins segments into one run of spans with caps and colour bridges.
pub fn compose_segments(j: Joint, segments: Vec<PowerlineSegment>) -> (r: Vec<Span>)
    ensures
        views(r@) == compose(j, segment_views(segments@)),
{
    let ghost all = segment_views(segments@);
    let mut segments = segments;
    let mut out: Vec<Span> = Vec::new();
    if segments.len() == 0 {
        assert(views(out@) =~= compose(j, all));
        return out;
    }
    let first = segments.remove(0);
    let mut prev = first.accent;
    out.push(open_span(j, prev));
    let mut padded_first = first.into_padded_spans();
    out.append(&mut padded_first);
    proof {
        assert(segment_views(segments@) =~= all.drop_first());
        assert(views(out@) + compose_rest(j, prev, segment_views(segments@)) =~= compose(j, all));
    }
    while segments.len() > 0
        invariant
            views(out@) + compose_rest(j, prev, segment_views(segments@)) == compose(j, all),
        decreases segments.len(),
    {
        let ghost before = segment_views(segments@);
        let ghost out_before = views(out@);
        let seg = segments.remove(0);
        let accent = seg.accent;
        out.push(bridge_span(j, prev, accent));
        let mut body = seg.into_padded_spans();
        out.append(&mut body);
        proof {
            assert(segment_views(segments@) =~= before.drop_first());
            assert(before[0] == seg@);
            assert(views(out@) =~= out_before + seq![bridge_glyph(j, prev, accent)] + padded(seg@));
            assert(compose_rest(j, prev, before) == seq![bridge_glyph(j, prev, accent)] + padded(
                seg@,
            ) + compose_rest(j, accent, before.drop_first()));
            assert(views(out@) + compose_rest(j, accent, segment_views(segments@)) =~= out_before
                + compose_rest(j, prev, before));
        }
        prev = accent;
    }
    out.push(close_span(j, prev));
    proof {
        assert(views(out@) =~= compose(j, all));
    }
    out
}

} // verus!
