//! The middle region of the status line: a context-usage bar, a compact
//! percentage, or blank padding, always exactly as wide as asked.

use vstd::prelude::*;
use vstd::string::StringExecFns;
use crate::format::context_tier;
use crate::format::progress_glyph;
use crate::format::round_div;
use crate::format::select_progress_char;
use crate::format::tier_of;
use crate::model::ContextVariant;
use crate::model::RenderModel;
use crate::segments::LEFT_CURVE;
use crate::segments::RIGHT_CURVE;
use crate::snapshot::StatusLineContextSnapshot;
use crate::snapshot::StatusLineSnapshot;
use crate::style::Color;
use crate::style::Span;
use crate::style::SpanView;
use crate::style::Style;
use crate::style::dim_text_style;
use crate::style::fg_bg_style;
use crate::style::fg_style;
use crate::style::lemma_single_width;
use crate::style::lemma_spans_width_concat;
use crate::style::plain_style;
use crate::style::spans_display_width;
use crate::style::spans_width;
use crate::style::views;
use crate::text::dec;
use crate::text::digit_char;
use crate::text::display_width;
use crate::text::push_char;
use crate::text::push_decimal;
use crate::text::repeat_spaces;
use crate::text::spaces;
use crate::text::str_width;

verus! {

/// Columns of blank padding on each side of the bar.
pub const CONTEXT_PADDING: usize = 4;

pub open spec fn blank_view(n: nat) -> SpanView {
    SpanView { text: spaces(n), style: plain_style() }
}

/// Blank padding, `n` columns wide.
pub fn blank_span(n: usize) -> (r: Span)
    ensures
        r@ == blank_view(n as nat),
        str_width(r@.text) == n,
{
    Span::styled(repeat_spaces(n), Style::plain())
}

/// The bar's colour and the lighter colour behind its empty cells, by tier.
pub open spec fn tier_colors(tier: u8) -> (Color, Color) {
    if tier == 1 {
        (Color::Green, Color::GreenLight)
    } else if tier == 2 {
        (Color::Yellow, Color::YellowLight)
    } else if tier == 3 {
        (Color::Peach, Color::PeachLight)
    } else {
        (Color::Red, Color::RedLight)
    }
}

/// Colours of the context bar for a usage in hundredths of a percent.
pub fn context_bar_colors(percent_used_centi: u32) -> (r: (Color, Color))
    ensures
        r == tier_colors(tier_of(percent_used_centi as nat)),
{
    let tier = context_tier(percent_used_centi);
    if tier == 1 {
        (Color::Green, Color::GreenLight)
    } else if tier == 2 {
        (Color::Yellow, Color::YellowLight)
    } else if tier == 3 {
        (Color::Peach, Color::PeachLight)
    } else {
        (Color::Red, Color::RedLight)
    }
}

/// Context-window usage in tenths of a percent, from the tokens in the window.
pub open spec fn usage_tenths(c: StatusLineContextSnapshot) -> nat {
    if c.window > 0 {
        let t: nat = if c.tokens_in_context < 0 { 0 } else { c.tokens_in_context as nat };
        let v = round_div(t * 1000, c.window as nat);
        if v > 1000 { 1000 } else { v }
    } else {
        0
    }
}

/// The compact readout: context icon and usage with one decimal.
pub open spec fn compact_text(c: StatusLineContextSnapshot) -> Seq<char> {
    let t = usage_tenths(c);
    seq!['\u{e28c}', ' ', ' '] + dec(t / 10) + seq!['.', digit_char(t % 10), '%']
}

/// The compact readout padded to `width`, or nothing if it is wider.
pub open spec fn compact_spec(s: StatusLineSnapshot, width: nat) -> Option<Seq<SpanView>> {
    match s.context {
        None => None,
        Some(c) => {
            let text = compact_text(c);
            let w = str_width(text);
            if w > width {
                None
            } else {
                Some(seq![SpanView { text, style: dim_text_style() }] + (if width > w {
                    seq![blank_view((width - w) as nat)]
                } else {
                    Seq::empty()
                }))
            }
        },
    }
}

fn usage_tenths_of(c: &StatusLineContextSnapshot) -> (r: u64)
    ensures
        r == usage_tenths(*c),
        r <= 1000,
{
    if c.window > 0 {
        let t: u128 = if c.tokens_in_context < 0 { 0 } else { c.tokens_in_context as u128 };
        let n: u128 = t * 1000;
        let d: u128 = c.window as u128;
        let q = n / d;
        let rem = n % d;
        let v: u128 = if rem > d - rem || (rem == d - rem && q % 2 == 1) { q + 1 } else { q };
        assert(v == round_div(n as nat, d as nat));
        if v > 1000 { 1000 } else { v as u64 }
    } else {
        0
    }
}

/// The compact context readout, exactly `width` columns wide.
pub fn render_context_compact(s: &StatusLineSnapshot, width: usize) -> (r: Option<Vec<Span>>)
    ensures
        r matches Some(v) ==> spans_width(views(v@)) == width,
        r matches Some(v) ==> compact_spec(*s, width as nat) == Some(views(v@)),
        r is None ==> compact_spec(*s, width as nat) is None,
{
    let c = match &s.context {
        None => return None,
        Some(c) => c,
    };
    let t = usage_tenths_of(c);
    let mut text = String::new();
    push_char(&mut text, '\u{e28c}');
    push_char(&mut text, ' ');
    push_char(&mut text, ' ');
    push_decimal(&mut text, t / 10);
    push_char(&mut text, '.');
    push_decimal(&mut text, t % 10);
    push_char(&mut text, '%');
    assert(dec((t % 10) as nat) =~= seq![digit_char((t % 10) as nat)]);
    assert(text@ =~= compact_text(*c));
    let w = display_width(text.as_str());
    if w > width {
        return None;
    }
    let mut spans: Vec<Span> = Vec::new();
    spans.push(Span::styled(text, Style::dim_text()));
    if width > w {
        spans.push(blank_span(width - w));
    }
    assert(compact_spec(*s, width as nat) == Some(views(spans@)));
    proof {
        let first = SpanView { text: compact_text(*c), style: dim_text_style() };
        lemma_single_width(first);
        if width > w {
            lemma_spans_width_concat(seq![first], seq![blank_view((width - w) as nat)]);
            lemma_single_width(blank_view((width - w) as nat));
            assert(views(spans@) =~= seq![first] + seq![blank_view((width - w) as nat)]);
        } else {
            assert(views(spans@) =~= seq![first]);
        }
    }
    Some(spans)
}

pub open spec fn context_label() -> Seq<char> {
    seq!['\u{e28c}', ' ', 'C', 'o', 'n', 't', 'e', 'x', 't', ' ']
}

/// ` <remaining>.0% left`.
pub open spec fn percent_left_text(remaining: u8) -> Seq<char> {
    seq![' '] + dec(remaining as nat) + seq!['.', '0', '%', ' ', 'l', 'e', 'f', 't']
}

/// Percent of the window in use: `100 - remaining`, floored at zero.
pub open spec fn percent_used(remaining: u8) -> nat {
    if remaining >= 100 { 0 } else { (100 - remaining) as nat }
}

/// The bar's cells: `filled` full ones from the left, the rest empty.
pub open spec fn bar_cells(fill: nat, filled: nat, accent: Color, light: Color) -> Seq<SpanView> {
    Seq::new(fill, |i: int| SpanView {
        text: seq![progress_glyph(i as nat, fill, filled)],
        style: fg_bg_style(accent, light),
    })
}

/// The bar's spans for `width` columns once it is wider than the padding,
/// caps and texts need: padding, caps, label, `fill` cells and percentage.
pub open spec fn bar_spans(c: StatusLineContextSnapshot, width: nat) -> Seq<SpanView> {
    let label = context_label();
    let pct = percent_left_text(c.percent_remaining);
    let text_width = str_width(label) + str_width(pct) + 2;
    let fill = (width - 2 * CONTEXT_PADDING - text_width) as nat;
    let used = percent_used(c.percent_remaining);
    let filled = (fill * used + 50) / 100;
    let (accent, light) = tier_colors(tier_of(used * 100));
    seq![
        blank_view(CONTEXT_PADDING as nat),
        SpanView { text: seq![LEFT_CURVE], style: fg_style(accent) },
        SpanView { text: label, style: fg_bg_style(Color::Base, accent) },
    ] + bar_cells(fill, filled, accent, light) + seq![
        SpanView { text: pct, style: fg_bg_style(Color::Base, accent) },
        SpanView { text: seq![RIGHT_CURVE], style: fg_style(accent) },
        blank_view(CONTEXT_PADDING as nat),
    ]
}

/// The labelled bar for `width` columns. Nothing when `width` is no more
/// than the padding, caps and texts need, or when the bar's glyphs do not
/// come to exactly `width` columns.
pub open spec fn bar_spec(s: StatusLineSnapshot, width: nat) -> Option<Seq<SpanView>> {
    match s.context {
        None => None,
        Some(c) => {
            let text_width = str_width(context_label()) + str_width(percent_left_text(c.percent_remaining)) + 2;
            if width <= 2 * CONTEXT_PADDING + text_width {
                None
            } else if spans_width(bar_spans(c, width)) == width {
                Some(bar_spans(c, width))
            } else {
                None
            }
        },
    }
}

fn char_span(c: char, style: Style) -> (r: Span)
    ensures
        r@ == (SpanView { text: seq![c], style }),
{
    let mut s = String::new();
    push_char(&mut s, c);
    assert(s@ =~= seq![c]);
    Span::styled(s, style)
}

/// The bar cells, left to right.
pub fn build_progress_bar(fill_width: usize, filled_width: usize, accent: Color, light_bg: Color) -> (r: Vec<Span>)
    ensures
        views(r@) == bar_cells(fill_width as nat, filled_width as nat, accent, light_bg),
{
    let mut spans: Vec<Span> = Vec::new();
    let mut position: usize = 0;
    while position < fill_width
        invariant
            position <= fill_width,
            views(spans@) == bar_cells(fill_width as nat, filled_width as nat, accent, light_bg).take(
                position as int,
            ),
        decreases fill_width - position,
    {
        let glyph = select_progress_char(position, fill_width, filled_width);
        let ghost before = views(spans@);
        spans.push(char_span(glyph, Style::fg_bg(accent, light_bg)));
        proof {
            let cells = bar_cells(fill_width as nat, filled_width as nat, accent, light_bg);
            assert(cells[position as int] == (SpanView {
                text: seq![progress_glyph(position as nat, fill_width as nat, filled_width as nat)],
                style: fg_bg_style(accent, light_bg),
            }));
            assert(views(spans@) =~= before.push(cells[position as int]));
            assert(cells.take(position + 1) =~= cells.take(position as int).push(cells[position as int]));
        }
        position += 1;
        assert(views(spans@) =~= bar_cells(fill_width as nat, filled_width as nat, accent, light_bg).take(
            position as int,
        ));
    }
    assert(bar_cells(fill_width as nat, filled_width as nat, accent, light_bg).take(fill_width as int)
        =~= bar_cells(fill_width as nat, filled_width as nat, accent, light_bg));
    spans
}

/// The labelled context bar, exactly `width` columns wide when given.
pub fn render_context_bar(s: &StatusLineSnapshot, width: usize) -> (r: Option<Vec<Span>>)
    ensures
        r matches Some(v) ==> spans_width(views(v@)) == width,
        r matches Some(v) ==> bar_spec(*s, width as nat) == Some(views(v@)),
        r is None ==> bar_spec(*s, width as nat) is None,
{
    let c = match &s.context {
        None => return None,
        Some(c) => c,
    };
    let label = String::from_str("\u{e28c} Context ");
    proof {
        reveal_strlit("\u{e28c} Context ");
        assert(label@ =~= context_label());
    }
    let mut pct = String::new();
    push_char(&mut pct, ' ');
    push_decimal(&mut pct, c.percent_remaining as u64);
    push_char(&mut pct, '.');
    push_char(&mut pct, '0');
    push_char(&mut pct, '%');
    push_char(&mut pct, ' ');
    push_char(&mut pct, 'l');
    push_char(&mut pct, 'e');
    push_char(&mut pct, 'f');
    push_char(&mut pct, 't');
    assert(pct@ =~= percent_left_text(c.percent_remaining));
    let lw = display_width(label.as_str());
    let pw = display_width(pct.as_str());
    let text_width: u128 = lw as u128 + pw as u128 + 2;
    if width as u128 <= 2 * (CONTEXT_PADDING as u128) + text_width {
        return None;
    }
    let fill: usize = (width as u128 - 2 * (CONTEXT_PADDING as u128) - text_width) as usize;
    let used: u64 = if c.percent_remaining >= 100 { 0 } else { 100 - c.percent_remaining as u64 };
    assert(fill as nat * used as nat <= fill as nat * 100) by (nonlinear_arith)
        requires used <= 100;
    let product: u128 = fill as u128 * used as u128;
    let filled_wide: u128 = (product + 50) / 100;
    assert(filled_wide <= fill as u128) by (nonlinear_arith)
        requires product <= fill as u128 * 100, filled_wide == (product + 50) / 100;
    let filled: usize = filled_wide as usize;
    let (accent, light) = context_bar_colors((used * 100) as u32);
    let mut spans: Vec<Span> = Vec::new();
    spans.push(blank_span(CONTEXT_PADDING));
    spans.push(char_span(LEFT_CURVE, Style::fg(accent)));
    spans.push(Span::styled(label, Style::fg_bg(Color::Base, accent)));
    let mut bar = build_progress_bar(fill, filled, accent, light);
    spans.append(&mut bar);
    spans.push(Span::styled(pct, Style::fg_bg(Color::Base, accent)));
    spans.push(char_span(RIGHT_CURVE, Style::fg(accent)));
    spans.push(blank_span(CONTEXT_PADDING));
    assert(views(spans@) == bar_spans(*c, width as nat));
    match spans_display_width(&spans) {
        Some(total) => if total == width { Some(spans) } else { None },
        None => None,
    }
}

/// The middle region at the model's context detail.
pub open spec fn middle_spec(m: RenderModel, s: StatusLineSnapshot, width: nat) -> Option<Seq<SpanView>> {
    if width == 0 {
        Some(Seq::empty())
    } else {
        match m.context_variant {
            ContextVariant::Hidden => Some(seq![blank_view(width)]),
            ContextVariant::Compact => compact_spec(s, width),
            ContextVariant::Bar => bar_spec(s, width),
        }
    }
}

/// The middle region, `width` columns wide, or nothing if the model's context
/// detail cannot fill exactly that.
pub fn render_middle(m: &RenderModel, s: &StatusLineSnapshot, width: usize) -> (r: Option<Vec<Span>>)
    ensures
        r matches Some(v) ==> spans_width(views(v@)) == width,
        r matches Some(v) ==> middle_spec(*m, *s, width as nat) == Some(views(v@)),
        r is None ==> middle_spec(*m, *s, width as nat) is None,
{
    if width == 0 {
        let v: Vec<Span> = Vec::new();
        assert(views(v@) =~= Seq::<SpanView>::empty());
        return Some(v);
    }
    match m.context_variant {
        ContextVariant::Hidden => {
            let v = vec![blank_span(width)];
            assert(views(v@) =~= seq![blank_view(width as nat)]);
            proof {
                lemma_single_width(blank_view(width as nat));
            }
            Some(v)
        },
        ContextVariant::Compact => render_context_compact(s, width),
        ContextVariant::Bar => render_context_bar(s, width),
    }
}

} // verus!
