//! Styled text: colours, styles, spans and lines, and the width of a line.

use vstd::prelude::*;
use crate::text::display_width;
use crate::text::str_width;

verus! {

/// The palette of the status line.
#[derive(Clone, Copy, Debug, PartialEq, Eq, Structural)]
pub enum Color {
    Base,
    Lavender,
    Sky,
    Mauve,
    Peach,
    Green,
    Yellow,
    Red,
    Rosewater,
    Teal,
    Subtext0,
    GreenLight,
    YellowLight,
    PeachLight,
    RedLight,
}

impl Color {
    /// The colour's red, green and blue components.
    pub open spec fn rgb_spec(self) -> (u8, u8, u8) {
        match self {
            Color::Base => (30, 30, 46),
            Color::Lavender => (180, 190, 254),
            Color::Sky => (137, 220, 235),
            Color::Mauve => (203, 166, 247),
            Color::Peach => (250, 179, 135),
            Color::Green => (166, 227, 161),
            Color::Yellow => (249, 226, 175),
            Color::Red => (243, 139, 168),
            Color::Rosewater => (245, 224, 220),
            Color::Teal => (148, 226, 213),
            Color::Subtext0 => (166, 173, 200),
            Color::GreenLight => (86, 127, 81),
            Color::YellowLight => (149, 136, 95),
            Color::PeachLight => (150, 107, 81),
            Color::RedLight => (146, 83, 100),
        }
    }

    /// The colour's red, green and blue components.
    pub fn rgb(self) -> (r: (u8, u8, u8))
        ensures
            r == self.rgb_spec(),
    {
        match self {
            Color::Base => (30, 30, 46),
            Color::Lavender => (180, 190, 254),
            Color::Sky => (137, 220, 235),
            Color::Mauve => (203, 166, 247),
            Color::Peach => (250, 179, 135),
            Color::Green => (166, 227, 161),
            Color::Yellow => (249, 226, 175),
            Color::Red => (243, 139, 168),
            Color::Rosewater => (245, 224, 220),
            Color::Teal => (148, 226, 213),
            Color::Subtext0 => (166, 173, 200),
            Color::GreenLight => (86, 127, 81),
            Color::YellowLight => (149, 136, 95),
            Color::PeachLight => (150, 107, 81),
            Color::RedLight => (146, 83, 100),
        }
    }
}

/// Foreground, background and text modifiers of a span.
#[derive(Clone, Copy, Debug, PartialEq, Eq, Structural)]
pub struct Style {
    pub fg: Option<Color>,
    pub bg: Option<Color>,
    pub bold: bool,
    pub italic: bool,
    pub dim: bool,
}

pub open spec fn plain_style() -> Style {
    Style { fg: None, bg: None, bold: false, italic: false, dim: false }
}

pub open spec fn fg_style(c: Color) -> Style {
    Style { fg: Some(c), ..plain_style() }
}

pub open spec fn fg_bg_style(fg: Color, bg: Color) -> Style {
    Style { fg: Some(fg), bg: Some(bg), ..plain_style() }
}

pub open spec fn dim_style() -> Style {
    Style { dim: true, ..plain_style() }
}

pub open spec fn dim_text_style() -> Style {
    Style { fg: Some(Color::Subtext0), dim: true, ..plain_style() }
}

pub open spec fn queue_style() -> Style {
    Style { fg: Some(Color::Subtext0), italic: true, dim: true, ..plain_style() }
}

impl Style {
    /// No colour and no modifier.
    pub fn plain() -> (r: Style)
        ensures
            r == plain_style(),
    {
        Style { fg: None, bg: None, bold: false, italic: false, dim: false }
    }

    /// Coloured text on the default background.
    pub fn fg(c: Color) -> (r: Style)
        ensures
            r == fg_style(c),
    {
        Style { fg: Some(c), bg: None, bold: false, italic: false, dim: false }
    }

    /// Coloured text on a coloured background.
    pub fn fg_bg(fg: Color, bg: Color) -> (r: Style)
        ensures
            r == fg_bg_style(fg, bg),
    {
        Style { fg: Some(fg), bg: Some(bg), bold: false, italic: false, dim: false }
    }

    /// Dimmed text.
    pub fn dim() -> (r: Style)
        ensures
            r == dim_style(),
    {
        Style { fg: None, bg: None, bold: false, italic: false, dim: true }
    }

    /// Dimmed secondary text.
    pub fn dim_text() -> (r: Style)
        ensures
            r == dim_text_style(),
    {
        Style { fg: Some(Color::Subtext0), bg: None, bold: false, italic: false, dim: true }
    }

    /// The style of a queued-message preview.
    pub fn queue_preview() -> (r: Style)
        ensures
            r == queue_style(),
    {
        Style { fg: Some(Color::Subtext0), bg: None, bold: false, italic: true, dim: true }
    }
}

/// What a span shows: its text and style.
pub struct SpanView {
    pub text: Seq<char>,
    pub style: Style,
}

/// A run of text in one style.
#[derive(Debug)]
pub struct Span {
    pub content: String,
    pub style: Style,
}

impl View for Span {
    type V = SpanView;

    open spec fn view(&self) -> SpanView {
        SpanView { text: self.content@, style: self.style }
    }
}

impl Span {
    pub fn styled(content: String, style: Style) -> (r: Span)
        ensures
            r@ == (SpanView { text: content@, style }),
    {
        Span { content, style }
    }

    /// Unstyled text.
    pub fn raw(content: String) -> (r: Span)
        ensures
            r@ == (SpanView { text: content@, style: plain_style() }),
    {
        Span { content, style: Style::plain() }
    }
}

/// The views of a sequence of spans.
pub open spec fn views(spans: Seq<Span>) -> Seq<SpanView> {
    spans.map_values(|s: Span| s@)
}

/// Display width of a sequence of spans: the sum of their widths.
pub open spec fn spans_width(spans: Seq<SpanView>) -> nat
    decreases spans.len(),
{
    if spans.len() == 0 {
        0
    } else {
        spans_width(spans.drop_last()) + str_width(spans.last().text)
    }
}

pub proof fn lemma_spans_width_concat(a: Seq<SpanView>, b: Seq<SpanView>)
    ensures
        spans_width(a + b) == spans_width(a) + spans_width(b),
    decreases b.len(),
{
    if b.len() == 0 {
        assert(a + b =~= a);
    } else {
        assert((a + b).drop_last() =~= a + b.drop_last());
        lemma_spans_width_concat(a, b.drop_last());
    }
}

/// The width of one span is the width of its text.
pub proof fn lemma_single_width(v: SpanView)
    ensures
        spans_width(seq![v]) == str_width(v.text),
{
    assert(seq![v].drop_last() =~= Seq::<SpanView>::empty());
    assert(seq![v].last() == v);
    assert(spans_width(Seq::<SpanView>::empty()) == 0);
    assert(spans_width(seq![v]) == spans_width(seq![v].drop_last()) + str_width(v.text));
}

/// A line of styled spans.
#[derive(Debug)]
pub struct Line {
    pub spans: Vec<Span>,
}

impl View for Line {
    type V = Seq<SpanView>;

    open spec fn view(&self) -> Seq<SpanView> {
        views(self.spans@)
    }
}

/// The number of columns that `spans` take, or `None` past `usize::MAX`.
pub fn spans_display_width(spans: &Vec<Span>) -> (r: Option<usize>)
    ensures
        r == (if spans_width(views(spans@)) <= usize::MAX {
            Some(spans_width(views(spans@)) as usize)
        } else {
            None::<usize>
        }),
{
    let mut total: usize = 0;
    let mut i: usize = 0;
    while i < spans.len()
        invariant
            i <= spans@.len(),
            total == spans_width(views(spans@.take(i as int))),
        decreases spans.len() - i,
    {
        let w = display_width(spans[i].content.as_str());
        proof {
            assert(views(spans@.take(i + 1)).drop_last() =~= views(spans@.take(i as int)));
        }
        if w > usize::MAX - total {
            proof {
                lemma_views_prefix_width_grows(spans@, i as int + 1);
            }
            return None;
        }
        total = total + w;
        i += 1;
    }
    assert(spans@.take(spans@.len() as int) =~= spans@);
    Some(total)
}

proof fn lemma_views_prefix_width_grows(spans: Seq<Span>, k: int)
    requires
        0 <= k <= spans.len(),
    ensures
        spans_width(views(spans.take(k))) <= spans_width(views(spans)),
    decreases spans.len() - k,
{
    if k < spans.len() {
        lemma_views_prefix_width_grows(spans, k + 1);
        assert(views(spans.take(k + 1)).drop_last() =~= views(spans.take(k)));
    } else {
        assert(spans.take(k) =~= spans);
    }
}

} // verus!
