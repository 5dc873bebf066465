//! Text measurement and construction: display widths, grapheme-aware
//! truncation and small string builders.

use vstd::prelude::*;
use vstd::string::StringExecFns;
use vstd::string::StrSliceExecFns;
use unicode_segmentation::UnicodeSegmentation;
use unicode_width::UnicodeWidthStr;

verus! {

/// Terminal column count of a string, as computed by the width tables.
pub uninterp spec fn str_width(s: Seq<char>) -> nat;

/// A run made only of spaces.
pub open spec fn all_spaces(s: Seq<char>) -> bool {
    forall|i: int| 0 <= i < s.len() ==> s[i] == ' '
}

/// Printable ASCII characters, each one column wide.
pub open spec fn printable_ascii(s: Seq<char>) -> bool {
    forall|i: int| 0 <= i < s.len() ==> ' ' <= #[trigger] s[i] <= '~'
}

/// Relies on `UnicodeWidthStr::width` (unicode-width): the width depends on
/// the characters alone, and every printable ASCII character (spaces
/// included) takes exactly one column.
#[verifier::external_body]
pub(crate) fn display_width(s: &str) -> (r: usize)
    ensures
        r as nat == str_width(s@),
        printable_ascii(s@) ==> r == s@.len(),
{
    UnicodeWidthStr::width(s)
}

/// Relies on `String::push`: appends one character.
#[verifier::external_body]
pub(crate) fn push_char(s: &mut String, c: char)
    ensures
        final(s)@ == old(s)@.push(c),
{
    s.push(c)
}

/// `n` spaces.
pub open spec fn spaces(n: nat) -> Seq<char> {
    Seq::new(n, |i: int| ' ')
}

/// A string of `n` spaces.
pub fn repeat_spaces(n: usize) -> (r: String)
    ensures
        r@ == spaces(n as nat),
        str_width(r@) == n,
{
    let mut r = String::new();
    let mut i: usize = 0;
    while i < n
        invariant
            i <= n,
            r@ == spaces(i as nat),
        decreases n - i,
    {
        push_char(&mut r, ' ');
        i += 1;
        assert(r@ =~= spaces(i as nat));
    }
    let measured = display_width(r.as_str());
    assert(measured == n);
    r
}

/// The characters of a string, in order.
pub fn chars_of(s: &str) -> (r: Vec<char>)
    ensures
        r@ == s@,
{
    let n = s.unicode_len();
    let mut r: Vec<char> = Vec::new();
    let mut i: usize = 0;
    while i < n
        invariant
            n == s@.len(),
            i <= n,
            r@ == s@.take(i as int),
        decreases n - i,
    {
        let c = s.get_char(i);
        r.push(c);
        i += 1;
        assert(r@ =~= s@.take(i as int));
    }
    assert(r@ =~= s@);
    r
}

/// Appends a sequence of characters to `out`.
pub fn push_chars(out: &mut String, cs: &Vec<char>)
    ensures
        final(out)@ == old(out)@ + cs@,
{
    let ghost start = out@;
    let mut i: usize = 0;
    while i < cs.len()
        invariant
            i <= cs@.len(),
            out@ == start + cs@.take(i as int),
        decreases cs.len() - i,
    {
        push_char(out, cs[i]);
        i += 1;
        assert(out@ =~= start + cs@.take(i as int));
    }
    assert(cs@.take(cs@.len() as int) =~= cs@);
}

/// A string holding the given characters.
pub fn string_of(cs: &Vec<char>) -> (r: String)
    ensures
        r@ == cs@,
{
    let mut r = String::new();
    push_chars(&mut r, cs);
    assert(r@ =~= cs@);
    r
}

// ---------------------------------------------------------------------
// Decimal numbers

pub open spec fn digit_char(d: nat) -> char {
    if d == 0 { '0' } else if d == 1 { '1' } else if d == 2 { '2' } else if d == 3 { '3' }
    else if d == 4 { '4' } else if d == 5 { '5' } else if d == 6 { '6' } else if d == 7 { '7' }
    else if d == 8 { '8' } else { '9' }
}

/// Decimal digits of `n`, without leading zeros ("0" for zero).
pub open spec fn dec(n: nat) -> Seq<char>
    decreases n,
{
    if n < 10 {
        seq![digit_char(n)]
    } else {
        dec(n / 10).push(digit_char(n % 10))
    }
}

/// Two decimal digits, zero padded (`n < 100`).
pub open spec fn dec2(n: nat) -> Seq<char> {
    seq![digit_char(n / 10), digit_char(n % 10)]
}

/// The character of a decimal digit.
pub fn digit(d: u64) -> (c: char)
    requires
        d < 10,
    ensures
        c == digit_char(d as nat),
{
    if d == 0 { '0' } else if d == 1 { '1' } else if d == 2 { '2' } else if d == 3 { '3' }
    else if d == 4 { '4' } else if d == 5 { '5' } else if d == 6 { '6' } else if d == 7 { '7' }
    else if d == 8 { '8' } else { '9' }
}

/// Appends the decimal digits of `n`.
pub fn push_decimal(out: &mut String, n: u64)
    ensures
        final(out)@ == old(out)@ + dec(n as nat),
    decreases n,
{
    if n < 10 {
        push_char(out, digit(n));
        assert(dec(n as nat) =~= seq![digit_char(n as nat)]);
    } else {
        push_decimal(out, n / 10);
        push_char(out, digit(n % 10));
        assert(dec(n as nat) =~= dec((n / 10) as nat).push(digit_char((n % 10) as nat)));
    }
}

/// Appends two zero-padded decimal digits of `n`.
pub fn push_decimal2(out: &mut String, n: u64)
    requires
        n < 100,
    ensures
        final(out)@ == old(out)@ + dec2(n as nat),
{
    push_char(out, digit(n / 10));
    push_char(out, digit(n % 10));
    assert(final(out)@ =~= old(out)@ + dec2(n as nat));
}

// ---------------------------------------------------------------------
// Grapheme clusters

/// The extended grapheme clusters of a string, in order.
pub uninterp spec fn grapheme_clusters(s: Seq<char>) -> Seq<Seq<char>>;

/// Relies on `UnicodeSegmentation::graphemes(s, true)` (unicode-segmentation):
/// the extended grapheme clusters of `s`, which depend on its characters alone.
#[verifier::external_body]
pub(crate) fn graphemes(s: &str) -> (r: Vec<String>)
    ensures
        r@.len() == grapheme_clusters(s@).len(),
        forall|i: int| 0 <= i < r@.len() ==> #[trigger] r@[i]@ == grapheme_clusters(s@)[i],
{
    s.graphemes(true).map(|g| g.to_string()).collect()
}

/// The horizontal ellipsis that marks truncated text.
pub open spec fn ellipsis() -> Seq<char> {
    seq!['\u{2026}']
}

/// At most `max` grapheme clusters of `text`; when some are cut, the last
/// kept position holds an ellipsis instead.
pub open spec fn truncated_graphemes(text: Seq<char>, max: nat) -> Seq<char> {
    let g = grapheme_clusters(text);
    if max == 0 {
        Seq::empty()
    } else if g.len() <= max {
        text
    } else if max == 1 {
        ellipsis()
    } else {
        g.take(max - 1).flatten() + ellipsis()
    }
}

/// Concatenation of the first `k` strings of `parts`.
fn concat_prefix(parts: &Vec<String>, k: usize) -> (r: String)
    requires
        k <= parts@.len(),
    ensures
        r@ == parts@.take(k as int).map_values(|p: String| p@).flatten(),
{
    let mut r = String::new();
    let mut i: usize = 0;
    while i < k
        invariant
            k <= parts@.len(),
            i <= k,
            r@ == parts@.take(i as int).map_values(|p: String| p@).flatten(),
        decreases k - i,
    {
        let ghost before = parts@.take(i as int).map_values(|p: String| p@);
        r.append(parts[i].as_str());
        i += 1;
        proof {
            let after = parts@.take(i as int).map_values(|p: String| p@);
            assert(after =~= before.push(parts@[i - 1]@));
            before.lemma_flatten_push(parts@[i - 1]@);
        }
    }
    r
}

/// Shortens `text` to at most `max` grapheme clusters, ending a shortened
/// result with an ellipsis.
pub fn truncate_graphemes(text: &str, max: usize) -> (r: String)
    ensures
        r@ == truncated_graphemes(text@, max as nat),
{
    if max == 0 {
        return String::new();
    }
    let g = graphemes(text);
    if g.len() <= max {
        return String::from_str(text);
    }
    proof {
        reveal_strlit("\u{2026}");
        assert("\u{2026}"@ =~= ellipsis());
    }
    if max == 1 {
        return String::from_str("\u{2026}");
    }
    let mut r = concat_prefix(&g, max - 1);
    r.append("\u{2026}");
    proof {
        assert(g@.take(max - 1).map_values(|p: String| p@) =~= grapheme_clusters(text@).take(max - 1));
    }
    r
}

} // verus!

verus! {

// ---------------------------------------------------------------------
// Truncation by display width

/// How many leading clusters of `gs` fit, one after another, in `budget`
/// columns.
pub open spec fn greedy_fit(gs: Seq<Seq<char>>, budget: int) -> nat
    decreases gs.len(),
{
    if gs.len() == 0 || str_width(gs[0]) > budget {
        0
    } else {
        1 + greedy_fit(gs.drop_first(), budget - str_width(gs[0]))
    }
}

/// The first `k` clusters and an ellipsis, with fewer clusters while that is
/// wider than `max` columns; nothing when not even the ellipsis fits.
pub open spec fn shrink_to_fit(gs: Seq<Seq<char>>, k: nat, max: nat) -> Seq<char>
    decreases k,
{
    let candidate = gs.take(k as int).flatten() + ellipsis();
    if str_width(candidate) <= max {
        candidate
    } else if k == 0 {
        Seq::empty()
    } else {
        shrink_to_fit(gs, (k - 1) as nat, max)
    }
}

/// `text` when it fits in `max` columns; otherwise the leading clusters that
/// fit in `max - 1` columns followed by an ellipsis, cut further if the
/// whole is still wider than `max`.
pub open spec fn truncated_to_width(text: Seq<char>, max: nat) -> Seq<char> {
    if str_width(text) <= max {
        text
    } else {
        let gs = grapheme_clusters(text);
        let budget: int = if max == 0 { 0 } else { max - 1 };
        shrink_to_fit(gs, greedy_fit(gs, budget), max)
    }
}

/// Shortens `text` to `max` display columns, cutting at grapheme cluster
/// boundaries and marking the cut with an ellipsis.
pub fn truncate_to_width(text: &str, max: usize) -> (r: String)
    ensures
        r@ == truncated_to_width(text@, max as nat),
        str_width(r@) <= max,
{
    if display_width(text) <= max {
        return String::from_str(text);
    }
    let g = graphemes(text);
    let ghost gs = grapheme_clusters(text@);
    let budget: usize = if max == 0 { 0 } else { max - 1 };
    let mut used: usize = 0;
    let mut k: usize = 0;
    let mut done = false;
    assert(gs.skip(0) =~= gs);
    while k < g.len() && !done
        invariant
            g@.len() == gs.len(),
            forall|i: int| 0 <= i < g@.len() ==> #[trigger] g@[i]@ == gs[i],
            k <= g@.len(),
            used <= budget,
            !done ==> greedy_fit(gs, budget as int) == k + greedy_fit(gs.skip(k as int), budget - used),
            done ==> greedy_fit(gs, budget as int) == k,
        decreases g.len() - k + (if done { 0int } else { 1int }),
    {
        let w = display_width(g[k].as_str());
        proof {
            assert(gs.skip(k as int)[0] == gs[k as int]);
            assert(gs.skip(k as int).drop_first() =~= gs.skip(k + 1));
        }
        if w <= budget - used {
            used = used + w;
            k += 1;
        } else {
            done = true;
        }
    }
    proof {
        if !done {
            assert(gs.skip(k as int).len() == 0);
        }
    }
    proof {
        reveal_strlit("\u{2026}");
    }
    loop
        invariant
            g@.len() == gs.len(),
            forall|i: int| 0 <= i < g@.len() ==> #[trigger] g@[i]@ == gs[i],
            gs == grapheme_clusters(text@),
            k <= g@.len(),
            str_width(text@) > max,
            truncated_to_width(text@, max as nat) == shrink_to_fit(gs, k as nat, max as nat),
            "\u{2026}"@ == ellipsis(),
        decreases k,
    {
        let mut r = concat_prefix(&g, k);
        proof {
            assert(g@.take(k as int).map_values(|p: String| p@) =~= gs.take(k as int));
        }
        r.append("\u{2026}");
        if display_width(r.as_str()) <= max {
            return r;
        }
        if k == 0 {
            let empty = String::new();
            let measured = display_width(empty.as_str());
            assert(measured == 0);
            return empty;
        }
        k = k - 1;
    }
}

// ---------------------------------------------------------------------
// Whitespace

/// Unicode `White_Space`, as `char::is_whitespace` reports it.
pub open spec fn is_white(c: char) -> bool {
    ('\u{9}' <= c <= '\u{d}') || c == ' ' || c == '\u{85}' || c == '\u{a0}' || c == '\u{1680}'
        || ('\u{2000}' <= c <= '\u{200a}') || c == '\u{2028}' || c == '\u{2029}'
        || c == '\u{202f}' || c == '\u{205f}' || c == '\u{3000}'
}

pub fn is_white_char(c: char) -> (r: bool)
    ensures
        r == is_white(c),
{
    ('\u{9}' <= c && c <= '\u{d}') || c == ' ' || c == '\u{85}' || c == '\u{a0}' || c == '\u{1680}'
        || ('\u{2000}' <= c && c <= '\u{200a}') || c == '\u{2028}' || c == '\u{2029}'
        || c == '\u{202f}' || c == '\u{205f}' || c == '\u{3000}'
}

pub open spec fn trim_start(s: Seq<char>) -> Seq<char>
    decreases s.len(),
{
    if s.len() > 0 && is_white(s[0]) {
        trim_start(s.drop_first())
    } else {
        s
    }
}

pub open spec fn trim_end(s: Seq<char>) -> Seq<char>
    decreases s.len(),
{
    if s.len() > 0 && is_white(s.last()) {
        trim_end(s.drop_last())
    } else {
        s
    }
}

/// `s` without leading and trailing whitespace.
pub open spec fn trim(s: Seq<char>) -> Seq<char> {
    trim_end(trim_start(s))
}

fn trim_start_chars(s: &Vec<char>) -> (r: usize)
    ensures
        r <= s@.len(),
        trim_start(s@) == s@.skip(r as int),
{
    let mut i: usize = 0;
    assert(s@.skip(0) =~= s@);
    while i < s.len() && is_white_char(s[i])
        invariant
            i <= s@.len(),
            trim_start(s@) == trim_start(s@.skip(i as int)),
        decreases s.len() - i,
    {
        assert(s@.skip(i as int).drop_first() =~= s@.skip(i + 1));
        i += 1;
    }
    i
}

fn trim_end_chars(s: &Vec<char>, from: usize) -> (r: usize)
    requires
        from <= s@.len(),
    ensures
        from <= r <= s@.len(),
        trim_end(s@.subrange(from as int, s@.len() as int)) == s@.subrange(from as int, r as int),
{
    let mut j: usize = s.len();
    while j > from && is_white_char(s[j - 1])
        invariant
            from <= j <= s@.len(),
            trim_end(s@.subrange(from as int, s@.len() as int)) == trim_end(
                s@.subrange(from as int, j as int),
            ),
        decreases j,
    {
        assert(s@.subrange(from as int, j as int).drop_last() =~= s@.subrange(
            from as int,
            j - 1,
        ));
        j -= 1;
    }
    j
}

/// The characters of `s` without surrounding whitespace.
pub fn trim_chars(s: &Vec<char>) -> (r: Vec<char>)
    ensures
        r@ == trim(s@),
{
    let a = trim_start_chars(s);
    let b = trim_end_chars(s, a);
    assert(s@.skip(a as int) =~= s@.subrange(a as int, s@.len() as int));
    slice_chars(s, a, b)
}

/// `s[a..b]` as a fresh vector.
pub fn slice_chars(s: &Vec<char>, a: usize, b: usize) -> (r: Vec<char>)
    requires
        a <= b <= s@.len(),
    ensures
        r@ == s@.subrange(a as int, b as int),
{
    let mut r: Vec<char> = Vec::new();
    let mut i: usize = a;
    while i < b
        invariant
            a <= i <= b,
            b <= s@.len(),
            r@ == s@.subrange(a as int, i as int),
        decreases b - i,
    {
        r.push(s[i]);
        i += 1;
        assert(r@ =~= s@.subrange(a as int, i as int));
    }
    r
}

/// `s` without surrounding whitespace.
pub fn trim_string(s: &str) -> (r: String)
    ensures
        r@ == trim(s@),
{
    let cs = chars_of(s);
    let t = trim_chars(&cs);
    string_of(&t)
}

/// Whether `s` holds nothing but whitespace.
pub fn is_blank(s: &str) -> (r: bool)
    ensures
        r == (trim(s@).len() == 0),
{
    let t = trim_string(s);
    t.unicode_len() == 0
}

/// The words of `s` joined by single spaces.
pub open spec fn collapse_ws(s: Seq<char>) -> Seq<char>
    decreases s.len(),
{
    if s.len() == 0 {
        s
    } else {
        let prev = collapse_ws(s.drop_last());
        let c = s.last();
        if is_white(c) {
            prev
        } else if s.len() > 1 && is_white(s[s.len() - 2]) && prev.len() > 0 {
            prev + seq![' ', c]
        } else {
            prev.push(c)
        }
    }
}

/// Collapses every run of whitespace to one space and drops it at both ends.
pub fn collapse_whitespace(s: &Vec<char>) -> (r: Vec<char>)
    ensures
        r@ == collapse_ws(s@),
{
    let mut r: Vec<char> = Vec::new();
    let mut i: usize = 0;
    while i < s.len()
        invariant
            i <= s@.len(),
            r@ == collapse_ws(s@.take(i as int)),
        decreases s.len() - i,
    {
        let c = s[i];
        let ghost t = s@.take(i + 1);
        proof {
            assert(t.drop_last() =~= s@.take(i as int));
            assert(t.last() == c);
        }
        if is_white_char(c) {
        } else if i > 0 && is_white_char(s[i - 1]) && r.len() > 0 {
            r.push(' ');
            r.push(c);
        } else {
            r.push(c);
        }
        i += 1;
        assert(r@ =~= collapse_ws(s@.take(i as int)));
    }
    assert(s@.take(s@.len() as int) =~= s@);
    r
}

/// Position of the first line feed in `s`, or its length when there is none.
pub open spec fn newline_at(s: Seq<char>) -> nat
    decreases s.len(),
{
    if s.len() == 0 || s[0] == '\n' {
        0
    } else {
        1 + newline_at(s.drop_first())
    }
}

/// The text before the first line break, without a trailing carriage return.
pub open spec fn first_line(s: Seq<char>) -> Seq<char> {
    let line = s.take(newline_at(s) as int);
    if line.len() > 0 && line.last() == '\r' {
        line.drop_last()
    } else {
        line
    }
}

/// The first line of `s`.
pub fn first_line_chars(s: &Vec<char>) -> (r: Vec<char>)
    ensures
        r@ == first_line(s@),
{
    let mut i: usize = 0;
    assert(s@.skip(0) =~= s@);
    while i < s.len() && s[i] != '\n'
        invariant
            i <= s@.len(),
            newline_at(s@) == i + newline_at(s@.skip(i as int)),
        decreases s.len() - i,
    {
        assert(s@.skip(i as int).drop_first() =~= s@.skip(i + 1));
        i += 1;
    }
    let end: usize = if i > 0 && s[i - 1] == '\r' { i - 1 } else { i };
    let r = slice_chars(s, 0, end);
    assert(r@ =~= first_line(s@));
    r
}

/// Length of the leading run of non-whitespace characters of `s`.
pub open spec fn word_len(s: Seq<char>) -> nat
    decreases s.len(),
{
    if s.len() == 0 || is_white(s[0]) {
        0
    } else {
        1 + word_len(s.drop_first())
    }
}

/// The first whitespace-separated word of `s` (empty when it has none).
pub open spec fn first_word(s: Seq<char>) -> Seq<char> {
    let t = trim_start(s);
    t.take(word_len(t) as int)
}

/// The first word of `s`.
pub fn first_word_chars(s: &Vec<char>) -> (r: Vec<char>)
    ensures
        r@ == first_word(s@),
{
    let a = trim_start_chars(s);
    let mut i: usize = a;
    assert(s@.skip(a as int).skip(0) =~= s@.skip(a as int));
    while i < s.len() && !is_white_char(s[i])
        invariant
            a <= i <= s@.len(),
            word_len(s@.skip(a as int)) == (i - a) + word_len(s@.skip(i as int)),
        decreases s.len() - i,
    {
        assert(s@.skip(i as int).drop_first() =~= s@.skip(i + 1));
        i += 1;
    }
    let r = slice_chars(s, a, i);
    assert(r@ =~= first_word(s@));
    r
}

/// `s` with every leading repetition of `p` removed.
pub open spec fn strip_prefix_all(s: Seq<char>, p: Seq<char>) -> Seq<char>
    decreases s.len(),
{
    if p.len() > 0 && p.len() <= s.len() && s.take(p.len() as int) == p {
        strip_prefix_all(s.skip(p.len() as int), p)
    } else {
        s
    }
}

fn has_prefix_at(s: &Vec<char>, p: &Vec<char>, at: usize) -> (r: bool)
    requires
        at <= s@.len(),
    ensures
        r == (p@.len() <= s@.len() - at && s@.skip(at as int).take(p@.len() as int) == p@),
{
    if p.len() > s.len() - at {
        return false;
    }
    let mut j: usize = 0;
    while j < p.len()
        invariant
            at <= s@.len(),
            at + p@.len() <= s@.len(),
            s@.len() <= usize::MAX,
            j <= p@.len(),
            forall|k: int| 0 <= k < j ==> s@[at + k] == p@[k],
        decreases p.len() - j,
    {
        if s[at + j] != p[j] {
            assert(s@.skip(at as int).take(p@.len() as int)[j as int] != p@[j as int]);
            return false;
        }
        j += 1;
    }
    assert(s@.skip(at as int).take(p@.len() as int) =~= p@);
    true
}

/// Removes every leading repetition of `p` from `s`.
pub fn strip_prefix_all_chars(s: &Vec<char>, p: &Vec<char>) -> (r: Vec<char>)
    ensures
        r@ == strip_prefix_all(s@, p@),
{
    let mut i: usize = 0;
    assert(s@.skip(0) =~= s@);
    while p.len() > 0 && i <= s.len() && has_prefix_at(s, p, i)
        invariant
            i <= s@.len(),
            strip_prefix_all(s@, p@) == strip_prefix_all(s@.skip(i as int), p@),
        decreases s.len() - i,
    {
        assert(s@.skip(i as int).skip(p@.len() as int) =~= s@.skip(i + p@.len()));
        i += p.len();
    }
    slice_chars(s, i, s.len())
}

/// Length of the trailing run of `s` that holds no `/`.
pub open spec fn tail_len(s: Seq<char>) -> nat
    decreases s.len(),
{
    if s.len() == 0 || s.last() == '/' {
        0
    } else {
        1 + tail_len(s.drop_last())
    }
}

/// The part of `s` after its last `/` (all of `s` when it has none).
pub open spec fn after_last_slash(s: Seq<char>) -> Seq<char> {
    s.skip(s.len() - tail_len(s))
}

/// The part of `s` after its last `/`.
pub fn after_last_slash_chars(s: &Vec<char>) -> (r: Vec<char>)
    ensures
        r@ == after_last_slash(s@),
{
    let mut j: usize = s.len();
    assert(s@.take(s@.len() as int) =~= s@);
    while j > 0 && s[j - 1] != '/'
        invariant
            j <= s@.len(),
            tail_len(s@) == (s@.len() - j) + tail_len(s@.take(j as int)),
        decreases j,
    {
        assert(s@.take(j as int).drop_last() =~= s@.take(j - 1));
        j -= 1;
    }
    proof {
        if j > 0 {
            assert(s@.take(j as int).last() == s@[j - 1]);
        }
        assert(tail_len(s@.take(j as int)) == 0);
    }
    slice_chars(s, j, s.len())
}

} // verus!

verus! {

/// What follows the first word of `s`.
pub open spec fn after_first_word(s: Seq<char>) -> Seq<char> {
    let t = trim_start(s);
    t.skip(word_len(t) as int)
}

/// The first word of `s` and what follows it.
pub fn split_first_word(s: &Vec<char>) -> (r: (Vec<char>, Vec<char>))
    ensures
        r.0@ == first_word(s@),
        r.1@ == after_first_word(s@),
{
    let a = trim_start_chars(s);
    let mut i: usize = a;
    assert(s@.skip(a as int).skip(0) =~= s@.skip(a as int));
    while i < s.len() && !is_white_char(s[i])
        invariant
            a <= i <= s@.len(),
            word_len(s@.skip(a as int)) == (i - a) + word_len(s@.skip(i as int)),
        decreases s.len() - i,
    {
        assert(s@.skip(i as int).drop_first() =~= s@.skip(i + 1));
        i += 1;
    }
    let w = slice_chars(s, a, i);
    let rest = slice_chars(s, i, s.len());
    assert(w@ =~= first_word(s@));
    assert(rest@ =~= after_first_word(s@));
    (w, rest)
}

} // verus!
