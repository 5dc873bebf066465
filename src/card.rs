//! Text helpers of the status card: token totals with two decimals, title
//! case, and short path segments.

use vstd::prelude::*;
use vstd::string::StringExecFns;
use crate::format::round_div;
use crate::text::dec;
use crate::text::digit;
use crate::text::digit_char;
use crate::text::grapheme_clusters;
use crate::text::graphemes;
use crate::text::push_char;
use crate::text::push_decimal;

verus! {

pub open spec fn card_scale(n: nat) -> nat {
    if n >= 1_000_000_000_000 {
        1_000_000_000_000
    } else if n >= 1_000_000_000 {
        1_000_000_000
    } else if n >= 1_000_000 {
        1_000_000
    } else {
        1_000
    }
}

pub open spec fn card_suffix(n: nat) -> char {
    if n >= 1_000_000_000_000 {
        'T'
    } else if n >= 1_000_000_000 {
        'B'
    } else if n >= 1_000_000 {
        'M'
    } else {
        'K'
    }
}

/// Decimals shown: two below ten units, one below a hundred, else none.
pub open spec fn card_decimals(n: nat) -> nat {
    if n < 10 * card_scale(n) { 2 } else if n < 100 * card_scale(n) { 1 } else { 0 }
}

pub open spec fn pow10(k: nat) -> nat {
    if k == 0 { 1 } else if k == 1 { 10 } else { 100 }
}

/// The fraction digits of `frac` (with `decimals` places), trailing zeros dropped.
pub open spec fn fraction_digits(frac: nat, decimals: nat) -> Seq<char> {
    if decimals == 2 {
        if frac % 10 != 0 {
            seq![digit_char(frac / 10), digit_char(frac % 10)]
        } else if frac / 10 != 0 {
            seq![digit_char(frac / 10)]
        } else {
            Seq::empty()
        }
    } else if decimals == 1 && frac != 0 {
        seq![digit_char(frac)]
    } else {
        Seq::empty()
    }
}

/// Token totals for the status card: verbatim under a thousand, else scaled
/// to K, M, B or T with up to two decimals and no trailing zeros.
pub open spec fn tokens_compact_text(n: nat) -> Seq<char> {
    if n < 1000 {
        dec(n)
    } else {
        let decimals = card_decimals(n);
        let q = round_div(n, card_scale(n) / pow10(decimals));
        let whole = q / pow10(decimals);
        let frac = q % pow10(decimals);
        let f = fraction_digits(frac, decimals);
        dec(whole) + (if f.len() > 0 { seq!['.'] + f } else { Seq::empty() }) + seq![card_suffix(n)]
    }
}

fn round_div_wide(n: u128, d: u128) -> (r: u128)
    requires
        d >= 1,
        n <= u64::MAX,
    ensures
        r == round_div(n as nat, d as nat),
        r <= u64::MAX,
{
    let q = n / d;
    let rem = n % d;
    assert(q <= n) by (nonlinear_arith)
        requires q == n / d, d >= 1;
    if rem > d - rem || (rem == d - rem && q % 2 == 1) {
        assert(q < n || rem == 0) by (nonlinear_arith)
            requires q == n / d, rem == n % d, d >= 1;
        if q == n {
            assert(d == 1 || n == 0) by (nonlinear_arith)
                requires q == n / d, d >= 1, q == n;
        }
        q + 1
    } else {
        q
    }
}

/// Formats a token total for the status card (`1.23K`, `45.6M`, `789B`).
pub fn format_tokens_compact(value: u64) -> (r: String)
    ensures
        r@ == tokens_compact_text(value as nat),
{
    let mut r = String::new();
    if value < 1000 {
        push_decimal(&mut r, value);
        return r;
    }
    let (scale, suffix): (u64, char) = if value >= 1_000_000_000_000 {
        (1_000_000_000_000, 'T')
    } else if value >= 1_000_000_000 {
        (1_000_000_000, 'B')
    } else if value >= 1_000_000 {
        (1_000_000, 'M')
    } else {
        (1_000, 'K')
    };
    let v = value as u128;
    let s = scale as u128;
    let (decimals, p): (u64, u128) = if v < 10 * s { (2, 100) } else if v < 100 * s { (1, 10) } else { (0, 1) };
    let unit = s / p;
    assert(unit >= 1) by (nonlinear_arith)
        requires s >= 1000, 1 <= p <= 100, unit == s / p;
    assert(unit == card_scale(value as nat) / pow10(decimals as nat));
    let q = round_div_wide(v, unit);
    let whole = (q / p) as u64;
    let frac = (q % p) as u64;
    push_decimal(&mut r, whole);
    let ghost before = r@;
    if decimals == 2 {
        if frac % 10 != 0 {
            push_char(&mut r, '.');
            push_char(&mut r, digit(frac / 10));
            push_char(&mut r, digit(frac % 10));
        } else if frac / 10 != 0 {
            push_char(&mut r, '.');
            push_char(&mut r, digit(frac / 10));
        }
    } else if decimals == 1 && frac != 0 {
        push_char(&mut r, '.');
        push_char(&mut r, digit(frac));
    }
    let ghost f = fraction_digits(frac as nat, decimals as nat);
    assert(r@ =~= before + (if f.len() > 0 { seq!['.'] + f } else { Seq::empty() }));
    push_char(&mut r, suffix);
    assert(r@ =~= tokens_compact_text(value as nat));
    r
}

/// `c` in lower case if it is an ASCII capital.
pub open spec fn ascii_lower(c: char) -> char {
    if 'A' <= c <= 'Z' { ((c as u8) + 32) as u8 as char } else { c }
}

/// The upper-case form of a character, as Unicode defines it.
pub uninterp spec fn upper_of(c: char) -> Seq<char>;

/// Relies on `char::to_uppercase`: the upper-case mapping of one character,
/// which depends on the character alone.
#[verifier::external_body]
fn uppercase_char(c: char) -> (r: String)
    ensures
        r@ == upper_of(c),
{
    c.to_uppercase().collect()
}

/// The first character upper-cased, the rest with ASCII capitals lowered.
pub open spec fn title_case_spec(s: Seq<char>) -> Seq<char> {
    if s.len() == 0 {
        Seq::empty()
    } else {
        upper_of(s[0]) + s.drop_first().map_values(|c: char| ascii_lower(c))
    }
}

pub fn title_case(s: &str) -> (r: String)
    ensures
        r@ == title_case_spec(s@),
{
    let cs = crate::text::chars_of(s);
    if cs.len() == 0 {
        return String::new();
    }
    let mut r = uppercase_char(cs[0]);
    let ghost head = r@;
    let mut i: usize = 1;
    while i < cs.len()
        invariant
            1 <= i <= cs@.len(),
            cs@ == s@,
            r@ == head + cs@.subrange(1, i as int).map_values(|c: char| ascii_lower(c)),
        decreases cs.len() - i,
    {
        let c = cs[i];
        let lower = if 'A' <= c && c <= 'Z' { ((c as u8) + 32) as char } else { c };
        push_char(&mut r, lower);
        i += 1;
        assert(r@ =~= head + cs@.subrange(1, i as int).map_values(|c: char| ascii_lower(c)));
    }
    assert(cs@.subrange(1, cs@.len() as int) =~= s@.drop_first());
    r
}

/// The first `len` grapheme clusters of a path segment, or its first
/// character when that gives nothing.
pub open spec fn truncate_segment_spec(segment: Seq<char>, len: nat) -> Seq<char> {
    let g = grapheme_clusters(segment);
    let kept = g.take(if len <= g.len() { len as int } else { g.len() as int }).flatten();
    if len == 0 {
        Seq::empty()
    } else if kept.len() > 0 {
        kept
    } else if segment.len() > 0 {
        seq![segment[0]]
    } else {
        Seq::empty()
    }
}

pub fn truncate_segment(segment: &str, len: usize) -> (r: String)
    ensures
        r@ == truncate_segment_spec(segment@, len as nat),
{
    if len == 0 {
        return String::new();
    }
    let g = graphemes(segment);
    let k = if len <= g.len() { len } else { g.len() };
    let mut result = String::new();
    let mut i: usize = 0;
    let ghost gs = grapheme_clusters(segment@);
    while i < k
        invariant
            k <= g@.len(),
            g@.len() == gs.len(),
            forall|j: int| 0 <= j < g@.len() ==> #[trigger] g@[j]@ == gs[j],
            i <= k,
            result@ == gs.take(i as int).flatten(),
        decreases k - i,
    {
        result.append(g[i].as_str());
        proof {
            assert(gs.take(i + 1) =~= gs.take(i as int).push(gs[i as int]));
            gs.take(i as int).lemma_flatten_push(gs[i as int]);
        }
        i += 1;
    }
    if result.unicode_len() > 0 {
        return result;
    }
    let cs = crate::text::chars_of(segment);
    if cs.len() > 0 {
        let mut one = String::new();
        push_char(&mut one, cs[0]);
        assert(one@ =~= seq![segment@[0]]);
        one
    } else {
        result
    }
}

} // verus!

verus! {

/// `parts` joined by `/`.
pub open spec fn join_slash(parts: Seq<Seq<char>>) -> Seq<char>
    decreases parts.len(),
{
    if parts.len() == 0 {
        Seq::empty()
    } else if parts.len() == 1 {
        parts[0]
    } else {
        join_slash(parts.drop_last()) + seq!['/'] + parts.last()
    }
}

/// Where the repository root sits among the path segments: the index of its
/// last segment when the path lies inside it.
pub open spec fn repo_index(rel: Seq<Seq<char>>, repo: Option<Seq<Seq<char>>>) -> Option<nat> {
    match repo {
        Some(r) => if r.len() > 0 && r.len() <= rel.len() && rel.take(r.len() as int) == r {
            Some((r.len() - 1) as nat)
        } else {
            None
        },
        None => None,
    }
}

/// How many leading segments are shortened: those before the repository
/// root, or all but the last two.
pub open spec fn prefix_count(rel: Seq<Seq<char>>, repo: Option<Seq<Seq<char>>>) -> nat {
    match repo_index(rel, repo) {
        Some(i) => i,
        None => if rel.len() >= 2 { (rel.len() - 2) as nat } else { 0 },
    }
}

/// The tail kept in full: at most the first tail segment and the last two.
pub open spec fn kept_tail(tail: Seq<Seq<char>>) -> Seq<Seq<char>> {
    if tail.len() > 2 {
        let kept = tail.skip(tail.len() - 2);
        if kept.contains(tail[0]) { kept } else { seq![tail[0]] + kept }
    } else {
        tail
    }
}

/// The directory as the status card shows it: `head`, then the shortened
/// leading segments, an ellipsis where tail segments were left out, and the
/// kept tail, joined by `/`; `fallback` when that leaves nothing.
pub open spec fn directory_display_spec(
    head: Seq<Seq<char>>,
    rel: Seq<Seq<char>>,
    repo: Option<Seq<Seq<char>>>,
    fallback: Seq<char>,
) -> Seq<char> {
    let p = prefix_count(rel, repo);
    let tail = rel.skip(p as int);
    let kept = kept_tail(tail);
    let shortened = rel.take(p as int).map_values(|s: Seq<char>| truncate_segment_spec(s, 2));
    let parts = head + shortened + (if tail.len() > 2 && kept.len() > 0 {
        seq![seq!['\u{2026}']]
    } else {
        Seq::empty()
    }) + kept;
    if parts.len() == 0 { fallback } else { join_slash(parts) }
}

fn views_of(v: &Vec<String>) -> (r: Ghost<Seq<Seq<char>>>)
    ensures
        r@ == v@.map_values(|s: String| s@),
{
    Ghost(v@.map_values(|s: String| s@))
}

fn same_prefix(rel: &Vec<String>, repo: &Vec<String>) -> (r: bool)
    ensures
        r == (repo@.len() <= rel@.len() && rel@.map_values(|s: String| s@).take(repo@.len() as int)
            == repo@.map_values(|s: String| s@)),
{
    if repo.len() > rel.len() {
        return false;
    }
    let ghost rv = rel@.map_values(|s: String| s@);
    let ghost pv = repo@.map_values(|s: String| s@);
    let mut i: usize = 0;
    while i < repo.len()
        invariant
            repo@.len() <= rel@.len(),
            rv == rel@.map_values(|s: String| s@),
            pv == repo@.map_values(|s: String| s@),
            i <= repo@.len(),
            forall|k: int| 0 <= k < i ==> rv[k] == pv[k],
        decreases repo.len() - i,
    {
        if rel[i] != repo[i] {
            assert(rv.take(pv.len() as int)[i as int] != pv[i as int]);
            return false;
        }
        i += 1;
    }
    assert(rv.take(pv.len() as int) =~= pv);
    true
}

fn join_with_slash(parts: &Vec<String>) -> (r: String)
    ensures
        r@ == join_slash(parts@.map_values(|s: String| s@)),
{
    let ghost pv = parts@.map_values(|s: String| s@);
    if parts.len() == 0 {
        return String::new();
    }
    let mut out = parts[0].clone();
    let mut i: usize = 1;
    assert(pv.take(1).drop_last() =~= Seq::<Seq<char>>::empty());
    while i < parts.len()
        invariant
            1 <= i <= parts@.len(),
            pv == parts@.map_values(|s: String| s@),
            out@ == join_slash(pv.take(i as int)),
        decreases parts.len() - i,
    {
        push_char(&mut out, '/');
        out.append(parts[i].as_str());
        assert(pv.take(i + 1).drop_last() =~= pv.take(i as int));
        i += 1;
    }
    assert(pv.take(parts@.len() as int) =~= pv);
    out
}

/// Lays out a directory for display from its parts: `head` (`~` or a root
/// prefix), the segments below it, the repository root's segments when the
/// directory is inside one, and the text used when nothing is left.
pub fn format_directory_display(head: Vec<String>, rel_segments: &Vec<String>, repo_segments: Option<&Vec<String>>, fallback: String) -> (r: String)
    ensures
        r@ == directory_display_spec(
            head@.map_values(|s: String| s@),
            rel_segments@.map_values(|s: String| s@),
            match repo_segments { Some(v) => Some(v@.map_values(|s: String| s@)), None => None },
            fallback@,
        ),
{
    let ghost rv = rel_segments@.map_values(|s: String| s@);
    let ghost repo_v = match repo_segments { Some(v) => Some(v@.map_values(|s: String| s@)), None => None };
    let index: Option<usize> = match repo_segments {
        Some(repo) => if repo.len() > 0 && same_prefix(rel_segments, repo) { Some(repo.len() - 1) } else { None },
        None => None,
    };
    assert(match index { Some(i) => repo_index(rv, repo_v) == Some(i as nat), None => repo_index(rv, repo_v) is None });
    let p: usize = match index {
        Some(i) => i,
        None => if rel_segments.len() >= 2 { rel_segments.len() - 2 } else { 0 },
    };
    assert(p as nat == prefix_count(rv, repo_v));
    let mut parts: Vec<String> = head;
    let ghost head_v = parts@.map_values(|s: String| s@);
    let mut i: usize = 0;
    while i < p
        invariant
            p <= rel_segments@.len(),
            rv == rel_segments@.map_values(|s: String| s@),
            i <= p,
            parts@.map_values(|s: String| s@) == head_v + rv.take(i as int).map_values(|s: Seq<char>| truncate_segment_spec(s, 2)),
        decreases p - i,
    {
        assert(rv[i as int] == rel_segments@[i as int]@);
        let short = truncate_segment(rel_segments[i].as_str(), 2);
        let ghost before = parts@;
        parts.push(short);
        proof {
            assert(parts@.map_values(|s: String| s@) =~= before.map_values(|s: String| s@).push(short@));
            assert(rv.take(i + 1) =~= rv.take(i as int).push(rv[i as int]));
            assert(rv.take(i + 1).map_values(|s: Seq<char>| truncate_segment_spec(s, 2)) =~= rv.take(i as int).map_values(
                |s: Seq<char>| truncate_segment_spec(s, 2),
            ).push(truncate_segment_spec(rv[i as int], 2)));
            assert(parts@.map_values(|s: String| s@) =~= head_v + rv.take(i + 1).map_values(|s: Seq<char>| truncate_segment_spec(s, 2)));
        }
        i += 1;
    }
    let ghost mid = parts@.map_values(|s: String| s@);
    let n = rel_segments.len();
    let tail_len = n - p;
    let ghost tail = rv.skip(p as int);
    let mut kept: Vec<String> = Vec::new();
    if tail_len > 2 {
        let first = &rel_segments[p];
        let a = &rel_segments[n - 2];
        let b = &rel_segments[n - 1];
        assert(rv[p as int] == first@ && rv[n - 2] == a@ && rv[n - 1] == b@);
        let ghost last_two = tail.skip(tail.len() - 2);
        assert(last_two =~= seq![rv[n - 2], rv[n - 1]]);
        if *a != *first && *b != *first {
            kept.push(first.clone());
            assert(!last_two.contains(tail[0])) by {
                assert(tail[0] == rv[p as int]);
                if last_two.contains(tail[0]) {
                    let k = choose|k: int| 0 <= k < last_two.len() && last_two[k] == tail[0];
                    assert(k == 0 || k == 1);
                }
            }
        } else {
            assert(last_two.contains(tail[0])) by {
                assert(tail[0] == rv[p as int]);
                if rv[n - 2] == tail[0] { assert(last_two[0] == tail[0]); } else { assert(last_two[1] == tail[0]); }
            }
        }
        kept.push(a.clone());
        kept.push(b.clone());
        proof {
            assert(kept@.map_values(|s: String| s@) =~= kept_tail(tail));
        }
        push_string(&mut parts, "\u{2026}");
    } else {
        let mut j: usize = p;
        while j < n
            invariant
                p <= j <= n,
                n == rel_segments@.len(),
                rv == rel_segments@.map_values(|s: String| s@),
                kept@.map_values(|s: String| s@) == rv.subrange(p as int, j as int),
            decreases n - j,
        {
            assert(rv[j as int] == rel_segments@[j as int]@);
            let c = rel_segments[j].clone();
            let ghost kb = kept@;
            kept.push(c);
            assert(kept@.map_values(|s: String| s@) =~= kb.map_values(|s: String| s@).push(c@));
            assert(kept@.map_values(|s: String| s@) =~= rv.subrange(p as int, j + 1));
            j += 1;
        }
        assert(rv.subrange(p as int, n as int) =~= tail);
    }
    proof {
        reveal_strlit("\u{2026}");
        assert("\u{2026}"@ =~= seq!['\u{2026}']);
    }
    let ghost kept_v = kept@.map_values(|s: String| s@);
    assert(kept_v == kept_tail(tail));
    let ghost before_tail = parts@.map_values(|s: String| s@);
    assert(before_tail == mid + (if tail.len() > 2 && kept_v.len() > 0 {
        seq![seq!['\u{2026}']]
    } else {
        Seq::empty()
    }));
    parts.append(&mut kept);
    assert(parts@.map_values(|s: String| s@) =~= before_tail + kept_v);
    if parts.len() == 0 {
        return fallback;
    }
    join_with_slash(&parts)
}

/// Appends a copy of `s` to `parts`.
fn push_string(parts: &mut Vec<String>, s: &str)
    ensures
        final(parts)@.map_values(|x: String| x@) == old(parts)@.map_values(|x: String| x@).push(s@),
{
    parts.push(String::from_str(s));
    assert(final(parts)@.map_values(|x: String| x@) =~= old(parts)@.map_values(|x: String| x@).push(s@));
}

} // verus!

verus! {

pub open spec fn lower_ascii(s: Seq<char>) -> Seq<char> {
    s.map_values(|c: char| ascii_lower(c))
}

fn to_ascii_lower(s: &str) -> (r: String)
    ensures
        r@ == lower_ascii(s@),
{
    let cs = crate::text::chars_of(s);
    let mut out = String::new();
    let mut i: usize = 0;
    while i < cs.len()
        invariant
            cs@ == s@,
            i <= cs@.len(),
            out@ == lower_ascii(cs@.take(i as int)),
        decreases cs.len() - i,
    {
        let c = cs[i];
        let lower = if 'A' <= c && c <= 'Z' { ((c as u8) + 32) as char } else { c };
        push_char(&mut out, lower);
        i += 1;
        assert(out@ =~= lower_ascii(cs@.take(i as int)));
    }
    assert(cs@.take(cs@.len() as int) =~= cs@);
    out
}

/// Index of the first entry with key `k`, or the length when there is none.
pub open spec fn find_key(entries: Seq<(Seq<char>, Seq<char>)>, k: Seq<char>) -> nat
    decreases entries.len(),
{
    if entries.len() == 0 || entries[0].0 == k {
        0
    } else {
        1 + find_key(entries.drop_first(), k)
    }
}

/// A summary setting that means "off": `none` or `off`, in any ASCII case.
pub open spec fn means_off(v: Seq<char>) -> bool {
    lower_ascii(v) == "none"@ || lower_ascii(v) == "off"@
}

/// The model's detail lines for the status card: the reasoning effort and
/// the reasoning-summary setting, each when the entries hold one.
pub open spec fn model_details(entries: Seq<(Seq<char>, Seq<char>)>) -> Seq<Seq<char>> {
    let e = find_key(entries, "reasoning effort"@);
    let s = find_key(entries, "reasoning summaries"@);
    (if e < entries.len() { seq!["reasoning "@ + lower_ascii(entries[e as int].1)] } else { Seq::empty() })
        + (if s < entries.len() {
        let v = crate::text::trim(entries[s as int].1);
        if means_off(v) {
            seq!["summaries off"@]
        } else if v.len() > 0 {
            seq!["summaries "@ + lower_ascii(v)]
        } else {
            Seq::empty()
        }
    } else {
        Seq::empty()
    })
}

pub open spec fn entry_views(entries: Seq<(&str, String)>) -> Seq<(Seq<char>, Seq<char>)> {
    entries.map_values(|e: (&str, String)| (e.0@, e.1@))
}

fn find_entry(entries: &Vec<(&str, String)>, key: &str) -> (r: usize)
    ensures
        r == find_key(entry_views(entries@), key@),
{
    let ghost ev = entry_views(entries@);
    let k = String::from_str(key);
    let mut i: usize = 0;
    assert(ev.skip(0) =~= ev);
    while i < entries.len()
        invariant
            ev == entry_views(entries@),
            k@ == key@,
            i <= entries@.len(),
            find_key(ev, key@) == i + find_key(ev.skip(i as int), key@),
        decreases entries.len() - i,
    {
        let name = String::from_str(entries[i].0);
        assert(ev.skip(i as int)[0] == ev[i as int]);
        if name == k {
            return i;
        }
        assert(ev.skip(i as int).drop_first() =~= ev.skip(i + 1));
        i += 1;
    }
    i
}

/// The model name and its detail lines for the status card.
pub fn compose_model_display(model: &str, entries: &Vec<(&str, String)>) -> (r: (String, Vec<String>))
    ensures
        r.0@ == model@,
        r.1@.map_values(|s: String| s@) == model_details(entry_views(entries@)),
{
    let ghost ev = entry_views(entries@);
    let mut details: Vec<String> = Vec::new();
    let e = find_entry(entries, "reasoning effort");
    if e < entries.len() {
        let mut line = String::from_str("reasoning ");
        line.append(to_ascii_lower(entries[e].1.as_str()).as_str());
        details.push(line);
    }
    let ghost first = details@.map_values(|s: String| s@);
    assert(first =~= (if e < entries.len() { seq!["reasoning "@ + lower_ascii(ev[e as int].1)] } else { Seq::empty() }));
    let s = find_entry(entries, "reasoning summaries");
    if s < entries.len() {
        let v = crate::text::trim_string(entries[s].1.as_str());
        let lowered = to_ascii_lower(v.as_str());
        let none = String::from_str("none");
        let off = String::from_str("off");
        if lowered == none || lowered == off {
            details.push(String::from_str("summaries off"));
        } else if v.unicode_len() > 0 {
            let mut line = String::from_str("summaries ");
            line.append(lowered.as_str());
            details.push(line);
        }
    }
    assert(details@.map_values(|s: String| s@) =~= model_details(ev));
    (String::from_str(model), details)
}

} // verus!
