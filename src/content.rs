//! The text of each element of the status line, at each level of detail.

use vstd::prelude::*;
use vstd::string::StringExecFns;
use crate::format::elapsed_text;
use crate::format::format_elapsed_compact;
use crate::format::format_token_count;
use crate::format::token_count_text;
use crate::model::GitVariant;
use crate::model::PathVariant;
use crate::model::RenderModel;
use crate::model::RunLabelVariant;
use crate::model::TokenVariant;
use crate::snapshot::StatusLineGitSnapshot;
use crate::snapshot::StatusLineRunState;
use crate::snapshot::StatusLineSnapshot;
use crate::text::chars_of;
use crate::text::collapse_whitespace;
use crate::text::collapse_ws;
use crate::text::dec;
use crate::text::first_line;
use crate::text::first_line_chars;
use crate::text::first_word;
use crate::text::first_word_chars;
use crate::text::push_char;
use crate::text::push_decimal;
use crate::text::str_width;
use crate::text::string_of;
use crate::text::trim;
use crate::text::trim_chars;
use crate::text::truncate_graphemes;
use crate::text::truncate_to_width;
use crate::text::truncated_graphemes;
use crate::text::truncated_to_width;
use crate::timer::elapsed_spec;
use crate::timer::TimePoint;

verus! {

/// Shown in the run capsule when the task has no label.
pub open spec fn default_status_message() -> Seq<char> {
    seq!['R', 'e', 'a', 'd', 'y', ' ', 'w', 'h', 'e', 'n', ' ', 'y', 'o', 'u', ' ', 'a', 'r', 'e']
}

pub fn default_status_string() -> (r: String)
    ensures
        r@ == default_status_message(),
{
    let r = String::from_str("Ready when you are");
    proof {
        reveal_strlit("Ready when you are");
        assert(r@ =~= default_status_message());
    }
    r
}

/// The working directory as shown: the full display form cut to 40 clusters,
/// or the base name (else the fallback) cut to 28.
pub open spec fn path_text_spec(m: RenderModel, s: StatusLineSnapshot) -> Option<Seq<char>> {
    match m.path_variant {
        PathVariant::Hidden => None,
        PathVariant::Full => match s.cwd_display {
            Some(p) => Some(truncated_graphemes(p@, 40)),
            None => None,
        },
        PathVariant::Basename => match s.cwd_basename {
            Some(p) => Some(truncated_graphemes(p@, 28)),
            None => match s.cwd_fallback {
                Some(p) => Some(truncated_graphemes(p@, 28)),
                None => None,
            },
        },
    }
}

pub fn path_text(m: &RenderModel, s: &StatusLineSnapshot) -> (r: Option<String>)
    ensures
        r matches Some(t) ==> path_text_spec(*m, *s) == Some(t@),
        r is None ==> path_text_spec(*m, *s) is None,
{
    match m.path_variant {
        PathVariant::Hidden => None,
        PathVariant::Full => match &s.cwd_display {
            Some(p) => Some(truncate_graphemes(p.as_str(), 40)),
            None => None,
        },
        PathVariant::Basename => match &s.cwd_basename {
            Some(p) => Some(truncate_graphemes(p.as_str(), 28)),
            None => match &s.cwd_fallback {
                Some(p) => Some(truncate_graphemes(p.as_str(), 28)),
                None => None,
            },
        },
    }
}

/// Token usage as shown: `Σ<total>` when minimal, else
/// `Σ<total> ↑<input> [↺<cached>] ↓<output>`, the cached part only when some
/// input came from the cache.
pub open spec fn token_summary_spec(m: RenderModel, s: StatusLineSnapshot) -> Option<Seq<char>> {
    match s.tokens {
        None => None,
        Some(t) => {
            let c = t.total;
            let sigma = seq!['\u{3a3}'] + token_count_text(c.blended_total_spec());
            match m.token_variant {
                TokenVariant::Hidden => None,
                TokenVariant::Minimal => Some(sigma),
                _ => Some(
                    sigma + seq![' ', '\u{2191}'] + token_count_text(c.input_without_cache_spec())
                        + (if c.cached_input_tokens > 0 {
                        seq![' ', '\u{21ba}'] + token_count_text(c.cached_input_tokens as int)
                    } else {
                        Seq::empty()
                    }) + seq![' ', '\u{2193}'] + token_count_text(c.output_tokens as int),
                ),
            }
        },
    }
}

pub fn format_token_summary(m: &RenderModel, s: &StatusLineSnapshot) -> (r: Option<String>)
    ensures
        r matches Some(t) ==> token_summary_spec(*m, *s) == Some(t@),
        r is None ==> token_summary_spec(*m, *s) is None,
{
    let tokens = match &s.tokens {
        None => return None,
        Some(t) => t,
    };
    let c = tokens.total;
    if m.token_variant == TokenVariant::Hidden {
        return None;
    }
    let mut out = String::new();
    push_char(&mut out, '\u{3a3}');
    out.append(format_token_count(c.blended_total()).as_str());
    if m.token_variant == TokenVariant::Minimal {
        return Some(out);
    }
    push_char(&mut out, ' ');
    push_char(&mut out, '\u{2191}');
    out.append(format_token_count(c.input_without_cache()).as_str());
    if c.cached_input_tokens > 0 {
        push_char(&mut out, ' ');
        push_char(&mut out, '\u{21ba}');
        out.append(format_token_count(c.cached_input_tokens).as_str());
    }
    push_char(&mut out, ' ');
    push_char(&mut out, '\u{2193}');
    out.append(format_token_count(c.output_tokens).as_str());
    assert(token_summary_spec(*m, *s) == Some(out@));
    Some(out)
}

/// The run label: the label (or its first word when shortened), the default
/// message when that is blank, and trimmed only when it starts or ends with a
/// space.
pub open spec fn run_label_spec(v: RunLabelVariant, label: Seq<char>) -> Seq<char> {
    let l = match v {
        RunLabelVariant::Full => label,
        RunLabelVariant::Short => first_word(label),
    };
    if trim(l).len() == 0 {
        default_status_message()
    } else if l[0] == ' ' || l.last() == ' ' {
        trim(l)
    } else {
        l
    }
}

pub fn run_label_text(m: &RenderModel, state: &StatusLineRunState) -> (r: String)
    ensures
        r@ == run_label_spec(m.run_label_variant, state.label@),
{
    let cs = chars_of(state.label.as_str());
    let l = match m.run_label_variant {
        RunLabelVariant::Full => cs,
        RunLabelVariant::Short => first_word_chars(&cs),
    };
    let t = trim_chars(&l);
    if t.len() == 0 {
        return default_status_string();
    }
    if l[0] == ' ' || l[l.len() - 1] == ' ' {
        string_of(&t)
    } else {
        string_of(&l)
    }
}

/// Seconds of running time that the capsule's timer shows.
pub open spec fn timer_secs(state: StatusLineRunState, now: TimePoint) -> nat {
    match state.timer {
        Some(t) => elapsed_spec(t.elapsed_running, t.last_resume_at, t.is_paused, now) / 1000,
        None => 0,
    }
}

/// The timer text of the run capsule: an hourglass and the elapsed time.
pub open spec fn timer_text_spec(state: StatusLineRunState, now: TimePoint) -> Seq<char> {
    seq!['\u{f051f}', ' '] + elapsed_text(timer_secs(state, now))
}

pub fn timer_text(state: &StatusLineRunState, now: TimePoint) -> (r: String)
    ensures
        r@ == timer_text_spec(*state, now),
{
    let secs: u64 = match &state.timer {
        Some(t) => t.elapsed_at(now).as_secs(),
        None => 0,
    };
    let mut out = String::new();
    push_char(&mut out, '\u{f051f}');
    push_char(&mut out, ' ');
    out.append(format_elapsed_compact(secs).as_str());
    assert(out@ =~= timer_text_spec(*state, now));
    out
}

/// The preview of the first queued message: its first line with whitespace
/// collapsed, cut to 32 columns.
pub open spec fn queue_preview_text(commands: Seq<String>) -> Seq<char> {
    if commands.len() == 0 {
        Seq::empty()
    } else {
        truncated_to_width(collapse_ws(first_line(commands[0]@)), 32)
    }
}

/// The preview of the first queued message and how many more are queued.
pub fn queue_preview(commands: &Vec<String>) -> (r: (String, usize))
    ensures
        r.0@ == queue_preview_text(commands@),
        str_width(r.0@) <= 32,
        r.1 == (if commands@.len() == 0 { 0 } else { commands@.len() - 1 }),
{
    if commands.len() == 0 {
        let empty = String::new();
        let measured = crate::text::display_width(empty.as_str());
        assert(measured == 0);
        return (empty, 0);
    }
    let raw = first_line_chars(&chars_of(commands[0].as_str()));
    let normalized = string_of(&collapse_whitespace(&raw));
    let preview = truncate_to_width(normalized.as_str(), 32);
    (preview, commands.len() - 1)
}

/// The git text: branch icon and branch, with the dirty marker and the
/// ahead/behind counts at full detail; cut to 24 clusters.
pub open spec fn git_text_spec(v: GitVariant, g: StatusLineGitSnapshot) -> Option<Seq<char>> {
    match g.branch {
        None => None,
        Some(b) => if v == GitVariant::Hidden {
            None
        } else {
            let base = seq!['\u{e0a0}', ' '] + b@;
            let full = if v == GitVariant::BranchWithStatus {
                base + (if g.dirty { seq!['*'] } else { Seq::empty() }) + (match g.ahead {
                    Some(a) if a > 0 => seq![' ', '\u{2191}'] + dec(a as nat),
                    _ => Seq::empty(),
                }) + (match g.behind {
                    Some(a) if a > 0 => seq![' ', '\u{2193}'] + dec(a as nat),
                    _ => Seq::empty(),
                })
            } else {
                base
            };
            Some(truncated_graphemes(full, 24))
        },
    }
}

pub fn git_text(v: GitVariant, g: &StatusLineGitSnapshot) -> (r: Option<String>)
    ensures
        r matches Some(t) ==> git_text_spec(v, *g) == Some(t@),
        r is None ==> git_text_spec(v, *g) is None,
{
    let branch = match &g.branch {
        None => return None,
        Some(b) => b,
    };
    if v == GitVariant::Hidden {
        return None;
    }
    let mut text = String::new();
    push_char(&mut text, '\u{e0a0}');
    push_char(&mut text, ' ');
    text.append(branch.as_str());
    let ghost base = seq!['\u{e0a0}', ' '] + branch@;
    assert(text@ =~= base);
    if v == GitVariant::BranchWithStatus {
        if g.dirty {
            push_char(&mut text, '*');
        }
        let ghost t1 = base + (if g.dirty { seq!['*'] } else { Seq::empty() });
        assert(text@ =~= t1);
        let ghost t2 = t1 + (match g.ahead {
            Some(a) if a > 0 => seq![' ', '\u{2191}'] + dec(a as nat),
            _ => Seq::empty(),
        });
        if let Some(a) = g.ahead {
            if a > 0 {
                push_char(&mut text, ' ');
                push_char(&mut text, '\u{2191}');
                push_decimal(&mut text, a as u64);
            }
        }
        assert(text@ =~= t2);
        let ghost t3 = t2 + (match g.behind {
            Some(a) if a > 0 => seq![' ', '\u{2193}'] + dec(a as nat),
            _ => Seq::empty(),
        });
        if let Some(b) = g.behind {
            if b > 0 {
                push_char(&mut text, ' ');
                push_char(&mut text, '\u{2193}');
                push_decimal(&mut text, b as u64);
            }
        }
        assert(text@ =~= t3);
    }
    let r = truncate_graphemes(text.as_str(), 24);
    assert(git_text_spec(v, *g) == Some(r@));
    Some(r)
}

} // verus!
