//! The immutable input of one render: what is known about the session.

use vstd::prelude::*;
use crate::timer::RunTimerSnapshot;
use crate::timer::TimePoint;

verus! {

/// Everything the status line shows, as of one instant.
#[derive(Debug, Clone, Default)]
pub struct StatusLineSnapshot {
    pub cwd_display: Option<String>,
    pub cwd_basename: Option<String>,
    pub cwd_fallback: Option<String>,
    pub model: Option<StatusLineModelSnapshot>,
    pub tokens: Option<StatusLineTokenSnapshot>,
    pub context: Option<StatusLineContextSnapshot>,
    pub run_state: Option<StatusLineRunState>,
    pub git: Option<StatusLineGitSnapshot>,
    pub environment: StatusLineEnvironmentSnapshot,
}

/// Environment badges.
#[derive(Debug, Clone, Default)]
pub struct StatusLineEnvironmentSnapshot {
    pub devspace: Option<StatusLineDevspaceSnapshot>,
    pub hostname: Option<String>,
    pub aws_profile: Option<String>,
    pub kubernetes_context: Option<String>,
}

/// The active model and its reasoning detail.
#[derive(Debug, Clone, Default)]
pub struct StatusLineModelSnapshot {
    pub label: String,
    pub detail: Option<String>,
}

#[derive(Debug, Clone, Default)]
pub struct StatusLineTokenSnapshot {
    pub total: TokenCountSnapshot,
    pub last: Option<TokenCountSnapshot>,
}

/// Token usage counters.
#[derive(Debug, Clone, Copy, Default, PartialEq, Eq, Structural)]
pub struct TokenCountSnapshot {
    pub total_tokens: i64,
    pub input_tokens: i64,
    pub cached_input_tokens: i64,
    pub output_tokens: i64,
    pub reasoning_output_tokens: i64,
}

/// `v` clamped to the range of `i64`.
pub open spec fn clamp_i64(v: int) -> int {
    if v > i64::MAX { i64::MAX as int } else if v < i64::MIN { i64::MIN as int } else { v }
}

fn clamp_to_i64(v: i128) -> (r: i64)
    ensures
        r == clamp_i64(v as int),
{
    if v > i64::MAX as i128 {
        i64::MAX
    } else if v < i64::MIN as i128 {
        i64::MIN
    } else {
        v as i64
    }
}

impl TokenCountSnapshot {
    pub open spec fn input_without_cache_spec(&self) -> int {
        clamp_i64(self.input_tokens - self.cached_input_tokens)
    }

    pub open spec fn blended_total_spec(&self) -> int {
        clamp_i64(self.input_without_cache_spec() + self.output_tokens)
    }

    /// Input tokens that were not served from the cache (saturating).
    pub fn input_without_cache(&self) -> (r: i64)
        ensures
            r == self.input_without_cache_spec(),
    {
        clamp_to_i64(self.input_tokens as i128 - self.cached_input_tokens as i128)
    }

    /// Uncached input plus output tokens (saturating).
    pub fn blended_total(&self) -> (r: i64)
        ensures
            r == self.blended_total_spec(),
    {
        clamp_to_i64(self.input_without_cache() as i128 + self.output_tokens as i128)
    }
}

/// Context-window usage.
#[derive(Debug, Clone, Copy, Default, PartialEq, Eq, Structural)]
pub struct StatusLineContextSnapshot {
    pub percent_remaining: u8,
    pub tokens_in_context: i64,
    pub window: i64,
}

impl StatusLineContextSnapshot {
    /// `100 - percent_remaining`, floored at zero.
    pub fn percent_used(&self) -> (r: u8)
        ensures
            r == (if self.percent_remaining >= 100 { 0 } else { 100 - self.percent_remaining }),
    {
        100u8.saturating_sub(self.percent_remaining)
    }
}

/// Git state of the working directory.
#[derive(Debug, Clone, Default)]
pub struct StatusLineGitSnapshot {
    pub branch: Option<String>,
    pub dirty: bool,
    pub ahead: Option<i64>,
    pub behind: Option<i64>,
}

#[derive(Debug, Clone, Default)]
pub struct StatusLineDevspaceSnapshot {
    pub name: String,
}

/// The task being run.
#[derive(Debug, Clone, Default)]
pub struct StatusLineRunState {
    pub label: String,
    pub timer: Option<RunTimerSnapshot>,
    pub queued_messages: Vec<String>,
    pub show_interrupt_hint: bool,
    pub status_changed_at: TimePoint,
}

} // verus!

verus! {

pub open spec fn opt_view(o: Option<String>) -> Option<Seq<char>> {
    match o {
        Some(s) => Some(s@),
        None => None,
    }
}

pub open spec fn strings_view(v: Seq<String>) -> Seq<Seq<char>> {
    v.map_values(|s: String| s@)
}

/// Two snapshots that show the same thing, field by field.
pub open spec fn same_snapshot(a: StatusLineSnapshot, b: StatusLineSnapshot) -> bool {
    &&& opt_view(a.cwd_display) == opt_view(b.cwd_display)
    &&& opt_view(a.cwd_basename) == opt_view(b.cwd_basename)
    &&& opt_view(a.cwd_fallback) == opt_view(b.cwd_fallback)
    &&& same_model(a.model, b.model)
    &&& same_tokens(a.tokens, b.tokens)
    &&& a.context == b.context
    &&& same_run(a.run_state, b.run_state)
    &&& same_git(a.git, b.git)
    &&& same_env(a.environment, b.environment)
}

pub open spec fn same_model(a: Option<StatusLineModelSnapshot>, b: Option<StatusLineModelSnapshot>) -> bool {
    match (a, b) {
        (None, None) => true,
        (Some(x), Some(y)) => x.label@ == y.label@ && opt_view(x.detail) == opt_view(y.detail),
        _ => false,
    }
}

pub open spec fn same_tokens(a: Option<StatusLineTokenSnapshot>, b: Option<StatusLineTokenSnapshot>) -> bool {
    match (a, b) {
        (None, None) => true,
        (Some(x), Some(y)) => x.total == y.total && x.last == y.last,
        _ => false,
    }
}

pub open spec fn same_run(a: Option<StatusLineRunState>, b: Option<StatusLineRunState>) -> bool {
    match (a, b) {
        (None, None) => true,
        (Some(x), Some(y)) => x.label@ == y.label@ && x.timer == y.timer && strings_view(x.queued_messages@)
            == strings_view(y.queued_messages@) && x.show_interrupt_hint == y.show_interrupt_hint
            && x.status_changed_at == y.status_changed_at,
        _ => false,
    }
}

pub open spec fn same_git(a: Option<StatusLineGitSnapshot>, b: Option<StatusLineGitSnapshot>) -> bool {
    match (a, b) {
        (None, None) => true,
        (Some(x), Some(y)) => opt_view(x.branch) == opt_view(y.branch) && x.dirty == y.dirty && x.ahead
            == y.ahead && x.behind == y.behind,
        _ => false,
    }
}

pub open spec fn same_env(a: StatusLineEnvironmentSnapshot, b: StatusLineEnvironmentSnapshot) -> bool {
    &&& (match (a.devspace, b.devspace) {
        (None, None) => true,
        (Some(x), Some(y)) => x.name@ == y.name@,
        _ => false,
    })
    &&& opt_view(a.hostname) == opt_view(b.hostname)
    &&& opt_view(a.aws_profile) == opt_view(b.aws_profile)
    &&& opt_view(a.kubernetes_context) == opt_view(b.kubernetes_context)
}

pub fn copy_opt_string(o: &Option<String>) -> (r: Option<String>)
    ensures
        opt_view(r) == opt_view(*o),
{
    match o {
        Some(s) => Some(s.clone()),
        None => None,
    }
}

pub fn copy_strings(v: &Vec<String>) -> (r: Vec<String>)
    ensures
        strings_view(r@) == strings_view(v@),
{
    let mut r: Vec<String> = Vec::new();
    let mut i: usize = 0;
    while i < v.len()
        invariant
            i <= v@.len(),
            strings_view(r@) == strings_view(v@.take(i as int)),
        decreases v.len() - i,
    {
        let c = v[i].clone();
        let ghost before = r@;
        r.push(c);
        proof {
            assert(v@.take(i + 1) =~= v@.take(i as int).push(v@[i as int]));
            assert(strings_view(r@) =~= strings_view(before).push(c@));
            assert(strings_view(v@.take(i + 1)) =~= strings_view(v@.take(i as int)).push(v@[i as int]@));
        }
        i += 1;
    }
    assert(v@.take(v@.len() as int) =~= v@);
    r
}

pub fn copy_run_state(s: &StatusLineRunState) -> (r: StatusLineRunState)
    ensures
        same_run(Some(r), Some(*s)),
{
    StatusLineRunState {
        label: s.label.clone(),
        timer: s.timer,
        queued_messages: copy_strings(&s.queued_messages),
        show_interrupt_hint: s.show_interrupt_hint,
        status_changed_at: s.status_changed_at,
    }
}

/// A copy of `s` that shows the same thing.
pub fn copy_snapshot(s: &StatusLineSnapshot) -> (r: StatusLineSnapshot)
    ensures
        same_snapshot(r, *s),
{
    StatusLineSnapshot {
        cwd_display: copy_opt_string(&s.cwd_display),
        cwd_basename: copy_opt_string(&s.cwd_basename),
        cwd_fallback: copy_opt_string(&s.cwd_fallback),
        model: match &s.model {
            Some(m) => Some(StatusLineModelSnapshot { label: m.label.clone(), detail: copy_opt_string(&m.detail) }),
            None => None,
        },
        tokens: match &s.tokens {
            Some(t) => Some(StatusLineTokenSnapshot { total: t.total, last: t.last }),
            None => None,
        },
        context: s.context,
        run_state: match &s.run_state {
            Some(r) => Some(copy_run_state(r)),
            None => None,
        },
        git: match &s.git {
            Some(g) => Some(StatusLineGitSnapshot {
                branch: copy_opt_string(&g.branch),
                dirty: g.dirty,
                ahead: g.ahead,
                behind: g.behind,
            }),
            None => None,
        },
        environment: StatusLineEnvironmentSnapshot {
            devspace: match &s.environment.devspace {
                Some(d) => Some(StatusLineDevspaceSnapshot { name: d.name.clone() }),
                None => None,
            },
            hostname: copy_opt_string(&s.environment.hostname),
            aws_profile: copy_opt_string(&s.environment.aws_profile),
            kubernetes_context: copy_opt_string(&s.environment.kubernetes_context),
        },
    }
}

} // verus!

verus! {

impl StatusLineSnapshot {
    /// A snapshot that knows nothing yet.
    pub fn empty() -> (r: StatusLineSnapshot)
        ensures
            r.cwd_display is None && r.cwd_basename is None && r.cwd_fallback is None,
            r.model is None && r.tokens is None && r.context is None,
            r.run_state is None && r.git is None,
            r.environment.devspace is None && r.environment.hostname is None,
            r.environment.aws_profile is None && r.environment.kubernetes_context is None,
    {
        StatusLineSnapshot {
            cwd_display: None,
            cwd_basename: None,
            cwd_fallback: None,
            model: None,
            tokens: None,
            context: None,
            run_state: None,
            git: None,
            environment: StatusLineEnvironmentSnapshot {
                devspace: None,
                hostname: None,
                aws_profile: None,
                kubernetes_context: None,
            },
        }
    }
}

impl StatusLineRunState {
    /// A run state with no label, timer or queue, changed at `now`.
    pub fn blank(now: TimePoint) -> (r: StatusLineRunState)
        ensures
            r.label@.len() == 0,
            r.timer is None,
            r.queued_messages@.len() == 0,
            !r.show_interrupt_hint,
            r.status_changed_at == now,
    {
        StatusLineRunState {
            label: String::new(),
            timer: None,
            queued_messages: Vec::new(),
            show_interrupt_hint: false,
            status_changed_at: now,
        }
    }
}

} // verus!
