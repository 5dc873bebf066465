//! The live status-line state: the one owner that applies updates, keeps the
//! run timer, and hands the renderer a copy of the snapshot.

use vstd::prelude::*;
use vstd::string::StringExecFns;
use crate::content::default_status_message;
use crate::content::default_status_string;
use crate::render::StatusLineRenderer;
use crate::snapshot::StatusLineContextSnapshot;
use crate::snapshot::StatusLineDevspaceSnapshot;
use crate::snapshot::StatusLineGitSnapshot;
use crate::snapshot::StatusLineModelSnapshot;
use crate::snapshot::StatusLineRunState;
use crate::snapshot::StatusLineSnapshot;
use crate::snapshot::StatusLineTokenSnapshot;
use crate::snapshot::TokenCountSnapshot;
use crate::snapshot::clamp_i64;
use crate::snapshot::copy_run_state;
use crate::snapshot::copy_snapshot;
use crate::snapshot::copy_strings;
use crate::snapshot::same_snapshot;
use crate::snapshot::strings_view;
use crate::style::Line;
use crate::style::spans_width;
use crate::timer::RunTimer;
use crate::timer::RunTimerSnapshot;
use crate::timer::TimePoint;
use crate::timer::TimeSpan;
use crate::workspace::ReasoningEffort;

verus! {

/// Token counts of one request or of a whole session.
#[derive(Clone, Copy, Debug, Default, PartialEq, Eq, Structural)]
pub struct TokenUsage {
    pub input_tokens: i64,
    pub cached_input_tokens: i64,
    pub output_tokens: i64,
    pub reasoning_output_tokens: i64,
    pub total_tokens: i64,
}

impl TokenUsage {
    pub open spec fn in_window_spec(&self) -> int {
        clamp_i64(self.total_tokens - self.reasoning_output_tokens)
    }

    /// Tokens that stay in the context window: all but reasoning output.
    pub fn tokens_in_context_window(&self) -> (r: i64)
        ensures
            r == self.in_window_spec(),
    {
        let v: i128 = self.total_tokens as i128 - self.reasoning_output_tokens as i128;
        if v > i64::MAX as i128 {
            i64::MAX
        } else if v < i64::MIN as i128 {
            i64::MIN
        } else {
            v as i64
        }
    }
}

/// Session totals, the last request, and the model's context window.
#[derive(Clone, Copy, Debug, Default, PartialEq, Eq, Structural)]
pub struct TokenUsageInfo {
    pub total_token_usage: TokenUsage,
    pub last_token_usage: TokenUsage,
    pub model_context_window: Option<i64>,
}

/// Tokens every conversation spends before any work.
pub const BASELINE_TOKENS: i64 = 12_000;

/// Percent of the window left once the baseline is set aside, rounded down.
pub open spec fn percent_remaining_spec(in_window: int, window: int) -> int {
    if window <= BASELINE_TOKENS {
        0
    } else {
        let effective = window - BASELINE_TOKENS;
        let used = if in_window - BASELINE_TOKENS > 0 { in_window - BASELINE_TOKENS } else { 0 };
        let remaining = if effective - used > 0 { effective - used } else { 0 };
        let p = remaining * 100 / effective;
        if p > 100 { 100 } else { p }
    }
}

/// Percent of the context window still free after the last request.
pub fn context_percent_remaining(last: &TokenUsage, context_window: i64) -> (r: u8)
    ensures
        r as int == percent_remaining_spec(last.in_window_spec(), context_window as int),
{
    if context_window <= BASELINE_TOKENS {
        return 0;
    }
    let effective: i128 = context_window as i128 - BASELINE_TOKENS as i128;
    let over: i128 = last.tokens_in_context_window() as i128 - BASELINE_TOKENS as i128;
    let used: i128 = if over > 0 { over } else { 0 };
    let remaining: i128 = if effective - used > 0 { effective - used } else { 0 };
    assert(remaining <= effective);
    assert(remaining * 100 <= effective * 100) by (nonlinear_arith)
        requires remaining <= effective, remaining >= 0;
    let p: i128 = remaining * 100 / effective;
    assert(p as int <= 100) by (nonlinear_arith)
        requires p as int == (remaining as int * 100) / effective as int, remaining <= effective, effective > 0, remaining >= 0;
    assert(p as int >= 0) by (nonlinear_arith)
        requires p as int == (remaining as int * 100) / effective as int, effective > 0, remaining >= 0;
    p as u8
}

pub open spec fn counts_of(u: TokenUsage) -> TokenCountSnapshot {
    TokenCountSnapshot {
        total_tokens: u.total_tokens,
        input_tokens: u.input_tokens,
        cached_input_tokens: u.cached_input_tokens,
        output_tokens: u.output_tokens,
        reasoning_output_tokens: u.reasoning_output_tokens,
    }
}

fn counts(u: &TokenUsage) -> (r: TokenCountSnapshot)
    ensures
        r == counts_of(*u),
{
    TokenCountSnapshot {
        total_tokens: u.total_tokens,
        input_tokens: u.input_tokens,
        cached_input_tokens: u.cached_input_tokens,
        output_tokens: u.output_tokens,
        reasoning_output_tokens: u.reasoning_output_tokens,
    }
}

/// The token and context snapshots of a usage report; the context only
/// when a window size is known.
pub fn token_snapshot_from_info(info: &TokenUsageInfo, context_window: Option<i64>) -> (r: (StatusLineTokenSnapshot, Option<StatusLineContextSnapshot>))
    ensures
        r.0.total == counts_of(info.total_token_usage),
        r.0.last == Some(counts_of(info.last_token_usage)),
        context_window is None ==> r.1 is None,
        context_window matches Some(w) ==> (r.1 matches Some(c) && c.window == w
            && c.tokens_in_context == info.last_token_usage.in_window_spec()
            && c.percent_remaining as int == percent_remaining_spec(info.last_token_usage.in_window_spec(), w as int)),
{
    let tokens = StatusLineTokenSnapshot {
        total: counts(&info.total_token_usage),
        last: Some(counts(&info.last_token_usage)),
    };
    let context = match context_window {
        Some(window) => Some(StatusLineContextSnapshot {
            percent_remaining: context_percent_remaining(&info.last_token_usage, window),
            tokens_in_context: info.last_token_usage.tokens_in_context_window(),
            window,
        }),
        None => None,
    };
    (tokens, context)
}

/// The detail shown beside the model for a reasoning effort.
pub fn reasoning_detail(effort: Option<ReasoningEffort>) -> (r: Option<String>)
    ensures
        effort == Some(ReasoningEffort::High) ==> (r matches Some(s) && s@ == "high"@),
        effort == Some(ReasoningEffort::Low) ==> (r matches Some(s) && s@ == "low"@),
        effort != Some(ReasoningEffort::High) && effort != Some(ReasoningEffort::Low) ==> r is None,
{
    match effort {
        Some(ReasoningEffort::High) => Some(String::from_str("high")),
        Some(ReasoningEffort::Low) => Some(String::from_str("low")),
        _ => None,
    }
}

/// Delay before the next frame while the run timer is running.
pub const TIMER_FRAME_MILLIS: u64 = 48;

/// The state behind the status line.
pub struct StatusLineState<R> {
    pub renderer: R,
    pub snapshot: StatusLineSnapshot,
    pub run_timer: Option<RunTimer>,
    pub queued_messages: Vec<String>,
    pub esc_hint: bool,
    pub context_window_hint: Option<i64>,
    pub redraw_requested: bool,
}

/// The run state shown while no task runs.
pub open spec fn is_idle_run(r: StatusLineRunState, queued: Seq<String>, now: TimePoint) -> bool {
    &&& r.label@ == default_status_message()
    &&& r.timer == Some(RunTimerSnapshot { elapsed_running: TimeSpan { millis: 0 }, last_resume_at: None, is_paused: true })
    &&& strings_view(r.queued_messages@) == strings_view(queued)
    &&& !r.show_interrupt_hint
    &&& r.status_changed_at == now
}

impl<R: StatusLineRenderer> StatusLineState<R> {
    pub open spec fn wf(&self) -> bool {
        self.run_timer matches Some(t) ==> t.wf()
    }

    /// A state for the working directory shown as `cwd_display` (base name
    /// `cwd_basename`), idle at `now`.
    pub fn with_renderer(renderer: R, context_window_hint: Option<i64>, cwd_display: String, cwd_basename: Option<String>, now: TimePoint) -> (r: Self)
        ensures
            r.wf(),
            r.run_timer is None,
            r.esc_hint,
            r.context_window_hint == context_window_hint,
            r.snapshot.run_state matches Some(s) && is_idle_run(s, Seq::empty(), now),
            r.redraw_requested,
    {
        let mut state = StatusLineState {
            renderer,
            snapshot: StatusLineSnapshot::empty(),
            run_timer: None,
            queued_messages: Vec::new(),
            esc_hint: true,
            context_window_hint,
            redraw_requested: false,
        };
        state.set_working_directory(cwd_display, cwd_basename);
        state.set_idle_run_state(now);
        state
    }

    pub fn set_renderer(&mut self, renderer: R)
        ensures
            final(self).redraw_requested,
    {
        self.renderer = renderer;
        self.redraw_requested = true;
    }

    /// Whether a redraw was asked for since the last call; clears the request.
    pub fn take_redraw_request(&mut self) -> (r: bool)
        ensures
            r == old(self).redraw_requested,
            !final(self).redraw_requested,
            final(self).snapshot == old(self).snapshot,
            final(self).run_timer == old(self).run_timer,
    {
        let r = self.redraw_requested;
        self.redraw_requested = false;
        r
    }

    /// Shows the working directory: its display form, its base name when it
    /// has one, and the base name (else the display form) as the fallback.
    pub fn set_working_directory(&mut self, display: String, basename: Option<String>)
        ensures
            final(self).snapshot.cwd_display matches Some(d) && d@ == display@,
            match basename {
                Some(b) if b@.len() > 0 => (final(self).snapshot.cwd_basename matches Some(x) && x@ == b@)
                    && (final(self).snapshot.cwd_fallback matches Some(f) && f@ == b@),
                _ => final(self).snapshot.cwd_basename is None
                    && (final(self).snapshot.cwd_fallback matches Some(f) && f@ == display@),
            },
            final(self).run_timer == old(self).run_timer,
            final(self).esc_hint == old(self).esc_hint,
            final(self).context_window_hint == old(self).context_window_hint,
            final(self).queued_messages == old(self).queued_messages,
            final(self).redraw_requested,
    {
        let basename = match basename {
            Some(b) => if b.unicode_len() > 0 { Some(b) } else { None },
            None => None,
        };
        let fallback = match &basename {
            Some(b) => b.clone(),
            None => display.clone(),
        };
        self.snapshot.cwd_display = Some(display);
        self.snapshot.cwd_basename = basename;
        self.snapshot.cwd_fallback = Some(fallback);
        self.redraw_requested = true;
    }

    pub fn update_model(&mut self, label: String, effort: Option<ReasoningEffort>)
        ensures
            final(self).snapshot.model matches Some(m) && m.label@ == label@,
            final(self).run_timer == old(self).run_timer,
            final(self).redraw_requested,
    {
        let detail = reasoning_detail(effort);
        self.snapshot.model = Some(StatusLineModelSnapshot { label, detail });
        self.redraw_requested = true;
    }

    /// Takes a usage report; the window size falls back to the configured one.
    pub fn update_tokens(&mut self, info: Option<TokenUsageInfo>)
        ensures
            info is None ==> final(self).snapshot.tokens is None && final(self).snapshot.context is None,
            info matches Some(i) ==> (final(self).snapshot.tokens matches Some(t) && t.total == counts_of(i.total_token_usage)),
            info matches Some(i) ==> (final(self).snapshot.context is Some <==> (i.model_context_window is Some || old(self).context_window_hint is Some)),
            final(self).run_timer == old(self).run_timer,
            final(self).redraw_requested,
    {
        match info {
            Some(info) => {
                let window = match info.model_context_window {
                    Some(w) => Some(w),
                    None => self.context_window_hint,
                };
                let (tokens, context) = token_snapshot_from_info(&info, window);
                self.snapshot.tokens = Some(tokens);
                self.snapshot.context = context;
            },
            None => {
                self.snapshot.tokens = None;
                self.snapshot.context = None;
            },
        }
        self.redraw_requested = true;
    }

    pub fn set_git_info(&mut self, git: Option<StatusLineGitSnapshot>)
        ensures
            final(self).snapshot.git == git,
            final(self).run_timer == old(self).run_timer,
            final(self).redraw_requested,
    {
        self.snapshot.git = git;
        self.redraw_requested = true;
    }

    pub fn set_devspace(&mut self, devspace: Option<String>)
        ensures
            devspace is None ==> final(self).snapshot.environment.devspace is None,
            devspace matches Some(n) ==> (final(self).snapshot.environment.devspace matches Some(d) && d.name@ == n@),
            final(self).redraw_requested,
    {
        self.snapshot.environment.devspace = match devspace {
            Some(name) => Some(StatusLineDevspaceSnapshot { name }),
            None => None,
        };
        self.redraw_requested = true;
    }

    pub fn set_hostname(&mut self, hostname: Option<String>)
        ensures
            final(self).snapshot.environment.hostname == hostname,
            final(self).redraw_requested,
    {
        self.snapshot.environment.hostname = hostname;
        self.redraw_requested = true;
    }

    pub fn set_aws_profile(&mut self, profile: Option<String>)
        ensures
            final(self).snapshot.environment.aws_profile == profile,
            final(self).redraw_requested,
    {
        self.snapshot.environment.aws_profile = profile;
        self.redraw_requested = true;
    }

    pub fn set_kubernetes_context(&mut self, context: Option<String>)
        ensures
            final(self).snapshot.environment.kubernetes_context == context,
            final(self).redraw_requested,
    {
        self.snapshot.environment.kubernetes_context = context;
        self.redraw_requested = true;
    }

    /// Shows or hides the interrupt hint of the running task.
    pub fn set_interrupt_hint_visible(&mut self, visible: bool)
        ensures
            final(self).esc_hint == visible,
            old(self).esc_hint != visible ==> (match final(self).snapshot.run_state {
                Some(r) => r.show_interrupt_hint == visible,
                None => true,
            }),
            old(self).esc_hint == visible ==> final(self).snapshot == old(self).snapshot,
            final(self).run_timer == old(self).run_timer,
    {
        if self.esc_hint == visible {
            return;
        }
        self.esc_hint = visible;
        if let Some(run_state) = self.snapshot.run_state.as_mut() {
            run_state.show_interrupt_hint = visible;
        }
        self.redraw_requested = true;
    }

    /// Replaces the queued follow-up messages.
    pub fn set_queued_messages(&mut self, messages: Vec<String>)
        ensures
            strings_view(final(self).queued_messages@) == strings_view(messages@),
            match final(self).snapshot.run_state {
                Some(r) => strings_view(r.queued_messages@) == strings_view(messages@),
                None => old(self).snapshot.run_state is None,
            },
            final(self).run_timer == old(self).run_timer,
            final(self).redraw_requested,
    {
        self.queued_messages = messages;
        if let Some(run_state) = self.snapshot.run_state.as_mut() {
            run_state.queued_messages = copy_strings(&self.queued_messages);
        }
        self.redraw_requested = true;
    }

    /// Changes the label of the running task, starting a run state if there
    /// is none.
    pub fn update_run_header(&mut self, header: &str, now: TimePoint)
        ensures
            final(self).snapshot.run_state matches Some(r) && r.label@ == header@,
            final(self).run_timer == old(self).run_timer,
    {
        let queued = copy_strings(&self.queued_messages);
        if let Some(run_state) = self.snapshot.run_state.as_mut() {
            let new_label = String::from_str(header);
            if run_state.label != new_label {
                run_state.label = new_label;
                run_state.status_changed_at = now;
                self.redraw_requested = true;
            }
        } else {
            self.snapshot.run_state = Some(StatusLineRunState {
                label: String::from_str(header),
                timer: None,
                queued_messages: queued,
                show_interrupt_hint: self.esc_hint,
                status_changed_at: now,
            });
            self.redraw_requested = true;
        }
    }

    /// Shows the idle run state: the default message and a zero timer.
    pub fn set_idle_run_state(&mut self, now: TimePoint)
        ensures
            final(self).snapshot.run_state matches Some(r) && is_idle_run(r, old(self).queued_messages@, now),
            final(self).run_timer == old(self).run_timer,
            final(self).esc_hint == old(self).esc_hint,
            final(self).context_window_hint == old(self).context_window_hint,
            strings_view(final(self).queued_messages@) == strings_view(old(self).queued_messages@),
            final(self).redraw_requested,
    {
        let run_state = StatusLineRunState {
            label: default_status_string(),
            timer: Some(RunTimerSnapshot { elapsed_running: TimeSpan::zero(), last_resume_at: None, is_paused: true }),
            queued_messages: copy_strings(&self.queued_messages),
            show_interrupt_hint: false,
            status_changed_at: now,
        };
        self.snapshot.run_state = Some(run_state);
        self.redraw_requested = true;
    }

    /// Starts a task labelled `header` at `now`: a new timer, or the existing
    /// one resumed in place.
    pub fn start_task(&mut self, header: String, now: TimePoint)
        requires
            old(self).wf(),
        ensures
            final(self).wf(),
            final(self).run_timer == Some(match old(self).run_timer {
                Some(t) => t.resumed_at(now),
                None => RunTimer { elapsed_running: TimeSpan { millis: 0 }, last_resume_at: Some(now), is_paused: false },
            }),
            final(self).snapshot.run_state matches Some(r) && r.label@ == header@ && r.show_interrupt_hint == old(self).esc_hint
                && strings_view(r.queued_messages@) == strings_view(old(self).queued_messages@) && r.status_changed_at == now,
            final(self).redraw_requested,
    {
        match self.run_timer.as_mut() {
            Some(timer) => timer.resume(now),
            None => self.run_timer = Some(RunTimer::new(now)),
        }
        let mut run_state = match &self.snapshot.run_state {
            Some(r) => copy_run_state(r),
            None => StatusLineRunState::blank(now),
        };
        run_state.label = header;
        run_state.show_interrupt_hint = self.esc_hint;
        run_state.queued_messages = copy_strings(&self.queued_messages);
        run_state.status_changed_at = now;
        self.snapshot.run_state = Some(run_state);
        self.redraw_requested = true;
    }

    /// Ends the task at `now`: the timer is dropped and the run state goes
    /// back to idle.
    pub fn complete_task(&mut self, now: TimePoint)
        requires
            old(self).wf(),
        ensures
            final(self).wf(),
            final(self).run_timer is None,
            final(self).snapshot.run_state matches Some(r) && is_idle_run(r, old(self).queued_messages@, now),
            final(self).redraw_requested,
    {
        if let Some(timer) = self.run_timer.as_mut() {
            timer.pause(now);
        }
        self.run_timer = None;
        self.set_idle_run_state(now);
    }

    /// Resumes the task's timer at `now`, if there is one.
    pub fn resume_timer(&mut self, now: TimePoint)
        requires
            old(self).wf(),
        ensures
            final(self).wf(),
            final(self).run_timer == match old(self).run_timer {
                Some(t) => Some(t.resumed_at(now)),
                None => None,
            },
    {
        if let Some(timer) = self.run_timer.as_mut() {
            timer.resume(now);
            self.redraw_requested = true;
        }
    }

    /// Whole seconds the task has run at `now`, if one is running.
    pub fn elapsed_seconds(&self, now: TimePoint) -> (r: Option<u64>)
        requires
            self.wf(),
        ensures
            match self.run_timer {
                Some(t) => r == Some((t.elapsed(now) / 1000) as u64),
                None => r is None,
            },
    {
        match &self.run_timer {
            Some(timer) => Some(timer.snapshot(now).elapsed_running.as_secs()),
            None => None,
        }
    }

    /// Whether frames must keep coming to animate the timer: after this many
    /// milliseconds, while it runs.
    pub fn frame_delay_millis(&self) -> (r: Option<u64>)
        ensures
            r is Some <==> (self.run_timer matches Some(t) && !t.is_paused),
    {
        match &self.run_timer {
            Some(t) => if !t.is_paused { Some(TIMER_FRAME_MILLIS) } else { None },
            None => None,
        }
    }

    /// A copy of the snapshot for a render at `now`, with the run state
    /// brought up to date from the timer, the queue and the hint setting.
    pub fn snapshot_for_render(&self, now: TimePoint) -> (r: StatusLineSnapshot)
        requires
            self.wf(),
        ensures
            match (self.snapshot.run_state, self.run_timer) {
                (Some(run), Some(t)) => same_snapshot(
                    r,
                    StatusLineSnapshot { run_state: r.run_state, ..self.snapshot },
                ) && (r.run_state matches Some(rr) && rr.label@ == run.label@
                    && (rr.timer matches Some(ts) && ts.elapsed_running.millis == t.elapsed(now)
                    && ts.is_paused == t.is_paused)
                    && strings_view(rr.queued_messages@) == strings_view(self.queued_messages@)
                    && rr.show_interrupt_hint == self.esc_hint),
                _ => same_snapshot(r, self.snapshot),
            },
    {
        let mut snapshot = copy_snapshot(&self.snapshot);
        if let Some(timer) = &self.run_timer {
            if let Some(run_state) = snapshot.run_state.as_mut() {
                run_state.timer = Some(timer.snapshot(now));
                run_state.queued_messages = copy_strings(&self.queued_messages);
                run_state.show_interrupt_hint = self.esc_hint;
            }
        }
        snapshot
    }

    /// The status line at `now`; the run state is shown in the pill, not here.
    pub fn render_line(&self, width: u16, now: TimePoint) -> (r: Line)
        requires
            self.wf(),
        ensures
            spans_width(r@) == width as nat,
    {
        let mut snapshot = self.snapshot_for_render(now);
        snapshot.run_state = None;
        self.renderer.render(&snapshot, width, now)
    }

    /// The run pill at `now`, idle when no task has a run state.
    pub fn render_run_pill(&self, width: u16, now: TimePoint) -> (r: Line)
        requires
            self.wf(),
        ensures
            spans_width(r@) == width as nat,
    {
        let mut snapshot = self.snapshot_for_render(now);
        if snapshot.run_state.is_none() {
            snapshot.run_state = Some(StatusLineRunState {
                label: default_status_string(),
                timer: Some(RunTimerSnapshot { elapsed_running: TimeSpan::zero(), last_resume_at: None, is_paused: true }),
                queued_messages: Vec::new(),
                show_interrupt_hint: false,
                status_changed_at: now,
            });
        }
        self.renderer.render_run_pill(&snapshot, width, now)
    }
}

} // verus!
