//! The run timer: accumulated running time that can be paused and resumed.

use vstd::prelude::*;

verus! {

/// A point in time, in milliseconds from an origin chosen by the caller.
#[derive(Clone, Copy, Debug, Default, PartialEq, Eq, Structural)]
pub struct TimePoint {
    pub millis: u64,
}

/// A length of time in milliseconds.
#[derive(Clone, Copy, Debug, Default, PartialEq, Eq, Structural)]
pub struct TimeSpan {
    pub millis: u64,
}

pub open spec fn sat_add(a: nat, b: nat) -> nat {
    if a + b > u64::MAX { u64::MAX as nat } else { a + b }
}

/// Time from `earlier` to `later`, zero when `later` comes first.
pub open spec fn since(later: TimePoint, earlier: TimePoint) -> nat {
    if later.millis >= earlier.millis { (later.millis - earlier.millis) as nat } else { 0 }
}

impl TimePoint {
    pub fn from_millis(millis: u64) -> (r: TimePoint)
        ensures
            r.millis == millis,
    {
        TimePoint { millis }
    }

    /// The point `span` later, saturating at the end of the range.
    pub fn plus(self, span: TimeSpan) -> (r: TimePoint)
        ensures
            r.millis == sat_add(self.millis as nat, span.millis as nat),
    {
        TimePoint { millis: self.millis.saturating_add(span.millis) }
    }

    /// Time elapsed from `earlier` to `self`, or zero if `earlier` is later.
    pub fn saturating_duration_since(self, earlier: TimePoint) -> (r: TimeSpan)
        ensures
            r.millis == since(self, earlier),
    {
        TimeSpan { millis: self.millis.saturating_sub(earlier.millis) }
    }
}

impl TimeSpan {
    pub fn zero() -> (r: TimeSpan)
        ensures
            r.millis == 0,
    {
        TimeSpan { millis: 0 }
    }

    pub fn from_millis(millis: u64) -> (r: TimeSpan)
        ensures
            r.millis == millis,
    {
        TimeSpan { millis }
    }

    pub fn from_secs(secs: u64) -> (r: TimeSpan)
        requires
            secs <= u64::MAX / 1000,
        ensures
            r.millis == secs * 1000,
    {
        TimeSpan { millis: secs * 1000 }
    }

    pub fn as_millis(self) -> (r: u64)
        ensures
            r == self.millis,
    {
        self.millis
    }

    /// Whole seconds.
    pub fn as_secs(self) -> (r: u64)
        ensures
            r == self.millis / 1000,
    {
        self.millis / 1000
    }

    pub fn saturating_add(self, other: TimeSpan) -> (r: TimeSpan)
        ensures
            r.millis == sat_add(self.millis as nat, other.millis as nat),
    {
        TimeSpan { millis: self.millis.saturating_add(other.millis) }
    }
}

/// A read-only view of a run timer at some instant.
#[derive(Clone, Copy, Debug, PartialEq, Eq, Structural)]
pub struct RunTimerSnapshot {
    pub elapsed_running: TimeSpan,
    pub last_resume_at: Option<TimePoint>,
    pub is_paused: bool,
}

/// Running time at `now`: the accumulated time, plus the time since the last
/// resume while running.
pub open spec fn elapsed_spec(
    elapsed: TimeSpan,
    last_resume_at: Option<TimePoint>,
    is_paused: bool,
    now: TimePoint,
) -> nat {
    if is_paused || last_resume_at is None {
        elapsed.millis as nat
    } else {
        sat_add(elapsed.millis as nat, since(now, last_resume_at->0))
    }
}

impl RunTimerSnapshot {
    /// Running time at `now`.
    pub fn elapsed_at(&self, now: TimePoint) -> (r: TimeSpan)
        ensures
            r.millis == elapsed_spec(self.elapsed_running, self.last_resume_at, self.is_paused, now),
    {
        if self.is_paused {
            return self.elapsed_running;
        }
        match self.last_resume_at {
            None => self.elapsed_running,
            Some(last_resume) => self.elapsed_running.saturating_add(
                now.saturating_duration_since(last_resume),
            ),
        }
    }
}

/// A pause/resume timer for the duration of a run.
#[derive(Clone, Copy, Debug, PartialEq, Eq, Structural)]
pub struct RunTimer {
    pub elapsed_running: TimeSpan,
    pub last_resume_at: Option<TimePoint>,
    pub is_paused: bool,
}

impl RunTimer {
    /// A running timer holds the instant it was last resumed.
    pub open spec fn wf(&self) -> bool {
        !self.is_paused ==> self.last_resume_at is Some
    }

    /// Running time at `now`.
    pub open spec fn elapsed(&self, now: TimePoint) -> nat {
        elapsed_spec(self.elapsed_running, self.last_resume_at, self.is_paused, now)
    }

    /// The timer after `resume(now)`.
    pub open spec fn resumed_at(self, now: TimePoint) -> RunTimer {
        if self.is_paused {
            RunTimer { last_resume_at: Some(now), is_paused: false, ..self }
        } else {
            self
        }
    }

    /// The timer after `pause(now)`.
    pub open spec fn paused_at(self, now: TimePoint) -> RunTimer {
        if self.is_paused {
            self
        } else {
            RunTimer {
                elapsed_running: TimeSpan { millis: self.elapsed(now) as u64 },
                is_paused: true,
                ..self
            }
        }
    }

    /// A timer that starts running at `now` from zero.
    pub fn new(now: TimePoint) -> (r: RunTimer)
        ensures
            r.wf(),
            !r.is_paused,
            r.last_resume_at == Some(now),
            r.elapsed_running.millis == 0,
    {
        RunTimer { elapsed_running: TimeSpan::zero(), last_resume_at: Some(now), is_paused: false }
    }

    /// Starts running again from `now`; no effect while running.
    pub fn resume(&mut self, now: TimePoint)
        requires
            old(self).wf(),
        ensures
            final(self).wf(),
            *final(self) == old(self).resumed_at(now),
    {
        if self.is_paused {
            self.last_resume_at = Some(now);
            self.is_paused = false;
        }
    }

    /// Stops running at `now`, folding the time since the last resume into the
    /// accumulated time; no effect while paused.
    pub fn pause(&mut self, now: TimePoint)
        requires
            old(self).wf(),
        ensures
            final(self).wf(),
            *final(self) == old(self).paused_at(now),
            final(self).elapsed_running.millis == old(self).elapsed(now),
    {
        if self.is_paused {
            return;
        }
        if let Some(last) = self.last_resume_at {
            self.elapsed_running = self.elapsed_running.saturating_add(
                now.saturating_duration_since(last),
            );
        }
        self.is_paused = true;
    }

    /// The timer as seen at `now`: running time so far and, while running,
    /// `now` as the resume point.
    pub fn snapshot(&self, now: TimePoint) -> (r: RunTimerSnapshot)
        requires
            self.wf(),
        ensures
            r.elapsed_running.millis == self.elapsed(now),
            r.is_paused == self.is_paused,
            r.last_resume_at == (if self.is_paused { self.last_resume_at } else { Some(now) }),
    {
        let mut elapsed = self.elapsed_running;
        let mut last_resume = self.last_resume_at;
        if !self.is_paused {
            if let Some(last) = self.last_resume_at {
                elapsed = elapsed.saturating_add(now.saturating_duration_since(last));
            }
            last_resume = Some(now);
        }
        RunTimerSnapshot { elapsed_running: elapsed, last_resume_at: last_resume, is_paused: self.is_paused }
    }
}

/// Pausing and at once resuming does not change the running time; a running
/// timer then reads, at any later instant, as if it had never been paused.
pub proof fn lemma_pause_resume_keeps_elapsed(t: RunTimer, now: TimePoint, later: TimePoint)
    requires
        t.wf(),
        t.last_resume_at matches Some(l) ==> l.millis <= now.millis,
        now.millis <= later.millis,
    ensures
        t.paused_at(now).resumed_at(now).elapsed(now) == t.elapsed(now),
        !t.is_paused ==> t.paused_at(now).resumed_at(now).elapsed(later) == t.elapsed(later),
{
}

/// A snapshot taken at `now` reads, at any later instant, what the timer
/// itself reads then.
pub proof fn lemma_snapshot_tracks_timer(t: RunTimer, now: TimePoint, later: TimePoint)
    requires
        t.wf(),
        t.last_resume_at matches Some(l) ==> l.millis <= now.millis,
        now.millis <= later.millis,
    ensures
        ({
            let s = RunTimerSnapshot {
                elapsed_running: TimeSpan { millis: t.elapsed(now) as u64 },
                last_resume_at: if t.is_paused { t.last_resume_at } else { Some(now) },
                is_paused: t.is_paused,
            };
            elapsed_spec(s.elapsed_running, s.last_resume_at, s.is_paused, later) == t.elapsed(later)
        }),
{
}

} // verus!
