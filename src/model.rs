//! The degradation state of one render: which level of detail each element
//! is shown at, and the fixed order in which detail is given up.

use vstd::prelude::*;
use crate::snapshot::StatusLineEnvironmentSnapshot;
use crate::snapshot::StatusLineSnapshot;

verus! {

#[derive(Copy, Clone, Debug, Eq, PartialEq, Structural)]
pub enum PathVariant {
    Full,
    Basename,
    Hidden,
}

#[derive(Copy, Clone, Debug, Eq, PartialEq, Structural)]
pub enum TokenVariant {
    Full,
    Compact,
    Minimal,
    Hidden,
}

#[derive(Copy, Clone, Debug, Eq, PartialEq, Structural)]
pub enum ContextVariant {
    Bar,
    Compact,
    Hidden,
}

#[derive(Copy, Clone, Debug, Eq, PartialEq, Structural)]
pub enum GitVariant {
    BranchWithStatus,
    BranchOnly,
    Hidden,
}

#[derive(Copy, Clone, Debug, Eq, PartialEq, Structural)]
pub enum RunLabelVariant {
    Full,
    Short,
}

/// One step of giving up detail.
#[derive(Copy, Clone, Debug, Eq, PartialEq, Structural)]
pub enum DegradeOp {
    DropDevspace,
    DropKubernetes,
    DropAwsProfile,
    DropHostname,
    DropQueuePreview,
    HideInterruptHint,
    HideRunTimer,
    ShortenRunLabel,
    HideRunLabel,
    BasenamePath,
    SimplifyTokens,
    MinimalTokens,
    HideTokens,
    SimplifyContext,
    HideContext,
    SimplifyGit,
    HideGit,
    HidePath,
}

/// Which environment badges are shown.
#[derive(Copy, Clone, Debug, Eq, PartialEq, Structural)]
pub struct EnvironmentInclusion {
    pub hostname: bool,
    pub aws_profile: bool,
    pub kubernetes: bool,
    pub devspace: bool,
}

impl EnvironmentInclusion {
    /// Every badge that has data.
    pub fn new(snapshot: &StatusLineEnvironmentSnapshot) -> (r: EnvironmentInclusion)
        ensures
            r.hostname == snapshot.hostname is Some,
            r.aws_profile == snapshot.aws_profile is Some,
            r.kubernetes == snapshot.kubernetes_context is Some,
            r.devspace == snapshot.devspace is Some,
    {
        EnvironmentInclusion {
            hostname: snapshot.hostname.is_some(),
            aws_profile: snapshot.aws_profile.is_some(),
            kubernetes: snapshot.kubernetes_context.is_some(),
            devspace: snapshot.devspace.is_some(),
        }
    }

    /// No badge.
    pub fn empty() -> (r: EnvironmentInclusion)
        ensures
            !r.hostname && !r.aws_profile && !r.kubernetes && !r.devspace,
    {
        EnvironmentInclusion { hostname: false, aws_profile: false, kubernetes: false, devspace: false }
    }
}

/// Number of steps in the degradation order.
pub const DEGRADE_STEPS: usize = 18;

/// The degradation order: badges first, then run details, the path, token
/// detail, context detail, git detail, and the path last of all.
pub open spec fn degrade_order() -> Seq<DegradeOp> {
    seq![
        DegradeOp::DropDevspace,
        DegradeOp::DropKubernetes,
        DegradeOp::DropAwsProfile,
        DegradeOp::DropHostname,
        DegradeOp::DropQueuePreview,
        DegradeOp::HideInterruptHint,
        DegradeOp::HideRunTimer,
        DegradeOp::ShortenRunLabel,
        DegradeOp::HideRunLabel,
        DegradeOp::BasenamePath,
        DegradeOp::SimplifyTokens,
        DegradeOp::MinimalTokens,
        DegradeOp::HideTokens,
        DegradeOp::SimplifyContext,
        DegradeOp::HideContext,
        DegradeOp::SimplifyGit,
        DegradeOp::HideGit,
        DegradeOp::HidePath,
    ]
}

/// The step at `i` of the degradation order.
pub fn degrade_op_at(i: usize) -> (r: DegradeOp)
    requires
        i < DEGRADE_STEPS,
    ensures
        r == degrade_order()[i as int],
{
    match i {
        0 => DegradeOp::DropDevspace,
        1 => DegradeOp::DropKubernetes,
        2 => DegradeOp::DropAwsProfile,
        3 => DegradeOp::DropHostname,
        4 => DegradeOp::DropQueuePreview,
        5 => DegradeOp::HideInterruptHint,
        6 => DegradeOp::HideRunTimer,
        7 => DegradeOp::ShortenRunLabel,
        8 => DegradeOp::HideRunLabel,
        9 => DegradeOp::BasenamePath,
        10 => DegradeOp::SimplifyTokens,
        11 => DegradeOp::MinimalTokens,
        12 => DegradeOp::HideTokens,
        13 => DegradeOp::SimplifyContext,
        14 => DegradeOp::HideContext,
        15 => DegradeOp::SimplifyGit,
        16 => DegradeOp::HideGit,
        _ => DegradeOp::HidePath,
    }
}

/// Detail levels of every element of one render, and how far the
/// degradation order has been consumed.
#[derive(Copy, Clone, Debug, Eq, PartialEq, Structural)]
pub struct RenderModel {
    pub path_variant: PathVariant,
    pub token_variant: TokenVariant,
    pub context_variant: ContextVariant,
    pub git_variant: GitVariant,
    pub include_queue_preview: bool,
    pub show_interrupt_hint: bool,
    pub show_run_timer: bool,
    pub show_run_label: bool,
    pub run_label_variant: RunLabelVariant,
    pub env: EnvironmentInclusion,
    pub degrade_cursor: usize,
}

pub open spec fn path_rank(v: PathVariant) -> int {
    match v {
        PathVariant::Full => 0,
        PathVariant::Basename => 1,
        PathVariant::Hidden => 2,
    }
}

pub open spec fn token_rank(v: TokenVariant) -> int {
    match v {
        TokenVariant::Full => 0,
        TokenVariant::Compact => 1,
        TokenVariant::Minimal => 2,
        TokenVariant::Hidden => 3,
    }
}

pub open spec fn context_rank(v: ContextVariant) -> int {
    match v {
        ContextVariant::Bar => 0,
        ContextVariant::Compact => 1,
        ContextVariant::Hidden => 2,
    }
}

pub open spec fn git_rank(v: GitVariant) -> int {
    match v {
        GitVariant::BranchWithStatus => 0,
        GitVariant::BranchOnly => 1,
        GitVariant::Hidden => 2,
    }
}

pub open spec fn label_rank(v: RunLabelVariant) -> int {
    match v {
        RunLabelVariant::Full => 0,
        RunLabelVariant::Short => 1,
    }
}

/// `a` shows nothing that `b` does not: every element of `a` is at `b`'s
/// level of detail or below, and `a` is no earlier in the order.
pub open spec fn no_richer(a: RenderModel, b: RenderModel) -> bool {
    &&& path_rank(a.path_variant) >= path_rank(b.path_variant)
    &&& token_rank(a.token_variant) >= token_rank(b.token_variant)
    &&& context_rank(a.context_variant) >= context_rank(b.context_variant)
    &&& git_rank(a.git_variant) >= git_rank(b.git_variant)
    &&& label_rank(a.run_label_variant) >= label_rank(b.run_label_variant)
    &&& (a.include_queue_preview ==> b.include_queue_preview)
    &&& (a.show_interrupt_hint ==> b.show_interrupt_hint)
    &&& (a.show_run_timer ==> b.show_run_timer)
    &&& (a.show_run_label ==> b.show_run_label)
    &&& (a.env.hostname ==> b.env.hostname)
    &&& (a.env.aws_profile ==> b.env.aws_profile)
    &&& (a.env.kubernetes ==> b.env.kubernetes)
    &&& (a.env.devspace ==> b.env.devspace)
    &&& a.degrade_cursor >= b.degrade_cursor
}

/// Whether `op` still has something to give up in `m`.
pub open spec fn applies(m: RenderModel, op: DegradeOp) -> bool {
    match op {
        DegradeOp::DropDevspace => m.env.devspace,
        DegradeOp::DropKubernetes => m.env.kubernetes,
        DegradeOp::DropAwsProfile => m.env.aws_profile,
        DegradeOp::DropHostname => m.env.hostname,
        DegradeOp::DropQueuePreview => m.include_queue_preview,
        DegradeOp::HideInterruptHint => m.show_interrupt_hint,
        DegradeOp::HideRunTimer => m.show_run_timer,
        DegradeOp::ShortenRunLabel => m.show_run_label && m.run_label_variant == RunLabelVariant::Full,
        DegradeOp::HideRunLabel => m.show_run_label,
        DegradeOp::BasenamePath => m.path_variant == PathVariant::Full,
        DegradeOp::SimplifyTokens => m.token_variant == TokenVariant::Full,
        DegradeOp::MinimalTokens => m.token_variant == TokenVariant::Compact,
        DegradeOp::HideTokens => m.token_variant != TokenVariant::Hidden,
        DegradeOp::SimplifyContext => m.context_variant == ContextVariant::Bar,
        DegradeOp::HideContext => m.context_variant != ContextVariant::Hidden,
        DegradeOp::SimplifyGit => m.git_variant == GitVariant::BranchWithStatus,
        DegradeOp::HideGit => m.git_variant != GitVariant::Hidden,
        DegradeOp::HidePath => m.path_variant != PathVariant::Hidden,
    }
}

/// `m` after giving up what `op` names.
pub open spec fn after(m: RenderModel, op: DegradeOp) -> RenderModel {
    match op {
        DegradeOp::DropDevspace => RenderModel { env: EnvironmentInclusion { devspace: false, ..m.env }, ..m },
        DegradeOp::DropKubernetes => RenderModel { env: EnvironmentInclusion { kubernetes: false, ..m.env }, ..m },
        DegradeOp::DropAwsProfile => RenderModel { env: EnvironmentInclusion { aws_profile: false, ..m.env }, ..m },
        DegradeOp::DropHostname => RenderModel { env: EnvironmentInclusion { hostname: false, ..m.env }, ..m },
        DegradeOp::DropQueuePreview => RenderModel { include_queue_preview: false, ..m },
        DegradeOp::HideInterruptHint => RenderModel { show_interrupt_hint: false, ..m },
        DegradeOp::HideRunTimer => RenderModel { show_run_timer: false, ..m },
        DegradeOp::ShortenRunLabel => RenderModel { run_label_variant: RunLabelVariant::Short, ..m },
        DegradeOp::HideRunLabel => RenderModel { show_run_label: false, ..m },
        DegradeOp::BasenamePath => RenderModel { path_variant: PathVariant::Basename, ..m },
        DegradeOp::SimplifyTokens => RenderModel { token_variant: TokenVariant::Compact, ..m },
        DegradeOp::MinimalTokens => RenderModel { token_variant: TokenVariant::Minimal, ..m },
        DegradeOp::HideTokens => RenderModel { token_variant: TokenVariant::Hidden, ..m },
        DegradeOp::SimplifyContext => RenderModel { context_variant: ContextVariant::Compact, ..m },
        DegradeOp::HideContext => RenderModel { context_variant: ContextVariant::Hidden, ..m },
        DegradeOp::SimplifyGit => RenderModel { git_variant: GitVariant::BranchOnly, ..m },
        DegradeOp::HideGit => RenderModel { git_variant: GitVariant::Hidden, ..m },
        DegradeOp::HidePath => RenderModel { path_variant: PathVariant::Hidden, ..m },
    }
}

/// The outcome of `apply_next_degrade`: whether some step applied, and the
/// model after it.
pub open spec fn next_degrade(m: RenderModel) -> (bool, RenderModel)
    decreases DEGRADE_STEPS - m.degrade_cursor,
{
    if m.degrade_cursor >= DEGRADE_STEPS {
        (false, m)
    } else {
        let op = degrade_order()[m.degrade_cursor as int];
        let m1 = RenderModel { degrade_cursor: (m.degrade_cursor + 1) as usize, ..m };
        if applies(m1, op) {
            (true, after(m1, op))
        } else {
            next_degrade(m1)
        }
    }
}

/// Giving up detail never adds any.
pub proof fn lemma_after_no_richer(m: RenderModel, op: DegradeOp)
    requires
        applies(m, op),
    ensures
        no_richer(after(m, op), m),
        after(m, op).degrade_cursor == m.degrade_cursor,
{
    match op {
        DegradeOp::DropDevspace => {},
        DegradeOp::DropKubernetes => {},
        DegradeOp::DropAwsProfile => {},
        DegradeOp::DropHostname => {},
        DegradeOp::DropQueuePreview => {},
        DegradeOp::HideInterruptHint => {},
        DegradeOp::HideRunTimer => {},
        DegradeOp::ShortenRunLabel => {},
        DegradeOp::HideRunLabel => {},
        DegradeOp::BasenamePath => {},
        DegradeOp::SimplifyTokens => {},
        DegradeOp::MinimalTokens => {},
        DegradeOp::HideTokens => {},
        DegradeOp::SimplifyContext => {},
        DegradeOp::HideContext => {},
        DegradeOp::SimplifyGit => {},
        DegradeOp::HideGit => {},
        DegradeOp::HidePath => {},
    }
}

/// Each degradation step leaves a model that shows nothing the former one did
/// not, and moves strictly forward in the order, never past its end.
pub proof fn lemma_next_degrade_monotonic(m: RenderModel)
    requires
        m.degrade_cursor <= DEGRADE_STEPS,
    ensures
        no_richer(next_degrade(m).1, m),
        next_degrade(m).0 ==> next_degrade(m).1.degrade_cursor > m.degrade_cursor,
        next_degrade(m).1.degrade_cursor <= DEGRADE_STEPS,
    decreases DEGRADE_STEPS - m.degrade_cursor,
{
    if m.degrade_cursor < DEGRADE_STEPS {
        let op = degrade_order()[m.degrade_cursor as int];
        let m1 = RenderModel { degrade_cursor: (m.degrade_cursor + 1) as usize, ..m };
        assert(no_richer(m1, m));
        if applies(m1, op) {
            lemma_after_no_richer(m1, op);
            lemma_no_richer_transitive(after(m1, op), m1, m);
        } else {
            lemma_next_degrade_monotonic(m1);
            lemma_no_richer_transitive(next_degrade(m1).1, m1, m);
        }
    }
}

/// Being no richer is transitive: a run of degradation steps never brings
/// back what an earlier step dropped.
pub proof fn lemma_no_richer_transitive(a: RenderModel, b: RenderModel, c: RenderModel)
    requires
        no_richer(a, b),
        no_richer(b, c),
    ensures
        no_richer(a, c),
{
}

impl RenderModel {
    /// The richest detail for everything in `snapshot`, at the start of the
    /// degradation order.
    pub open spec fn initial(snapshot: &StatusLineSnapshot) -> RenderModel {
        RenderModel {
            path_variant: PathVariant::Full,
            token_variant: TokenVariant::Full,
            context_variant: ContextVariant::Bar,
            git_variant: GitVariant::BranchWithStatus,
            include_queue_preview: true,
            show_interrupt_hint: snapshot.run_state matches Some(s) && s.show_interrupt_hint,
            show_run_timer: snapshot.run_state matches Some(s) && s.timer is Some,
            show_run_label: snapshot.run_state is Some,
            run_label_variant: RunLabelVariant::Full,
            env: EnvironmentInclusion {
                hostname: snapshot.environment.hostname is Some,
                aws_profile: snapshot.environment.aws_profile is Some,
                kubernetes: snapshot.environment.kubernetes_context is Some,
                devspace: snapshot.environment.devspace is Some,
            },
            degrade_cursor: 0,
        }
    }

    pub fn new(snapshot: &StatusLineSnapshot) -> (r: RenderModel)
        ensures
            r == RenderModel::initial(snapshot),
    {
        let (show_hint, has_timer, has_run) = match &snapshot.run_state {
            Some(state) => (state.show_interrupt_hint, state.timer.is_some(), true),
            None => (false, false, false),
        };
        RenderModel {
            path_variant: PathVariant::Full,
            token_variant: TokenVariant::Full,
            context_variant: ContextVariant::Bar,
            git_variant: GitVariant::BranchWithStatus,
            include_queue_preview: true,
            show_interrupt_hint: show_hint,
            show_run_timer: has_timer,
            show_run_label: has_run,
            run_label_variant: RunLabelVariant::Full,
            env: EnvironmentInclusion::new(&snapshot.environment),
            degrade_cursor: 0,
        }
    }

    /// Applies `op` if it still has something to give up; says whether it did.
    pub fn apply_degrade(&mut self, op: DegradeOp) -> (r: bool)
        ensures
            r == applies(*old(self), op),
            *final(self) == (if r { after(*old(self), op) } else { *old(self) }),
    {
        match op {
            DegradeOp::DropDevspace => {
                if self.env.devspace { self.env.devspace = false; true } else { false }
            },
            DegradeOp::DropKubernetes => {
                if self.env.kubernetes { self.env.kubernetes = false; true } else { false }
            },
            DegradeOp::DropAwsProfile => {
                if self.env.aws_profile { self.env.aws_profile = false; true } else { false }
            },
            DegradeOp::DropHostname => {
                if self.env.hostname { self.env.hostname = false; true } else { false }
            },
            DegradeOp::DropQueuePreview => {
                if self.include_queue_preview { self.include_queue_preview = false; true } else { false }
            },
            DegradeOp::HideInterruptHint => {
                if self.show_interrupt_hint { self.show_interrupt_hint = false; true } else { false }
            },
            DegradeOp::HideRunTimer => {
                if self.show_run_timer { self.show_run_timer = false; true } else { false }
            },
            DegradeOp::ShortenRunLabel => {
                if self.show_run_label && self.run_label_variant == RunLabelVariant::Full {
                    self.run_label_variant = RunLabelVariant::Short;
                    true
                } else {
                    false
                }
            },
            DegradeOp::HideRunLabel => {
                if self.show_run_label { self.show_run_label = false; true } else { false }
            },
            DegradeOp::BasenamePath => {
                if self.path_variant == PathVariant::Full {
                    self.path_variant = PathVariant::Basename;
                    true
                } else {
                    false
                }
            },
            DegradeOp::SimplifyTokens => {
                if self.token_variant == TokenVariant::Full {
                    self.token_variant = TokenVariant::Compact;
                    true
                } else {
                    false
                }
            },
            DegradeOp::MinimalTokens => {
                if self.token_variant == TokenVariant::Compact {
                    self.token_variant = TokenVariant::Minimal;
                    true
                } else {
                    false
                }
            },
            DegradeOp::HideTokens => {
                if self.token_variant != TokenVariant::Hidden {
                    self.token_variant = TokenVariant::Hidden;
                    true
                } else {
                    false
                }
            },
            DegradeOp::SimplifyContext => {
                if self.context_variant == ContextVariant::Bar {
                    self.context_variant = ContextVariant::Compact;
                    true
                } else {
                    false
                }
            },
            DegradeOp::HideContext => {
                if self.context_variant != ContextVariant::Hidden {
                    self.context_variant = ContextVariant::Hidden;
                    true
                } else {
                    false
                }
            },
            DegradeOp::SimplifyGit => {
                if self.git_variant == GitVariant::BranchWithStatus {
                    self.git_variant = GitVariant::BranchOnly;
                    true
                } else {
                    false
                }
            },
            DegradeOp::HideGit => {
                if self.git_variant != GitVariant::Hidden {
                    self.git_variant = GitVariant::Hidden;
                    true
                } else {
                    false
                }
            },
            DegradeOp::HidePath => {
                if self.path_variant != PathVariant::Hidden {
                    self.path_variant = PathVariant::Hidden;
                    true
                } else {
                    false
                }
            },
        }
    }

    /// Advances through the degradation order to the first step that still
    /// applies and applies it; `false` once the order is used up.
    pub fn apply_next_degrade(&mut self) -> (r: bool)
        requires
            old(self).degrade_cursor <= DEGRADE_STEPS,
        ensures
            (r, *final(self)) == next_degrade(*old(self)),
            no_richer(*final(self), *old(self)),
            r ==> final(self).degrade_cursor > old(self).degrade_cursor,
            final(self).degrade_cursor <= DEGRADE_STEPS,
    {
        proof {
            lemma_next_degrade_monotonic(*old(self));
        }
        while self.degrade_cursor < DEGRADE_STEPS
            invariant
                self.degrade_cursor <= DEGRADE_STEPS,
                next_degrade(*self) == next_degrade(*old(self)),
            decreases DEGRADE_STEPS - self.degrade_cursor,
        {
            let op = degrade_op_at(self.degrade_cursor);
            self.degrade_cursor = self.degrade_cursor + 1;
            if self.apply_degrade(op) {
                proof {
                    lemma_next_degrade_monotonic(*old(self));
                }
                return true;
            }
        }
        proof {
            lemma_next_degrade_monotonic(*old(self));
        }
        false
    }
}

} // verus!
