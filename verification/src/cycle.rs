//! One polling cycle: which provider tasks it starts and when it may end.
//!
//! A cycle looks at the settings once, plans one task per known provider
//! kind — a real poll when the provider's credentials are present, a
//! logged no-op otherwise — and may only move on to its sleep when every
//! started task has been collected.

use crate::config::Config;
use vstd::prelude::*;
use vstd::string::StringExecFns;

verus! {

/// The closed set of known upstream providers.
#[derive(Clone, Copy, PartialEq, Eq, Structural, Debug)]
pub enum ProviderKind {
    Cvs,
    Walgreens,
}

/// One task of a cycle: poll the provider, or log that it is not
/// configured and move on.
pub enum CycleTask {
    Run(ProviderKind),
    Skip(ProviderKind, String),
}

impl CycleTask {
    /// The provider the task belongs to.
    pub open spec fn kind(&self) -> ProviderKind {
        match self {
            CycleTask::Run(k) => *k,
            CycleTask::Skip(k, _) => *k,
        }
    }

    /// Whether the task polls the provider.
    pub open spec fn is_run(&self) -> bool {
        self is Run
    }
}

/// Whether the settings enable the provider: its credentials are present.
pub open spec fn spec_enabled(config: Config, kind: ProviderKind) -> bool {
    match kind {
        ProviderKind::Cvs => config.cvs is Some,
        ProviderKind::Walgreens => config.walgreens is Some,
    }
}

/// The line a skipped provider logs in place of a poll.
pub open spec fn spec_skip_line(kind: ProviderKind) -> Seq<char> {
    match kind {
        ProviderKind::Cvs => ("No CVS configuration. Moving on.")@,
        ProviderKind::Walgreens => ("No Walgreens configuration. Moving on.")@,
    }
}

/// What a correct plan for these settings looks like: one task per known
/// provider kind, in the fixed order CVS then Walgreens, each a poll
/// exactly when the provider is enabled, and each no-op carrying its line.
pub open spec fn spec_plan_matches(plan: Seq<CycleTask>, config: Config) -> bool {
    &&& plan.len() == 2
    &&& plan[0].kind() == ProviderKind::Cvs
    &&& plan[1].kind() == ProviderKind::Walgreens
    &&& forall|i: int|
        0 <= i < plan.len() ==> ((#[trigger] plan[i]).is_run() <==> spec_enabled(
            config,
            plan[i].kind(),
        ))
    &&& forall|i: int|
        0 <= i < plan.len() ==> ((#[trigger] plan[i]) is Skip ==> plan[i]->Skip_1@
            == spec_skip_line(plan[i].kind()))
}

/// Plans one cycle over the settings: a poll task for every enabled
/// provider, a logged no-op for every other one.
pub fn plan_cycle(config: &Config) -> (plan: Vec<CycleTask>)
    ensures
        spec_plan_matches(plan@, *config),
{
    let mut plan: Vec<CycleTask> = Vec::new();
    let cvs_task = if config.cvs.is_some() {
        CycleTask::Run(ProviderKind::Cvs)
    } else {
        CycleTask::Skip(ProviderKind::Cvs, String::from_str("No CVS configuration. Moving on."))
    };
    plan.push(cvs_task);
    let walgreens_task = if config.walgreens.is_some() {
        CycleTask::Run(ProviderKind::Walgreens)
    } else {
        CycleTask::Skip(
            ProviderKind::Walgreens,
            String::from_str("No Walgreens configuration. Moving on."),
        )
    };
    plan.push(walgreens_task);
    plan
}

/// How many tasks of the plan belong to the provider.
pub open spec fn spec_count_tasks(plan: Seq<CycleTask>, kind: ProviderKind) -> int
    decreases plan.len(),
{
    if plan.len() == 0 {
        0
    } else {
        spec_count_tasks(plan.drop_last(), kind) + if plan.last().kind() == kind {
            1int
        } else {
            0int
        }
    }
}

/// How many tasks of the plan poll the provider.
pub open spec fn spec_count_runs(plan: Seq<CycleTask>, kind: ProviderKind) -> int
    decreases plan.len(),
{
    if plan.len() == 0 {
        0
    } else {
        spec_count_runs(plan.drop_last(), kind) + if plan.last().kind() == kind
            && plan.last().is_run() {
            1int
        } else {
            0int
        }
    }
}

/// Law: a cycle's plan holds exactly one task for each known provider, and
/// that task polls the provider exactly when its credentials are present —
/// an enabled provider is polled exactly once per cycle, a disabled one
/// never.
pub proof fn lemma_each_provider_exactly_once(
    plan: Seq<CycleTask>,
    config: Config,
    kind: ProviderKind,
)
    requires
        spec_plan_matches(plan, config),
    ensures
        spec_count_tasks(plan, kind) == 1,
        spec_count_runs(plan, kind) == if spec_enabled(config, kind) {
            1int
        } else {
            0int
        },
{
    let one = plan.drop_last();
    let none = one.drop_last();
    assert(none.len() == 0);
    assert(one.last() == plan[0]);
    assert(plan.last() == plan[1]);
    assert(spec_count_tasks(none, kind) == 0);
    assert(spec_count_runs(none, kind) == 0);
    assert(spec_count_tasks(one, kind) == if plan[0].kind() == kind {
        1int
    } else {
        0int
    });
    assert(spec_count_runs(one, kind) == if plan[0].kind() == kind && plan[0].is_run() {
        1int
    } else {
        0int
    });
    assert(plan[0].is_run() <==> spec_enabled(config, plan[0].kind()));
    assert(plan[1].is_run() <==> spec_enabled(config, plan[1].kind()));
    match kind {
        ProviderKind::Cvs => {
            assert(plan[1].kind() != kind);
        },
        ProviderKind::Walgreens => {
            assert(plan[0].kind() != kind);
        },
    }
}

/// The join barrier of a running cycle: how many provider tasks were
/// started and how many have been collected, successfully or not.
pub struct CycleRun {
    pub started: usize,
    pub collected: usize,
}

impl CycleRun {
    /// No more tasks were collected than started.
    pub open spec fn wf(&self) -> bool {
        self.collected <= self.started
    }

    /// A cycle that has just started its tasks: none collected yet.
    pub fn begin(started: usize) -> (r: CycleRun)
        ensures
            r.started == started,
            r.collected == 0,
            r.wf(),
    {
        CycleRun { started, collected: 0 }
    }

    /// Records that one more started task finished, with or without an
    /// outcome of its own.
    pub fn collect(&mut self)
        requires
            old(self).wf(),
            old(self).collected < old(self).started,
        ensures
            final(self).started == old(self).started,
            final(self).collected == old(self).collected + 1,
            final(self).wf(),
    {
        self.collected = self.collected + 1;
    }

    /// Whether the cycle may proceed to its sleep: every started task has
    /// been collected.
    pub fn may_sleep(&self) -> (r: bool)
        ensures
            r == (self.collected == self.started),
    {
        self.collected == self.started
    }
}

/// Law: while any started task is still outstanding, the cycle may not
/// proceed to its sleep.
pub proof fn lemma_no_sleep_before_barrier(r: CycleRun)
    requires
        r.collected < r.started,
    ensures
        r.collected != r.started,
{
}

} // verus!
