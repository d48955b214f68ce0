//! The state of one deployment, and the moves that every stage shares:
//! ending, failing, and attempting a stage again within its budget.

use vstd::prelude::*;
use vstd::string::*;
use crate::command::{
    archive_of, archive_path, existence_probe, existence_probe_text, process_query,
    process_query_text, Probe,
};
use crate::error::{DeployError, DeployErrorView, Stage};
use crate::protocol::{Action, ActionView};
use crate::retry::{decision_after, Plan, RetryBudget, RetryDecision};
use crate::unit::{
    DeployTarget, DeployTargetView, DeploymentUnit, DeploymentUnitView, Outcome, OutcomeView,
    ProcessLifecycleState, ProcessLifecycleView, UnitKind,
};

verus! {

/// Which answer a deployment waits for.
#[derive(Clone, Copy, Debug, PartialEq, Eq, Structural)]
pub enum Phase {
    /// Nothing was asked yet.
    Created,
    ReadingLocal,
    Connecting,
    /// The pause before another attempt at a stage.
    Pausing(Stage),
    /// Transfer: the existence probe runs.
    Probing,
    /// Transfer: the previous file is moved aside.
    BackingUp,
    /// Transfer: the copy stream is being opened.
    Creating,
    Writing,
    SendingEof,
    AwaitingEof,
    Closing,
    AwaitingClose,
    /// Termination: the process query runs.
    Discovering,
    /// Termination: the first signal is sent.
    Signalling,
    /// Termination: the pause before the first check.
    Settling,
    /// Termination: a liveness check runs.
    Polling,
    /// Termination: the pause before a later check.
    BackingOff,
    /// Termination: the forced signal is sent after the checks ran out.
    Escalating,
    /// Termination: the one check after the forced signal.
    FinalCheck,
    /// Start: the launch command runs.
    Launching,
    /// Start: the pause before the process is looked for.
    Warming,
    /// Start: the process query runs.
    Confirming,
    /// The bundle is unpacked.
    Unpacking,
    /// The outcome is known.
    Finished,
}

/// One unit on its way to one target.
#[derive(Debug, PartialEq, Eq)]
pub struct Deployment {
    pub target: DeployTarget,
    pub unit: DeploymentUnit,
    /// The Java executable on the remote host.
    pub java_path: String,
    /// The environment's name, which is also the profile that the archive
    /// is started with.
    pub env: String,
    pub plan: Plan,
    pub phase: Phase,
    /// The bytes of the artifact, once they were read in full.
    pub data: Vec<u8>,
    /// The size of the artifact in bytes, once it was read.
    pub size: u64,
    /// The failed attempts at the stage that is under way.
    pub failures: u32,
    /// What the last existence probe found.
    pub probe: Option<Probe>,
    /// The process ids that the last process query found.
    pub pids: String,
    /// The liveness checks that failed since the last signal.
    pub checks: u32,
    pub process: Option<ProcessLifecycleState>,
    pub outcome: Option<Outcome>,
}

/// The state of a deployment, each text by its characters.
pub struct DeploymentView {
    pub target: DeployTargetView,
    pub unit: DeploymentUnitView,
    pub java_path: Seq<char>,
    pub env: Seq<char>,
    pub plan: Plan,
    pub phase: Phase,
    pub data: Seq<u8>,
    pub size: u64,
    pub failures: u32,
    pub probe: Option<Probe>,
    pub pids: Seq<char>,
    pub checks: u32,
    pub process: Option<ProcessLifecycleView>,
    pub outcome: Option<OutcomeView>,
}

impl View for Deployment {
    type V = DeploymentView;

    open spec fn view(&self) -> DeploymentView {
        DeploymentView {
            target: self.target@,
            unit: self.unit@,
            java_path: self.java_path@,
            env: self.env@,
            plan: self.plan,
            phase: self.phase,
            data: self.data@,
            size: self.size,
            failures: self.failures,
            probe: self.probe,
            pids: self.pids@,
            checks: self.checks,
            process: match self.process {
                Some(state) => Some(state@),
                None => None,
            },
            outcome: match self.outcome {
                Some(outcome) => Some(outcome@),
                None => None,
            },
        }
    }
}

/// The state of a deployment that has not begun.
pub open spec fn created(
    target: DeployTargetView,
    unit: DeploymentUnitView,
    java_path: Seq<char>,
    env: Seq<char>,
    plan: Plan,
) -> DeploymentView {
    DeploymentView {
        target,
        unit,
        java_path,
        env,
        plan,
        phase: Phase::Created,
        data: Seq::empty(),
        size: 0,
        failures: 0,
        probe: None,
        pids: Seq::empty(),
        checks: 0,
        process: None,
        outcome: None,
    }
}

/// The deployment ends with `outcome`.
pub open spec fn halted(s: DeploymentView, outcome: OutcomeView) -> (DeploymentView, ActionView) {
    (DeploymentView { phase: Phase::Finished, outcome: Some(outcome), ..s }, ActionView::Stop)
}

/// The deployment ends with the failure `error`.
pub open spec fn failed(s: DeploymentView, error: DeployErrorView) -> (
    DeploymentView,
    ActionView,
) {
    halted(s, OutcomeView::Failed(error))
}

/// A step of a stage is asked of a deployment that is not in that stage: one
/// that is finished stays as it is, any other fails as out of order.
pub open spec fn out_of_stage(s: DeploymentView) -> (DeploymentView, ActionView) {
    if s.phase == Phase::Finished {
        (s, ActionView::Stop)
    } else {
        failed(s, DeployErrorView::OutOfOrder)
    }
}

/// Whether a phase belongs to the transfer.
pub open spec fn in_transfer(phase: Phase) -> bool {
    phase == Phase::Probing || phase == Phase::BackingUp || phase == Phase::Creating || phase
        == Phase::Writing || phase == Phase::SendingEof || phase == Phase::AwaitingEof || phase
        == Phase::Closing || phase == Phase::AwaitingClose
}

/// The budget that the plan gives a stage, if it gives one.
pub open spec fn budget_of(plan: Plan, stage: Stage) -> Option<RetryBudget> {
    match stage {
        Stage::Session => plan.session,
        Stage::Transfer => plan.transfer,
        Stage::Termination => plan.termination,
    }
}

/// Where the artifact is copied to: an archive to its remote path, a bundle
/// beside the directory that it is unpacked into.
pub open spec fn transfer_path(unit: DeploymentUnitView) -> Seq<char> {
    match unit.kind {
        UnitKind::StaticBundle => archive_path(unit.remote_path),
        _ => unit.remote_path,
    }
}

/// One attempt at `stage` begins, with its first action.
pub open spec fn attempted(s: DeploymentView, stage: Stage) -> (DeploymentView, ActionView) {
    match stage {
        Stage::Session => (
            DeploymentView { phase: Phase::Connecting, ..s },
            ActionView::OpenSession,
        ),
        Stage::Transfer => (
            DeploymentView { phase: Phase::Probing, ..s },
            ActionView::Run(existence_probe_text(transfer_path(s.unit))),
        ),
        Stage::Termination => (
            DeploymentView { phase: Phase::Discovering, ..s },
            ActionView::Run(process_query_text(s.unit.remote_path)),
        ),
    }
}

/// The deployment comes to `stage`: the count of failures starts anew, and
/// the first attempt begins, unless the stage's budget allows none.
pub open spec fn entered(s: DeploymentView, stage: Stage) -> (DeploymentView, ActionView) {
    match budget_of(s.plan, stage) {
        Some(budget) if budget.max_attempts == 0 => failed(
            s,
            DeployErrorView::RetryExhausted(stage),
        ),
        _ => attempted(DeploymentView { failures: 0, ..s }, stage),
    }
}

/// An attempt at `stage` has failed with `error`. Without a budget the
/// deployment fails with that error. With one it pauses and tries again while
/// the budget lasts, and fails as exhausted when it is spent.
pub open spec fn after_failed_attempt(s: DeploymentView, stage: Stage, error: DeployErrorView) -> (
    DeploymentView,
    ActionView,
) {
    match budget_of(s.plan, stage) {
        None => failed(s, error),
        Some(budget) => match decision_after(budget, s.failures) {
            RetryDecision::PauseThenRetry(secs) => (
                DeploymentView {
                    phase: Phase::Pausing(stage),
                    failures: (s.failures + 1) as u32,
                    ..s
                },
                ActionView::Wait(secs as u64),
            ),
            RetryDecision::GiveUp => failed(s, DeployErrorView::RetryExhausted(stage)),
        },
    }
}

impl Plan {
    /// The budget that the plan gives a stage, if it gives one.
    pub fn budget(&self, stage: Stage) -> (r: Option<RetryBudget>)
        ensures
            r == budget_of(*self, stage),
    {
        match stage {
            Stage::Session => self.session,
            Stage::Transfer => self.transfer,
            Stage::Termination => self.termination,
        }
    }
}

impl DeploymentUnit {
    /// Where the artifact is copied to.
    pub fn transfer_path(&self) -> (r: String)
        ensures
            r@ == transfer_path(self@),
    {
        match self.kind {
            UnitKind::StaticBundle => archive_of(self.remote_path.as_str()),
            _ => self.remote_path.clone(),
        }
    }
}

impl Deployment {
    /// A deployment of `unit` to `target` that has not begun.
    pub fn new(
        target: DeployTarget,
        unit: DeploymentUnit,
        java_path: String,
        env: String,
        plan: Plan,
    ) -> (r: Deployment)
        ensures
            r@ == created(target@, unit@, java_path@, env@, plan),
    {
        proof {
            reveal_strlit("");
        }
        let r = Deployment {
            target,
            unit,
            java_path,
            env,
            plan,
            phase: Phase::Created,
            data: Vec::new(),
            size: 0,
            failures: 0,
            probe: None,
            pids: String::from_str(""),
            checks: 0,
            process: None,
            outcome: None,
        };
        assert(r.pids@ =~= Seq::<char>::empty());
        r
    }

    /// Whether the outcome is known.
    pub fn is_finished(&self) -> (r: bool)
        ensures
            r == (self@.phase == Phase::Finished),
    {
        match self.phase {
            Phase::Finished => true,
            _ => false,
        }
    }

    pub(crate) fn halt(&mut self, outcome: Outcome) -> (action: Action)
        ensures
            (final(self)@, action@) == halted(old(self)@, outcome@),
    {
        self.phase = Phase::Finished;
        self.outcome = Some(outcome);
        Action::Stop
    }

    pub(crate) fn misplaced(&mut self) -> (action: Action)
        ensures
            (final(self)@, action@) == out_of_stage(old(self)@),
    {
        match self.phase {
            Phase::Finished => Action::Stop,
            _ => self.fail(DeployError::OutOfOrder),
        }
    }

    pub(crate) fn fail(&mut self, error: DeployError) -> (action: Action)
        ensures
            (final(self)@, action@) == failed(old(self)@, error@),
    {
        self.halt(Outcome::Failed(error))
    }

    pub(crate) fn attempt(&mut self, stage: Stage) -> (action: Action)
        ensures
            (final(self)@, action@) == attempted(old(self)@, stage),
    {
        match stage {
            Stage::Session => {
                self.phase = Phase::Connecting;
                Action::OpenSession
            },
            Stage::Transfer => {
                self.phase = Phase::Probing;
                let path = self.unit.transfer_path();
                Action::Run(existence_probe(path.as_str()))
            },
            Stage::Termination => {
                self.phase = Phase::Discovering;
                Action::Run(process_query(self.unit.remote_path.as_str()))
            },
        }
    }

    pub(crate) fn enter(&mut self, stage: Stage) -> (action: Action)
        ensures
            (final(self)@, action@) == entered(old(self)@, stage),
    {
        let allowed = match self.plan.budget(stage) {
            Some(budget) => budget.allows_attempt(),
            None => true,
        };
        if allowed {
            self.failures = 0;
            self.attempt(stage)
        } else {
            self.fail(DeployError::RetryExhausted(stage))
        }
    }

    pub(crate) fn fail_attempt(&mut self, stage: Stage, error: DeployError) -> (action: Action)
        ensures
            (final(self)@, action@) == after_failed_attempt(old(self)@, stage, error@),
    {
        match self.plan.budget(stage) {
            None => self.fail(error),
            Some(budget) => match budget.after_failure(self.failures) {
                RetryDecision::PauseThenRetry(secs) => {
                    self.phase = Phase::Pausing(stage);
                    self.failures = self.failures + 1;
                    Action::Wait(secs as u64)
                },
                RetryDecision::GiveUp => self.fail(DeployError::RetryExhausted(stage)),
            },
        }
    }
}

} // verus!
