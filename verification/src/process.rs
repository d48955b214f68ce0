//! The process of an archive: found, signalled, checked until it is gone,
//! forced where the checks run out, and started anew.

use vstd::prelude::*;
use vstd::string::*;
use crate::command::{
    forced_kill, forced_kill_text, kill_command, kill_text, launch, launch_text, lists_nothing,
    liveness_check, liveness_check_text, process_query, process_query_text, reads_gone,
    reads_nothing, says_gone,
};
use crate::error::{DeployError, DeployErrorView, Stage};
use crate::machine::{
    after_failed_attempt, failed, halted, out_of_stage, Deployment, DeploymentView, Phase,
};
use crate::protocol::{reply_of, Action, ActionView, Event, EventView, Reply, ReplyView};
use crate::retry::backoff_before;
use crate::text::{trim, trimmed};
use crate::unit::{Outcome, OutcomeView, ProcessLifecycleState, ProcessLifecycleView};

verus! {

/// The archive is launched; `found` is what is known of the old process.
pub open spec fn launched(s: DeploymentView, found: ProcessLifecycleView) -> (
    DeploymentView,
    ActionView,
) {
    (
        DeploymentView { phase: Phase::Launching, process: Some(found), ..s },
        ActionView::Run(launch_text(s.java_path, s.unit.remote_path, s.env)),
    )
}

/// A liveness check is sent.
pub open spec fn checked(s: DeploymentView) -> (DeploymentView, ActionView) {
    (DeploymentView { phase: Phase::Polling, ..s }, ActionView::Run(liveness_check_text(s.pids)))
}

/// The checks have run out: the forced signal is sent.
pub open spec fn escalated(s: DeploymentView) -> (DeploymentView, ActionView) {
    (DeploymentView { phase: Phase::Escalating, ..s }, ActionView::Run(forced_kill_text(s.pids)))
}

/// What stopping the old process does with the answer to its last action.
///
/// A query that lists nothing leads straight to the launch. Else the listed
/// processes get the first signal, and after a pause the process table is
/// checked up to `max_checks` times, each later check after a pause that
/// grows with its number. The first check that finds them gone leads to the
/// launch. When the checks run out the forced signal is sent and one more check
/// is made: only if it finds them gone does the launch follow. Processes that
/// it still finds fail the attempt, and so does a check that cannot be made. A
/// failed query or signal fails the attempt too. Before the forced signal, a
/// check that cannot be made counts as one that found the processes. Outside
/// this stage nothing of this is done.
pub open spec fn termination_next(s: DeploymentView, e: EventView) -> (
    DeploymentView,
    ActionView,
) {
    match s.phase {
        Phase::Discovering => match reply_of(e) {
            ReplyView::Output(output) => if lists_nothing(output) {
                launched(s, ProcessLifecycleView::Absent)
            } else {
                (
                    DeploymentView {
                        phase: Phase::Signalling,
                        pids: trimmed(output),
                        process: Some(ProcessLifecycleView::Running(trimmed(output))),
                        ..s
                    },
                    ActionView::Run(kill_text(s.env, trimmed(output))),
                )
            },
            ReplyView::Failed(error) => after_failed_attempt(s, Stage::Termination, error),
            ReplyView::Other => failed(s, DeployErrorView::OutOfOrder),
        },
        Phase::Signalling => match reply_of(e) {
            ReplyView::Output(_) => (
                DeploymentView {
                    phase: Phase::Settling,
                    checks: 0,
                    process: Some(ProcessLifecycleView::Terminating),
                    ..s
                },
                ActionView::Wait(s.plan.poll.settle_secs as u64),
            ),
            ReplyView::Failed(error) => after_failed_attempt(s, Stage::Termination, error),
            ReplyView::Other => failed(s, DeployErrorView::OutOfOrder),
        },
        Phase::Settling => match e {
            EventView::Waited => if s.plan.poll.max_checks > 0 {
                checked(DeploymentView { checks: 0, ..s })
            } else {
                escalated(s)
            },
            _ => failed(s, DeployErrorView::OutOfOrder),
        },
        Phase::Polling => match reply_of(e) {
            ReplyView::Other => failed(s, DeployErrorView::OutOfOrder),
            ReplyView::Output(output) if says_gone(output) => launched(
                s,
                ProcessLifecycleView::Terminated,
            ),
            _ => if s.checks + 1 < s.plan.poll.max_checks {
                (
                    DeploymentView {
                        phase: Phase::BackingOff,
                        checks: (s.checks + 1) as u32,
                        ..s
                    },
                    ActionView::Wait(backoff_before(s.plan.poll, (s.checks + 1) as u32)),
                )
            } else {
                escalated(s)
            },
        },
        Phase::BackingOff => match e {
            EventView::Waited => checked(s),
            _ => failed(s, DeployErrorView::OutOfOrder),
        },
        Phase::Escalating => match reply_of(e) {
            ReplyView::Output(_) => (
                DeploymentView { phase: Phase::FinalCheck, ..s },
                ActionView::Run(liveness_check_text(s.pids)),
            ),
            ReplyView::Failed(error) => after_failed_attempt(s, Stage::Termination, error),
            ReplyView::Other => failed(s, DeployErrorView::OutOfOrder),
        },
        Phase::FinalCheck => match reply_of(e) {
            ReplyView::Output(output) => if says_gone(output) {
                launched(s, ProcessLifecycleView::Terminated)
            } else {
                after_failed_attempt(s, Stage::Termination, DeployErrorView::ProcessTermination)
            },
            ReplyView::Failed(error) => after_failed_attempt(s, Stage::Termination, error),
            ReplyView::Other => failed(s, DeployErrorView::OutOfOrder),
        },
        _ => out_of_stage(s),
    }
}

/// What the start does with the answer to its last action.
///
/// After the launch command and a pause the process table is asked once. A
/// reply that lists nothing fails the deployment; any other ends it well,
/// with the listed process ids. A failed command fails the deployment.
/// Outside this stage nothing of this is done.
pub open spec fn launch_next(s: DeploymentView, e: EventView) -> (DeploymentView, ActionView) {
    match s.phase {
        Phase::Launching => match reply_of(e) {
            ReplyView::Output(_) => (
                DeploymentView {
                    phase: Phase::Warming,
                    process: Some(ProcessLifecycleView::Starting),
                    ..s
                },
                ActionView::Wait(s.plan.warmup_secs as u64),
            ),
            ReplyView::Failed(error) => failed(s, error),
            ReplyView::Other => failed(s, DeployErrorView::OutOfOrder),
        },
        Phase::Warming => match e {
            EventView::Waited => (
                DeploymentView { phase: Phase::Confirming, ..s },
                ActionView::Run(process_query_text(s.unit.remote_path)),
            ),
            _ => failed(s, DeployErrorView::OutOfOrder),
        },
        Phase::Confirming => match reply_of(e) {
            ReplyView::Output(output) => if lists_nothing(output) {
                halted(
                    DeploymentView { process: Some(ProcessLifecycleView::StartFailed), ..s },
                    OutcomeView::Failed(DeployErrorView::ProcessStart),
                )
            } else {
                halted(
                    DeploymentView { process: Some(ProcessLifecycleView::Started), ..s },
                    OutcomeView::Started(trimmed(output)),
                )
            },
            ReplyView::Failed(error) => failed(s, error),
            ReplyView::Other => failed(s, DeployErrorView::OutOfOrder),
        },
        _ => out_of_stage(s),
    }
}

impl Deployment {
    fn launch(&mut self, found: ProcessLifecycleState) -> (action: Action)
        ensures
            (final(self)@, action@) == launched(old(self)@, found@),
    {
        self.phase = Phase::Launching;
        self.process = Some(found);
        Action::Run(
            launch(self.java_path.as_str(), self.unit.remote_path.as_str(), self.env.as_str()),
        )
    }

    fn check(&mut self) -> (action: Action)
        ensures
            (final(self)@, action@) == checked(old(self)@),
    {
        self.phase = Phase::Polling;
        Action::Run(liveness_check(self.pids.as_str()))
    }

    fn escalate(&mut self) -> (action: Action)
        ensures
            (final(self)@, action@) == escalated(old(self)@),
    {
        self.phase = Phase::Escalating;
        Action::Run(forced_kill(self.pids.as_str()))
    }

    /// Takes the answer to the last action of stopping the old process and
    /// gives the next action.
    pub fn termination_step(&mut self, event: Event) -> (action: Action)
        ensures
            (final(self)@, action@) == termination_next(old(self)@, event@),
    {
        match self.phase {
            Phase::Discovering => match event.into_reply() {
                Reply::Output(output) => {
                    if reads_nothing(output.as_str()) {
                        self.launch(ProcessLifecycleState::Absent)
                    } else {
                        let pids = trim(output.as_str());
                        self.phase = Phase::Signalling;
                        self.pids = pids.to_owned();
                        self.process = Some(ProcessLifecycleState::Running(pids.to_owned()));
                        Action::Run(kill_command(self.env.as_str(), pids))
                    }
                },
                Reply::Failed(error) => self.fail_attempt(Stage::Termination, error),
                Reply::Other => self.fail(DeployError::OutOfOrder),
            },
            Phase::Signalling => match event.into_reply() {
                Reply::Output(_) => {
                    self.phase = Phase::Settling;
                    self.checks = 0;
                    self.process = Some(ProcessLifecycleState::Terminating);
                    Action::Wait(self.plan.poll.settle_secs as u64)
                },
                Reply::Failed(error) => self.fail_attempt(Stage::Termination, error),
                Reply::Other => self.fail(DeployError::OutOfOrder),
            },
            Phase::Settling => match event {
                Event::Waited => {
                    if self.plan.poll.max_checks > 0 {
                        self.checks = 0;
                        self.check()
                    } else {
                        self.escalate()
                    }
                },
                _ => self.fail(DeployError::OutOfOrder),
            },
            Phase::Polling => {
                let gone = match event.into_reply() {
                    Reply::Other => {
                        return self.fail(DeployError::OutOfOrder);
                    },
                    Reply::Output(output) => reads_gone(output.as_str()),
                    Reply::Failed(_) => false,
                };
                if gone {
                    self.launch(ProcessLifecycleState::Terminated)
                } else if self.checks < u32::MAX && self.checks + 1 < self.plan.poll.max_checks {
                    self.phase = Phase::BackingOff;
                    self.checks = self.checks + 1;
                    Action::Wait(self.plan.poll.backoff(self.checks))
                } else {
                    self.escalate()
                }
            },
            Phase::BackingOff => match event {
                Event::Waited => self.check(),
                _ => self.fail(DeployError::OutOfOrder),
            },
            Phase::Escalating => match event.into_reply() {
                Reply::Output(_) => {
                    self.phase = Phase::FinalCheck;
                    Action::Run(liveness_check(self.pids.as_str()))
                },
                Reply::Failed(error) => self.fail_attempt(Stage::Termination, error),
                Reply::Other => self.fail(DeployError::OutOfOrder),
            },
            Phase::FinalCheck => match event.into_reply() {
                Reply::Output(output) => {
                    if reads_gone(output.as_str()) {
                        self.launch(ProcessLifecycleState::Terminated)
                    } else {
                        self.fail_attempt(Stage::Termination, DeployError::ProcessTermination)
                    }
                },
                Reply::Failed(error) => self.fail_attempt(Stage::Termination, error),
                Reply::Other => self.fail(DeployError::OutOfOrder),
            },
            _ => self.misplaced(),
        }
    }

    /// Takes the answer to the last action of the start and gives the next
    /// action.
    pub fn launch_step(&mut self, event: Event) -> (action: Action)
        ensures
            (final(self)@, action@) == launch_next(old(self)@, event@),
    {
        match self.phase {
            Phase::Launching => match event.into_reply() {
                Reply::Output(_) => {
                    self.phase = Phase::Warming;
                    self.process = Some(ProcessLifecycleState::Starting);
                    Action::Wait(self.plan.warmup_secs as u64)
                },
                Reply::Failed(error) => self.fail(error),
                Reply::Other => self.fail(DeployError::OutOfOrder),
            },
            Phase::Warming => match event {
                Event::Waited => {
                    self.phase = Phase::Confirming;
                    Action::Run(process_query(self.unit.remote_path.as_str()))
                },
                _ => self.fail(DeployError::OutOfOrder),
            },
            Phase::Confirming => match event.into_reply() {
                Reply::Output(output) => {
                    if reads_nothing(output.as_str()) {
                        self.process = Some(ProcessLifecycleState::StartFailed);
                        self.fail(DeployError::ProcessStart)
                    } else {
                        self.process = Some(ProcessLifecycleState::Started);
                        self.halt(Outcome::Started(trim(output.as_str()).to_owned()))
                    }
                },
                Reply::Failed(error) => self.fail(error),
                Reply::Other => self.fail(DeployError::OutOfOrder),
            },
            _ => self.misplaced(),
        }
    }
}

} // verus!
