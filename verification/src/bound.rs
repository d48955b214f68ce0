//! No deployment goes on for ever: a bound on the events that a deployment
//! can still take before it has its outcome, whatever the events are.

use vstd::prelude::*;
use crate::deploy::{next, run_from};
use crate::error::{fault_error, DeployErrorView, Stage};
use crate::machine::{
    after_failed_attempt, attempted, budget_of, entered, Deployment, DeploymentView, Phase,
};
use crate::process::{launch_next, termination_next};
use crate::protocol::{reply_of, EventView, ReplyView};
use crate::transfer::transfer_next;
use crate::retry::Plan;
use crate::unit::UnitKind;

verus! {

/// The attempts that a stage gets: as many as its budget says; one where it
/// has no budget.
pub open spec fn attempts_allowed(plan: Plan, stage: Stage) -> nat {
    match budget_of(plan, stage) {
        Some(budget) => budget.max_attempts as nat,
        None => 1,
    }
}

/// The attempts that a stage still gets once the attempt under way has
/// failed, after `failures` failures before it.
pub open spec fn attempts_left(plan: Plan, stage: Stage, failures: u32) -> nat {
    match budget_of(plan, stage) {
        Some(budget) => if failures + 1 < budget.max_attempts {
            (budget.max_attempts - failures - 1) as nat
        } else {
            0
        },
        None => 0,
    }
}

/// The most events that stopping the old process takes from the pause
/// after the signal on: the pause, every check with the pause before it, the
/// forced signal and the check after it.
pub open spec fn settling_length(plan: Plan) -> nat {
    if plan.poll.max_checks == 0 {
        3
    } else {
        2 * plan.poll.max_checks as nat + 2
    }
}

/// The most events that one attempt at a stage takes.
pub open spec fn attempt_length(plan: Plan, stage: Stage) -> nat {
    match stage {
        Stage::Session => 1,
        Stage::Transfer => 8,
        Stage::Termination => settling_length(plan) + 2,
    }
}

/// The most events that a stage takes with all its attempts, the pause
/// before each counted in.
#[verifier::opaque]
pub open spec fn stage_cost(plan: Plan, stage: Stage) -> nat {
    attempts_allowed(plan, stage) * (attempt_length(plan, stage) + 1)
}

/// The most events that the further attempts at a stage take once the
/// attempt under way has failed, after `failures` failures before it.
#[verifier::opaque]
pub open spec fn retries_cost(plan: Plan, stage: Stage, failures: u32) -> nat {
    attempts_left(plan, stage, failures) * (attempt_length(plan, stage) + 1)
}

/// The most events that follow a complete transfer.
pub open spec fn after_transfer_cost(s: DeploymentView) -> nat {
    match s.unit.kind {
        UnitKind::StaticBundle => 1,
        _ => stage_cost(s.plan, Stage::Termination) + 3,
    }
}

/// The most events that the reading of the artifact takes: one, and none
/// where the archive is on the remote host already.
pub open spec fn reading_cost(s: DeploymentView) -> nat {
    if s.unit.kind == UnitKind::InstalledArchive {
        0
    } else {
        1
    }
}

/// The most events that the transfer takes with all its attempts: none where
/// the archive is on the remote host already.
pub open spec fn transfer_cost(s: DeploymentView) -> nat {
    if s.unit.kind == UnitKind::InstalledArchive {
        0
    } else {
        stage_cost(s.plan, Stage::Transfer)
    }
}

/// The most events that follow a stage.
pub open spec fn after_stage_cost(s: DeploymentView, stage: Stage) -> nat {
    match stage {
        Stage::Session => transfer_cost(s) + after_transfer_cost(s),
        Stage::Transfer => after_transfer_cost(s),
        Stage::Termination => 3,
    }
}

/// The most events that a deployment still takes when the attempt under way
/// at `stage` takes `within` more.
pub open spec fn in_stage(s: DeploymentView, stage: Stage, within: nat) -> nat {
    within + retries_cost(s.plan, stage, s.failures) + after_stage_cost(s, stage)
}

/// The liveness checks that are still to come, the one under way counted
/// in.
pub open spec fn checks_left(s: DeploymentView) -> nat {
    if s.checks < s.plan.poll.max_checks {
        (s.plan.poll.max_checks - s.checks) as nat
    } else {
        1
    }
}

/// The most events that a deployment in the state `s` still takes before it
/// is finished.
pub open spec fn steps_left(s: DeploymentView) -> nat {
    match s.phase {
        Phase::Created => 1 + reading_cost(s) + stage_cost(s.plan, Stage::Session)
            + after_stage_cost(s, Stage::Session),
        Phase::ReadingLocal => 1 + stage_cost(s.plan, Stage::Session) + after_stage_cost(
            s,
            Stage::Session,
        ),
        Phase::Connecting => in_stage(s, Stage::Session, 1),
        Phase::Pausing(stage) => in_stage(s, stage, attempt_length(s.plan, stage) + 1),
        Phase::Probing => in_stage(s, Stage::Transfer, 8),
        Phase::BackingUp => in_stage(s, Stage::Transfer, 7),
        Phase::Creating => in_stage(s, Stage::Transfer, 6),
        Phase::Writing => in_stage(s, Stage::Transfer, 5),
        Phase::SendingEof => in_stage(s, Stage::Transfer, 4),
        Phase::AwaitingEof => in_stage(s, Stage::Transfer, 3),
        Phase::Closing => in_stage(s, Stage::Transfer, 2),
        Phase::AwaitingClose => in_stage(s, Stage::Transfer, 1),
        Phase::Discovering => in_stage(s, Stage::Termination, settling_length(s.plan) + 2),
        Phase::Signalling => in_stage(s, Stage::Termination, settling_length(s.plan) + 1),
        Phase::Settling => in_stage(s, Stage::Termination, settling_length(s.plan)),
        Phase::Polling => in_stage(s, Stage::Termination, 2 * checks_left(s) + 1),
        Phase::BackingOff => in_stage(s, Stage::Termination, 2 * checks_left(s) + 2),
        Phase::Escalating => in_stage(s, Stage::Termination, 2),
        Phase::FinalCheck => in_stage(s, Stage::Termination, 1),
        Phase::Launching => 3,
        Phase::Warming => 2,
        Phase::Confirming => 1,
        Phase::Unpacking => 1,
        Phase::Finished => 0,
    }
}

/// One more failure leaves one attempt less, where another attempt is
/// granted at all.
proof fn lemma_retry_uses_an_attempt(plan: Plan, stage: Stage, failures: u32)
    ensures
        budget_of(plan, stage) is Some && failures + 1 < budget_of(plan, stage)->0.max_attempts
            ==> retries_cost(plan, stage, (failures + 1) as u32) + attempt_length(plan, stage) + 1
            == retries_cost(plan, stage, failures),
{
    reveal(retries_cost);
    if budget_of(plan, stage) is Some && failures + 1 < budget_of(plan, stage)->0.max_attempts {
        let length = attempt_length(plan, stage) + 1;
        let more = attempts_left(plan, stage, failures);
        let fewer = attempts_left(plan, stage, (failures + 1) as u32);
        assert(fewer + 1 == more);
        assert(fewer * length + length == (fewer + 1) * length) by (nonlinear_arith);
    }
}

/// The first attempt at a stage leaves all the others.
proof fn lemma_first_attempt_of_stage(plan: Plan, stage: Stage)
    ensures
        (budget_of(plan, stage) is Some ==> budget_of(plan, stage)->0.max_attempts > 0)
            ==> retries_cost(plan, stage, 0) + attempt_length(plan, stage) + 1 == stage_cost(
            plan,
            stage,
        ),
{
    reveal(retries_cost);
    reveal(stage_cost);
    if budget_of(plan, stage) is Some ==> budget_of(plan, stage)->0.max_attempts > 0 {
        let length = attempt_length(plan, stage) + 1;
        let left = attempts_left(plan, stage, 0);
        let allowed = attempts_allowed(plan, stage);
        assert(left + 1 == allowed);
        assert(left * length + length == (left + 1) * length) by (nonlinear_arith);
    }
}

/// A failed attempt ends the deployment or leaves the further attempts
/// of its stage and what follows the stage.
proof fn lemma_failed_attempt_bound(s: DeploymentView, stage: Stage, error: DeployErrorView)
    ensures
        after_failed_attempt(s, stage, error).0.phase == Phase::Finished || steps_left(
            after_failed_attempt(s, stage, error).0,
        ) == retries_cost(s.plan, stage, s.failures) + after_stage_cost(s, stage),
{
    lemma_retry_uses_an_attempt(s.plan, stage, s.failures);
}

/// A stage that is come to ends the deployment or takes no more than all
/// its attempts and what follows it, less the step that came to it.
proof fn lemma_entered_bound(s: DeploymentView, stage: Stage)
    ensures
        entered(s, stage).0.phase == Phase::Finished || steps_left(entered(s, stage).0) + 1
            == stage_cost(s.plan, stage) + after_stage_cost(s, stage),
{
    lemma_first_attempt_of_stage(s.plan, stage);
}

/// An attempt that begins takes no more than its own length, the further
/// attempts and what follows the stage.
proof fn lemma_attempted_bound(s: DeploymentView, stage: Stage)
    ensures
        steps_left(attempted(s, stage).0) == in_stage(s, stage, attempt_length(s.plan, stage)),
{
}

proof fn lemma_transfer_progress(s: DeploymentView, e: EventView)
    requires
        s.phase == Phase::Probing || s.phase == Phase::BackingUp || s.phase == Phase::Creating
            || s.phase == Phase::Writing || s.phase == Phase::SendingEof || s.phase
            == Phase::AwaitingEof || s.phase == Phase::Closing || s.phase == Phase::AwaitingClose,
    ensures
        transfer_next(s, e).0.phase == Phase::Finished || steps_left(transfer_next(s, e).0)
            < steps_left(s),
{
    match reply_of(e) {
        ReplyView::Failed(error) => {
            lemma_failed_attempt_bound(s, Stage::Transfer, error);
        },
        _ => {},
    }
    lemma_failed_attempt_bound(s, Stage::Transfer, DeployErrorView::Transfer);
    lemma_entered_bound(s, Stage::Termination);
}

proof fn lemma_termination_progress(s: DeploymentView, e: EventView)
    requires
        s.phase == Phase::Discovering || s.phase == Phase::Signalling || s.phase
            == Phase::Settling || s.phase == Phase::Polling || s.phase == Phase::BackingOff
            || s.phase == Phase::Escalating || s.phase == Phase::FinalCheck,
    ensures
        termination_next(s, e).0.phase == Phase::Finished || steps_left(
            termination_next(s, e).0,
        ) < steps_left(s),
{
    match reply_of(e) {
        ReplyView::Failed(error) => {
            lemma_failed_attempt_bound(s, Stage::Termination, error);
        },
        _ => {},
    }
    lemma_failed_attempt_bound(s, Stage::Termination, DeployErrorView::ProcessTermination);
}

proof fn lemma_launch_progress(s: DeploymentView, e: EventView)
    requires
        s.phase == Phase::Launching || s.phase == Phase::Warming || s.phase == Phase::Confirming,
    ensures
        launch_next(s, e).0.phase == Phase::Finished || steps_left(launch_next(s, e).0)
            < steps_left(s),
{
}

/// Every event brings a deployment nearer to its end: the step finishes it,
/// or fewer events are left than before.
pub proof fn lemma_step_makes_progress(s: DeploymentView, e: EventView)
    requires
        s.phase != Phase::Finished,
    ensures
        next(s, e).0.phase == Phase::Finished || steps_left(next(s, e).0) < steps_left(s),
{
    match s.phase {
        Phase::Created => {
            lemma_entered_bound(s, Stage::Session);
        },
        Phase::ReadingLocal => {
            match e {
                EventView::LocalRead { data, size } => {
                    lemma_entered_bound(DeploymentView { data, size, ..s }, Stage::Session);
                },
                _ => {},
            }
        },
        Phase::Connecting => {
            lemma_entered_bound(s, Stage::Transfer);
            lemma_entered_bound(s, Stage::Termination);
            match e {
                EventView::SessionFailed(fault) => {
                    lemma_failed_attempt_bound(s, Stage::Session, fault_error(fault));
                },
                _ => {},
            }
        },
        Phase::Pausing(stage) => {
            lemma_attempted_bound(s, stage);
        },
        Phase::Probing
        | Phase::BackingUp
        | Phase::Creating
        | Phase::Writing
        | Phase::SendingEof
        | Phase::AwaitingEof
        | Phase::Closing
        | Phase::AwaitingClose => {
            lemma_transfer_progress(s, e);
        },
        Phase::Unpacking => {},
        Phase::Discovering
        | Phase::Signalling
        | Phase::Settling
        | Phase::Polling
        | Phase::BackingOff
        | Phase::Escalating
        | Phase::FinalCheck => {
            lemma_termination_progress(s, e);
        },
        Phase::Launching | Phase::Warming | Phase::Confirming => {
            lemma_launch_progress(s, e);
        },
        Phase::Finished => {},
    }
}

/// The bound counts down to nothing only at the end.
pub proof fn lemma_no_steps_left_means_finished(s: DeploymentView)
    ensures
        steps_left(s) == 0 <==> s.phase == Phase::Finished,
{
}

/// A deployment that gets an answer to each of its actions is finished after
/// no more than `steps_left` events, whatever they are.
pub proof fn lemma_run_finishes(s: DeploymentView, events: Seq<EventView>)
    requires
        events.len() >= steps_left(s),
    ensures
        run_from(s, events).0.phase == Phase::Finished,
    decreases events.len(),
{
    if s.phase == Phase::Finished {
        crate::laws::lemma_finished_is_final(s, events);
    } else {
        lemma_step_makes_progress(s, events[0]);
        lemma_run_finishes(next(s, events[0]).0, events.drop_first());
    }
}

impl Plan {
    /// The most events that one attempt at a stage takes.
    pub fn attempt_length(&self, stage: Stage) -> (r: u64)
        ensures
            r == attempt_length(*self, stage),
            1 <= r <= 0x2_0000_0003,
    {
        match stage {
            Stage::Session => 1,
            Stage::Transfer => 8,
            Stage::Termination => if self.poll.max_checks == 0 {
                5
            } else {
                2 * (self.poll.max_checks as u64) + 4
            },
        }
    }

    /// The most events that a stage takes with all its attempts, the pause
    /// before each counted in.
    pub fn stage_cost(&self, stage: Stage) -> (r: u128)
        ensures
            r == stage_cost(*self, stage),
            r <= 0xFFFF_FFFF * 0x2_0000_0004,
    {
        let allowed: u128 = match self.budget(stage) {
            Some(budget) => budget.max_attempts as u128,
            None => 1,
        };
        let length: u128 = self.attempt_length(stage) as u128 + 1;
        proof {
            reveal(stage_cost);
            assert(allowed * length <= 0xFFFF_FFFF * 0x2_0000_0004) by (nonlinear_arith)
                requires
                    allowed <= 0xFFFF_FFFF,
                    length <= 0x2_0000_0004,
            ;
        }
        allowed * length
    }

    /// The most events that the further attempts at a stage take once the
    /// attempt under way has failed, after `failures` failures before it.
    pub fn retries_cost(&self, stage: Stage, failures: u32) -> (r: u128)
        ensures
            r == retries_cost(*self, stage, failures),
            r <= 0xFFFF_FFFF * 0x2_0000_0004,
    {
        let left: u128 = match self.budget(stage) {
            Some(budget) => if failures < u32::MAX && failures + 1 < budget.max_attempts {
                (budget.max_attempts - failures - 1) as u128
            } else {
                0
            },
            None => 0,
        };
        let length: u128 = self.attempt_length(stage) as u128 + 1;
        proof {
            reveal(retries_cost);
            assert(left * length <= 0xFFFF_FFFF * 0x2_0000_0004) by (nonlinear_arith)
                requires
                    left <= 0xFFFF_FFFF,
                    length <= 0x2_0000_0004,
            ;
        }
        left * length
    }
}

impl Deployment {
    fn after_stage_cost(&self, stage: Stage) -> (r: u128)
        ensures
            r == after_stage_cost(self@, stage),
            r <= 2 * (0xFFFF_FFFF * 0x2_0000_0004) + 3,
    {
        let after_transfer: u128 = match self.unit.kind {
            UnitKind::StaticBundle => 1,
            _ => self.plan.stage_cost(Stage::Termination) + 3,
        };
        let transfer: u128 = match self.unit.kind {
            UnitKind::InstalledArchive => 0,
            _ => self.plan.stage_cost(Stage::Transfer),
        };
        match stage {
            Stage::Session => transfer + after_transfer,
            Stage::Transfer => after_transfer,
            Stage::Termination => 3,
        }
    }

    fn in_stage(&self, stage: Stage, within: u64) -> (r: u128)
        ensures
            r == in_stage(self@, stage, within as nat),
    {
        within as u128 + self.plan.retries_cost(stage, self.failures) + self.after_stage_cost(
            stage,
        )
    }

    /// The most events that the deployment still takes before it is finished:
    /// a driver that has handed over so many may give up on its own.
    pub fn steps_left(&self) -> (r: u128)
        ensures
            r == steps_left(self@),
    {
        let settling: u64 = self.plan.attempt_length(Stage::Termination) - 2;
        let checks_left: u64 = if self.checks < self.plan.poll.max_checks {
            (self.plan.poll.max_checks - self.checks) as u64
        } else {
            1
        };
        match self.phase {
            Phase::Created => {
                let reading: u128 = match self.unit.kind {
                    UnitKind::InstalledArchive => 0,
                    _ => 1,
                };
                1 + reading + self.plan.stage_cost(Stage::Session) + self.after_stage_cost(
                    Stage::Session,
                )
            },
            Phase::ReadingLocal => 1 + self.plan.stage_cost(Stage::Session)
                + self.after_stage_cost(Stage::Session),
            Phase::Connecting => self.in_stage(Stage::Session, 1),
            Phase::Pausing(stage) => self.in_stage(stage, self.plan.attempt_length(stage) + 1),
            Phase::Probing => self.in_stage(Stage::Transfer, 8),
            Phase::BackingUp => self.in_stage(Stage::Transfer, 7),
            Phase::Creating => self.in_stage(Stage::Transfer, 6),
            Phase::Writing => self.in_stage(Stage::Transfer, 5),
            Phase::SendingEof => self.in_stage(Stage::Transfer, 4),
            Phase::AwaitingEof => self.in_stage(Stage::Transfer, 3),
            Phase::Closing => self.in_stage(Stage::Transfer, 2),
            Phase::AwaitingClose => self.in_stage(Stage::Transfer, 1),
            Phase::Discovering => self.in_stage(Stage::Termination, settling + 2),
            Phase::Signalling => self.in_stage(Stage::Termination, settling + 1),
            Phase::Settling => self.in_stage(Stage::Termination, settling),
            Phase::Polling => self.in_stage(Stage::Termination, 2 * checks_left + 1),
            Phase::BackingOff => self.in_stage(Stage::Termination, 2 * checks_left + 2),
            Phase::Escalating => self.in_stage(Stage::Termination, 2),
            Phase::FinalCheck => self.in_stage(Stage::Termination, 1),
            Phase::Launching => 3,
            Phase::Warming => 2,
            Phase::Confirming => 1,
            Phase::Unpacking => 1,
            Phase::Finished => 0,
        }
    }
}

} // verus!
