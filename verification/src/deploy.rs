//! One deployment from its first action to its outcome: read the artifact,
//! open the session, transfer, then stop and start the process of an archive
//! or unpack a bundle.

use vstd::prelude::*;
use vstd::string::*;
use crate::error::{fault_error, DeployError, DeployErrorView, Stage};
use crate::machine::{
    after_failed_attempt, attempted, created, entered, failed, Deployment, DeploymentView, Phase,
};
use crate::process::{launch_next, termination_next};
use crate::protocol::{Action, ActionView, Event, EventView};
use crate::retry::{retrying_plan, Plan};
use crate::transfer::{read_local_file, transfer_next, unpack_next};
use crate::unit::{DeployTarget, DeployTargetView, DeploymentUnit, DeploymentUnitView, UnitKind};

verus! {

/// What a deployment in the state `s` does with the event `e`: its next
/// state, and the action that the driver is to perform next.
///
/// The stages follow each other strictly: the artifact is read in full, as
/// many bytes as the file system gave for its size, before a session is
/// opened, the transfer is complete before the old process is looked for, and
/// the old process is gone before the new one is started. For an archive that
/// is on the remote host already nothing is read or sent: the session is
/// opened at once, and the old process is looked for next. An event that
/// answers nothing the deployment asked fails it. A finished deployment takes
/// no event and gives no action but `Stop`.
pub open spec fn next(s: DeploymentView, e: EventView) -> (DeploymentView, ActionView) {
    match s.phase {
        Phase::Created => match e {
            EventView::Begin => if s.unit.kind == UnitKind::InstalledArchive {
                entered(s, Stage::Session)
            } else {
                (
                    DeploymentView { phase: Phase::ReadingLocal, ..s },
                    ActionView::ReadLocal(s.unit.local_path),
                )
            },
            _ => failed(s, DeployErrorView::OutOfOrder),
        },
        Phase::ReadingLocal => match e {
            EventView::LocalRead { data, size } => if data.len() == size {
                entered(DeploymentView { data, size, ..s }, Stage::Session)
            } else {
                failed(s, DeployErrorView::LocalIo)
            },
            EventView::LocalFailed => failed(s, DeployErrorView::LocalIo),
            _ => failed(s, DeployErrorView::OutOfOrder),
        },
        Phase::Connecting => match e {
            EventView::SessionOpened => if s.unit.kind == UnitKind::InstalledArchive {
                entered(s, Stage::Termination)
            } else {
                entered(s, Stage::Transfer)
            },
            EventView::SessionFailed(fault) => after_failed_attempt(
                s,
                Stage::Session,
                fault_error(fault),
            ),
            _ => failed(s, DeployErrorView::OutOfOrder),
        },
        Phase::Pausing(stage) => match e {
            EventView::Waited => attempted(s, stage),
            _ => failed(s, DeployErrorView::OutOfOrder),
        },
        Phase::Probing
        | Phase::BackingUp
        | Phase::Creating
        | Phase::Writing
        | Phase::SendingEof
        | Phase::AwaitingEof
        | Phase::Closing
        | Phase::AwaitingClose => transfer_next(s, e),
        Phase::Unpacking => unpack_next(s, e),
        Phase::Discovering
        | Phase::Signalling
        | Phase::Settling
        | Phase::Polling
        | Phase::BackingOff
        | Phase::Escalating
        | Phase::FinalCheck => termination_next(s, e),
        Phase::Launching | Phase::Warming | Phase::Confirming => launch_next(s, e),
        Phase::Finished => (s, ActionView::Stop),
    }
}

/// The state after a run of events, and the actions that answered them, one
/// for each event.
pub open spec fn run_from(s: DeploymentView, events: Seq<EventView>) -> (
    DeploymentView,
    Seq<ActionView>,
)
    decreases events.len(),
{
    if events.len() == 0 {
        (s, Seq::empty())
    } else {
        let first = next(s, events[0]);
        let rest = run_from(first.0, events.drop_first());
        (rest.0, seq![first.1] + rest.1)
    }
}

/// The events of a list, each by its view.
pub open spec fn event_views(events: Seq<Event>) -> Seq<EventView> {
    events.map_values(|e: Event| e@)
}

/// The actions of a list, each by its view.
pub open spec fn action_views(actions: Seq<Action>) -> Seq<ActionView> {
    actions.map_values(|a: Action| a@)
}

impl Deployment {
    /// Takes the event that answers the last action and gives the next
    /// action. The first event is `Begin`; after `Stop` the outcome is set.
    pub fn step(&mut self, event: Event) -> (action: Action)
        ensures
            (final(self)@, action@) == next(old(self)@, event@),
    {
        match self.phase {
            Phase::Created => match event {
                Event::Begin => match self.unit.kind {
                    UnitKind::InstalledArchive => self.enter(Stage::Session),
                    _ => {
                        self.phase = Phase::ReadingLocal;
                        Action::ReadLocal(self.unit.local_path.clone())
                    },
                },
                _ => self.fail(DeployError::OutOfOrder),
            },
            Phase::ReadingLocal => match event {
                Event::LocalRead { data, size } => match read_local_file(data, size) {
                    Ok(read) => {
                        self.data = read.0;
                        self.size = read.1;
                        self.enter(Stage::Session)
                    },
                    Err(error) => self.fail(error),
                },
                Event::LocalFailed => self.fail(DeployError::LocalIo),
                _ => self.fail(DeployError::OutOfOrder),
            },
            Phase::Connecting => match event {
                Event::SessionOpened => match self.unit.kind {
                    UnitKind::InstalledArchive => self.enter(Stage::Termination),
                    _ => self.enter(Stage::Transfer),
                },
                Event::SessionFailed(fault) => self.fail_attempt(
                    Stage::Session,
                    fault.into_error(),
                ),
                _ => self.fail(DeployError::OutOfOrder),
            },
            Phase::Pausing(stage) => match event {
                Event::Waited => self.attempt(stage),
                _ => self.fail(DeployError::OutOfOrder),
            },
            Phase::Probing
            | Phase::BackingUp
            | Phase::Creating
            | Phase::Writing
            | Phase::SendingEof
            | Phase::AwaitingEof
            | Phase::Closing
            | Phase::AwaitingClose => self.transfer_step(event),
            Phase::Unpacking => self.unpack_step(event),
            Phase::Discovering
            | Phase::Signalling
            | Phase::Settling
            | Phase::Polling
            | Phase::BackingOff
            | Phase::Escalating
            | Phase::FinalCheck => self.termination_step(event),
            Phase::Launching | Phase::Warming | Phase::Confirming => self.launch_step(event),
            Phase::Finished => Action::Stop,
        }
    }

    /// Takes a run of events, one after the other, and gives the action that
    /// answered each.
    pub fn run(&mut self, events: &Vec<Event>) -> (actions: Vec<Action>)
        ensures
            (final(self)@, action_views(actions@)) == run_from(old(self)@, event_views(events@)),
            actions@.len() == events@.len(),
    {
        let mut actions: Vec<Action> = Vec::new();
        let ghost all = event_views(events@);
        let ghost start = self@;
        let mut i: usize = 0;
        assert(all.skip(0) =~= all);
        assert(action_views(actions@) =~= Seq::<ActionView>::empty());
        while i < events.len()
            invariant
                i <= events@.len(),
                all == event_views(events@),
                actions@.len() == i,
                run_from(start, all) == (
                    run_from(self@, all.skip(i as int)).0,
                    action_views(actions@) + run_from(self@, all.skip(i as int)).1,
                ),
            decreases events@.len() - i,
        {
            let ghost before = self@;
            let ghost done = action_views(actions@);
            let event = events[i].clone();
            let action = self.step(event);
            proof {
                let rest = all.skip(i as int);
                assert(rest[0] == events@[i as int]@);
                assert(rest.drop_first() =~= all.skip(i as int + 1));
                assert(run_from(before, rest).1 == seq![action@] + run_from(
                    self@,
                    all.skip(i as int + 1),
                ).1);
            }
            actions.push(action);
            proof {
                assert(action_views(actions@) =~= done.push(action@));
                assert(done.push(action@) + run_from(self@, all.skip(i as int + 1)).1 =~= done + (
                seq![action@] + run_from(self@, all.skip(i as int + 1)).1));
            }
            i += 1;
        }
        assert(all.skip(i as int) =~= Seq::<EventView>::empty());
        assert(action_views(actions@) + Seq::<ActionView>::empty() =~= action_views(actions@));
        actions
    }
}

/// The view of a target with these three values.
pub open spec fn target_of(
    server: Seq<char>,
    username: Seq<char>,
    password: Seq<char>,
) -> DeployTargetView {
    DeployTargetView { server, username, password }
}

/// The deployment of the archive at `local_path` to `remote_path` on
/// `server`, to be run by `java_path` with the profile `env`: not yet begun,
/// with the standard budget for the session, the transfer and the stopping of
/// the old process.
pub fn upload_and_run_jar(
    server: &str,
    username: &str,
    password: &str,
    local_path: &str,
    remote_path: &str,
    java_path: &str,
    env: &str,
) -> (r: Deployment)
    ensures
        r@ == created(
            target_of(server@, username@, password@),
            DeploymentUnitView {
                local_path: local_path@,
                remote_path: remote_path@,
                kind: UnitKind::ExecutableArchive,
            },
            java_path@,
            env@,
            retrying_plan(),
        ),
{
    Deployment::new(
        DeployTarget {
            server: String::from_str(server),
            username: String::from_str(username),
            password: String::from_str(password),
        },
        DeploymentUnit {
            local_path: String::from_str(local_path),
            remote_path: String::from_str(remote_path),
            kind: UnitKind::ExecutableArchive,
        },
        String::from_str(java_path),
        String::from_str(env),
        Plan::retrying(),
    )
}

/// The deployment of the bundle at `local_path` into the directory
/// `remote_path` on `server`: not yet begun, with the standard budget for the
/// session and the transfer.
pub fn upload_file(
    server: &str,
    username: &str,
    password: &str,
    local_path: &str,
    remote_path: &str,
) -> (r: Deployment)
    ensures
        r@ == created(
            target_of(server@, username@, password@),
            DeploymentUnitView {
                local_path: local_path@,
                remote_path: remote_path@,
                kind: UnitKind::StaticBundle,
            },
            Seq::empty(),
            Seq::empty(),
            retrying_plan(),
        ),
{
    proof {
        reveal_strlit("");
    }
    let java_path = String::from_str("");
    let env = String::from_str("");
    assert(java_path@ =~= Seq::<char>::empty());
    assert(env@ =~= Seq::<char>::empty());
    Deployment::new(
        DeployTarget {
            server: String::from_str(server),
            username: String::from_str(username),
            password: String::from_str(password),
        },
        DeploymentUnit {
            local_path: String::from_str(local_path),
            remote_path: String::from_str(remote_path),
            kind: UnitKind::StaticBundle,
        },
        java_path,
        env,
        Plan::retrying(),
    )
}

} // verus!
