//! The transfer of one artifact: the check of what was read, the probe and
//! backup of what is there, and the copy stream with its steps in order.

use vstd::prelude::*;
use vstd::string::*;
use crate::command::{backup, backup_text, probe_of, read_probe, unpack, unpack_text, Probe};
use crate::error::{DeployError, DeployErrorView, Stage};
use crate::machine::{
    after_failed_attempt, entered, failed, halted, in_transfer, out_of_stage, transfer_path,
    Deployment, DeploymentView, Phase,
};
use crate::protocol::{reply_of, Action, ActionView, Event, EventView, Reply, ReplyView, FILE_MODE};
use crate::unit::{Outcome, OutcomeView, UnitKind};

verus! {

/// What was read of the artifact, if all of it came: `data` and `file_size`
/// as they are when `data` has `file_size` bytes, else a local error.
pub fn read_local_file(data: Vec<u8>, file_size: u64) -> (r: Result<(Vec<u8>, u64), DeployError>)
    ensures
        match r {
            Ok(read) => data@.len() == file_size && read.0@ == data@ && read.1 == file_size,
            Err(error) => data@.len() != file_size && error@ == DeployErrorView::LocalIo,
        },
{
    if data.len() as u64 == file_size {
        Ok((data, file_size))
    } else {
        Err(DeployError::LocalIo)
    }
}

/// The copy stream is opened, for exactly the bytes that were read.
pub open spec fn stream_opened(s: DeploymentView) -> (DeploymentView, ActionView) {
    (
        DeploymentView { phase: Phase::Creating, ..s },
        ActionView::OpenStream { path: transfer_path(s.unit), size: s.size, mode: FILE_MODE },
    )
}

/// The step of the copy stream that follows the step awaited in `phase`,
/// and the phase that awaits it; none after the last step, the wait for
/// the peer to close.
pub open spec fn stream_successor(phase: Phase) -> Option<(Phase, ActionView)> {
    match phase {
        Phase::Creating => Some((Phase::Writing, ActionView::WriteAll)),
        Phase::Writing => Some((Phase::SendingEof, ActionView::SendEof)),
        Phase::SendingEof => Some((Phase::AwaitingEof, ActionView::WaitEof)),
        Phase::AwaitingEof => Some((Phase::Closing, ActionView::Close)),
        Phase::Closing => Some((Phase::AwaitingClose, ActionView::WaitClose)),
        _ => None,
    }
}

/// The transfer is complete: an archive's old process is stopped next, a
/// bundle is unpacked.
pub open spec fn transferred(s: DeploymentView) -> (DeploymentView, ActionView) {
    match s.unit.kind {
        UnitKind::StaticBundle => (
            DeploymentView { phase: Phase::Unpacking, ..s },
            ActionView::Run(unpack_text(s.unit.remote_path)),
        ),
        _ => entered(s, Stage::Termination),
    }
}

/// What the transfer does with the answer to its last action.
///
/// A file that the probe finds is moved to its backup before the stream is
/// opened; any other reply of the probe opens the stream at once. The stream
/// goes through its steps in order: open, write, end of stream, the peer's
/// acknowledgement, close, the peer's close. A failed command or step fails
/// the attempt. Outside the transfer nothing of this is done.
pub open spec fn transfer_next(s: DeploymentView, e: EventView) -> (DeploymentView, ActionView) {
    if !in_transfer(s.phase) {
        out_of_stage(s)
    } else {
        transfer_reaction(s, e)
    }
}

/// What a deployment that is in its transfer does with the event `e`.
pub open spec fn transfer_reaction(s: DeploymentView, e: EventView) -> (
    DeploymentView,
    ActionView,
) {
    match s.phase {
        Phase::Probing => match reply_of(e) {
            ReplyView::Output(output) => {
                let found = DeploymentView { probe: Some(probe_of(output)), ..s };
                if probe_of(output) == Probe::Exists {
                    (
                        DeploymentView { phase: Phase::BackingUp, ..found },
                        ActionView::Run(backup_text(transfer_path(s.unit))),
                    )
                } else {
                    stream_opened(found)
                }
            },
            ReplyView::Failed(error) => after_failed_attempt(s, Stage::Transfer, error),
            ReplyView::Other => failed(s, DeployErrorView::OutOfOrder),
        },
        Phase::BackingUp => match reply_of(e) {
            ReplyView::Output(_) => stream_opened(s),
            ReplyView::Failed(error) => after_failed_attempt(s, Stage::Transfer, error),
            ReplyView::Other => failed(s, DeployErrorView::OutOfOrder),
        },
        _ => match e {
            EventView::StreamReady => match stream_successor(s.phase) {
                Some(next) => (DeploymentView { phase: next.0, ..s }, next.1),
                None => if s.phase == Phase::AwaitingClose {
                    transferred(s)
                } else {
                    failed(s, DeployErrorView::OutOfOrder)
                },
            },
            EventView::StreamFailed => if stream_successor(s.phase).is_some() || s.phase
                == Phase::AwaitingClose {
                after_failed_attempt(s, Stage::Transfer, DeployErrorView::Transfer)
            } else {
                failed(s, DeployErrorView::OutOfOrder)
            },
            _ => failed(s, DeployErrorView::OutOfOrder),
        },
    }
}

/// What the unpacking of a bundle does with the answer to its command: the
/// bundle is unpacked when the command has ended well, and the deployment
/// fails with the command's error when it has not. A deployment that is not
/// unpacking does nothing of this.
pub open spec fn unpack_next(s: DeploymentView, e: EventView) -> (DeploymentView, ActionView) {
    if s.phase != Phase::Unpacking {
        out_of_stage(s)
    } else {
        match reply_of(e) {
            ReplyView::Output(_) => halted(s, OutcomeView::Unpacked),
            ReplyView::Failed(error) => failed(s, error),
            ReplyView::Other => failed(s, DeployErrorView::OutOfOrder),
        }
    }
}

impl Deployment {
    fn open_stream(&mut self) -> (action: Action)
        ensures
            (final(self)@, action@) == stream_opened(old(self)@),
    {
        self.phase = Phase::Creating;
        Action::OpenStream { path: self.unit.transfer_path(), size: self.size, mode: FILE_MODE }
    }

    fn finish_transfer(&mut self) -> (action: Action)
        ensures
            (final(self)@, action@) == transferred(old(self)@),
    {
        match self.unit.kind {
            UnitKind::StaticBundle => {
                self.phase = Phase::Unpacking;
                Action::Run(unpack(self.unit.remote_path.as_str()))
            },
            _ => self.enter(Stage::Termination),
        }
    }

    /// Takes the answer to the last action of the transfer and gives the
    /// next action.
    pub fn transfer_step(&mut self, event: Event) -> (action: Action)
        ensures
            (final(self)@, action@) == transfer_next(old(self)@, event@),
    {
        match self.phase {
            Phase::Probing
            | Phase::BackingUp
            | Phase::Creating
            | Phase::Writing
            | Phase::SendingEof
            | Phase::AwaitingEof
            | Phase::Closing
            | Phase::AwaitingClose => {},
            _ => {
                return self.misplaced();
            },
        }
        match self.phase {
            Phase::Probing => match event.into_reply() {
                Reply::Output(output) => {
                    let found = read_probe(output.as_str());
                    self.probe = Some(found);
                    match found {
                        Probe::Exists => {
                            self.phase = Phase::BackingUp;
                            let path = self.unit.transfer_path();
                            Action::Run(backup(path.as_str()))
                        },
                        _ => self.open_stream(),
                    }
                },
                Reply::Failed(error) => self.fail_attempt(Stage::Transfer, error),
                Reply::Other => self.fail(DeployError::OutOfOrder),
            },
            Phase::BackingUp => match event.into_reply() {
                Reply::Output(_) => self.open_stream(),
                Reply::Failed(error) => self.fail_attempt(Stage::Transfer, error),
                Reply::Other => self.fail(DeployError::OutOfOrder),
            },
            phase => match event {
                Event::StreamReady => match phase {
                    Phase::Creating => {
                        self.phase = Phase::Writing;
                        Action::WriteAll
                    },
                    Phase::Writing => {
                        self.phase = Phase::SendingEof;
                        Action::SendEof
                    },
                    Phase::SendingEof => {
                        self.phase = Phase::AwaitingEof;
                        Action::WaitEof
                    },
                    Phase::AwaitingEof => {
                        self.phase = Phase::Closing;
                        Action::Close
                    },
                    Phase::Closing => {
                        self.phase = Phase::AwaitingClose;
                        Action::WaitClose
                    },
                    Phase::AwaitingClose => self.finish_transfer(),
                    _ => self.fail(DeployError::OutOfOrder),
                },
                Event::StreamFailed => match phase {
                    Phase::Creating
                    | Phase::Writing
                    | Phase::SendingEof
                    | Phase::AwaitingEof
                    | Phase::Closing
                    | Phase::AwaitingClose => self.fail_attempt(
                        Stage::Transfer,
                        DeployError::Transfer,
                    ),
                    _ => self.fail(DeployError::OutOfOrder),
                },
                _ => self.fail(DeployError::OutOfOrder),
            },
        }
    }

    /// Takes the answer to the unpack command and ends the deployment.
    pub fn unpack_step(&mut self, event: Event) -> (action: Action)
        ensures
            (final(self)@, action@) == unpack_next(old(self)@, event@),
    {
        match self.phase {
            Phase::Unpacking => {},
            _ => {
                return self.misplaced();
            },
        }
        match event.into_reply() {
            Reply::Output(_) => self.halt(Outcome::Unpacked),
            Reply::Failed(error) => self.fail(error),
            Reply::Other => self.fail(DeployError::OutOfOrder),
        }
    }
}

} // verus!
