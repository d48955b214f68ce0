//! What a deployment asks of its driver, and what the driver reports back.
//!
//! The driver owns the session, the artifact's bytes and the clock. It
//! performs one action at a time and answers it with one event.

use vstd::prelude::*;
use vstd::string::*;
use crate::error::{DeployError, DeployErrorView, SessionFault};

verus! {

/// The permission bits of an uploaded file: `rw-r--r--`.
pub const FILE_MODE: u32 = 0o644;

/// What the driver is to do next.
#[derive(Debug, PartialEq, Eq)]
pub enum Action {
    /// Read the file at this local path, and ask the file system for its size.
    ReadLocal(String),
    /// Open an authenticated session to the target.
    OpenSession,
    /// Run this command line on a fresh channel, drain its output, wait for
    /// the channel to close and read the exit status.
    Run(String),
    /// Open the copy stream for a remote file of exactly `size` bytes.
    OpenStream { path: String, size: u64, mode: u32 },
    /// Write all bytes of the artifact, as the deployment holds them, to the
    /// stream.
    WriteAll,
    /// Tell the peer that no more bytes follow.
    SendEof,
    /// Wait for the peer to acknowledge the end of the stream.
    WaitEof,
    /// Close the stream.
    Close,
    /// Wait for the peer to close.
    WaitClose,
    /// Pause for so many seconds.
    Wait(u64),
    /// Nothing is left to do.
    Stop,
}

/// An action, each text by its characters.
pub enum ActionView {
    ReadLocal(Seq<char>),
    OpenSession,
    Run(Seq<char>),
    OpenStream { path: Seq<char>, size: u64, mode: u32 },
    WriteAll,
    SendEof,
    WaitEof,
    Close,
    WaitClose,
    Wait(u64),
    Stop,
}

impl View for Action {
    type V = ActionView;

    open spec fn view(&self) -> ActionView {
        match self {
            Action::ReadLocal(path) => ActionView::ReadLocal(path@),
            Action::OpenSession => ActionView::OpenSession,
            Action::Run(line) => ActionView::Run(line@),
            Action::OpenStream { path, size, mode } => ActionView::OpenStream {
                path: path@,
                size: *size,
                mode: *mode,
            },
            Action::WriteAll => ActionView::WriteAll,
            Action::SendEof => ActionView::SendEof,
            Action::WaitEof => ActionView::WaitEof,
            Action::Close => ActionView::Close,
            Action::WaitClose => ActionView::WaitClose,
            Action::Wait(secs) => ActionView::Wait(*secs),
            Action::Stop => ActionView::Stop,
        }
    }
}

/// What the driver reports of the action it performed.
#[derive(Debug, PartialEq, Eq)]
pub enum Event {
    /// The deployment may start.
    Begin,
    /// The file was read: these bytes came, and the file system gave this
    /// size.
    LocalRead { data: Vec<u8>, size: u64 },
    /// The file, or its size, could not be read.
    LocalFailed,
    SessionOpened,
    SessionFailed(SessionFault),
    /// The command ran to its end.
    CommandExited { status: i32, output: String },
    /// The channel failed before an exit status was read.
    ChannelFailed,
    /// The step of the copy stream is done.
    StreamReady,
    /// The step of the copy stream failed.
    StreamFailed,
    /// The pause is over.
    Waited,
}

/// An event, its text by its characters.
pub enum EventView {
    Begin,
    LocalRead { data: Seq<u8>, size: u64 },
    LocalFailed,
    SessionOpened,
    SessionFailed(SessionFault),
    CommandExited { status: i32, output: Seq<char> },
    ChannelFailed,
    StreamReady,
    StreamFailed,
    Waited,
}

impl View for Event {
    type V = EventView;

    open spec fn view(&self) -> EventView {
        match self {
            Event::Begin => EventView::Begin,
            Event::LocalRead { data, size } => EventView::LocalRead { data: data@, size: *size },
            Event::LocalFailed => EventView::LocalFailed,
            Event::SessionOpened => EventView::SessionOpened,
            Event::SessionFailed(fault) => EventView::SessionFailed(*fault),
            Event::CommandExited { status, output } => EventView::CommandExited {
                status: *status,
                output: output@,
            },
            Event::ChannelFailed => EventView::ChannelFailed,
            Event::StreamReady => EventView::StreamReady,
            Event::StreamFailed => EventView::StreamFailed,
            Event::Waited => EventView::Waited,
        }
    }
}

impl Clone for Event {
    fn clone(&self) -> (r: Self)
        ensures
            r@ == self@,
    {
        match self {
            Event::Begin => Event::Begin,
            Event::LocalRead { data, size } => Event::LocalRead {
                data: data.clone(),
                size: *size,
            },
            Event::LocalFailed => Event::LocalFailed,
            Event::SessionOpened => Event::SessionOpened,
            Event::SessionFailed(fault) => Event::SessionFailed(*fault),
            Event::CommandExited { status, output } => Event::CommandExited {
                status: *status,
                output: output.clone(),
            },
            Event::ChannelFailed => Event::ChannelFailed,
            Event::StreamReady => Event::StreamReady,
            Event::StreamFailed => Event::StreamFailed,
            Event::Waited => Event::Waited,
        }
    }
}

/// What an event says as the answer to a command.
pub enum Reply {
    /// The command ended with status zero and printed this.
    Output(String),
    /// The command failed.
    Failed(DeployError),
    /// The event answers no command.
    Other,
}

/// A reply, its text by its characters.
pub enum ReplyView {
    Output(Seq<char>),
    Failed(DeployErrorView),
    Other,
}

impl View for Reply {
    type V = ReplyView;

    open spec fn view(&self) -> ReplyView {
        match self {
            Reply::Output(output) => ReplyView::Output(output@),
            Reply::Failed(error) => ReplyView::Failed(error@),
            Reply::Other => ReplyView::Other,
        }
    }
}

/// The result of a command that ended with `status` and printed `output`:
/// the output if the status is zero, else an error that holds both.
pub open spec fn command_result(status: i32, output: Seq<char>) -> ReplyView {
    if status == 0 {
        ReplyView::Output(output)
    } else {
        ReplyView::Failed(DeployErrorView::RemoteCommand { status, output })
    }
}

/// What an event says as the answer to a command.
pub open spec fn reply_of(event: EventView) -> ReplyView {
    match event {
        EventView::CommandExited { status, output } => command_result(status, output),
        EventView::ChannelFailed => ReplyView::Failed(DeployErrorView::Channel),
        _ => ReplyView::Other,
    }
}

/// The result of a command that ended with `status` and printed `output`:
/// the output if the status is zero, else an error that holds both.
pub fn remote_command_result(status: i32, output: String) -> (r: Result<String, DeployError>)
    ensures
        match r {
            Ok(text) => status == 0 && text@ == output@,
            Err(error) => status != 0 && error@ == (DeployErrorView::RemoteCommand {
                status,
                output: output@,
            }),
        },
{
    if status == 0 {
        Ok(output)
    } else {
        Err(DeployError::RemoteCommand { status, output })
    }
}

impl Event {
    /// What the event says as the answer to a command.
    pub fn into_reply(self) -> (r: Reply)
        ensures
            r@ == reply_of(self@),
    {
        match self {
            Event::CommandExited { status, output } => match remote_command_result(status, output) {
                Ok(text) => Reply::Output(text),
                Err(error) => Reply::Failed(error),
            },
            Event::ChannelFailed => Reply::Failed(DeployError::Channel),
            _ => Reply::Other,
        }
    }
}

} // verus!
