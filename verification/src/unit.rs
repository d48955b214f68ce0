//! What is deployed, where to, and how it ended.

use vstd::prelude::*;
use vstd::string::*;
use crate::error::{error_text, DeployError, DeployErrorView};

verus! {

/// A remote shell endpoint and the credentials for it.
#[derive(Debug, PartialEq, Eq)]
pub struct DeployTarget {
    /// Host and port, as `host:port`.
    pub server: String,
    pub username: String,
    pub password: String,
}

/// A target, each text by its characters.
pub struct DeployTargetView {
    pub server: Seq<char>,
    pub username: Seq<char>,
    pub password: Seq<char>,
}

impl View for DeployTarget {
    type V = DeployTargetView;

    open spec fn view(&self) -> DeployTargetView {
        DeployTargetView {
            server: self.server@,
            username: self.username@,
            password: self.password@,
        }
    }
}

impl Clone for DeployTarget {
    fn clone(&self) -> (r: Self)
        ensures
            r@ == self@,
    {
        DeployTarget {
            server: self.server.clone(),
            username: self.username.clone(),
            password: self.password.clone(),
        }
    }
}

/// What kind of artifact a unit carries.
#[derive(Clone, Copy, Debug, PartialEq, Eq, Structural)]
pub enum UnitKind {
    /// A server archive: uploaded, then run in place of the old process.
    ExecutableArchive,
    /// A zipped directory: uploaded beside the directory, then unpacked
    /// into it.
    StaticBundle,
    /// A server archive that is on the remote host already: nothing is read
    /// or sent, it is run in place of the old process.
    InstalledArchive,
}

/// One artifact and its place on the remote host.
#[derive(Debug, PartialEq, Eq)]
pub struct DeploymentUnit {
    pub local_path: String,
    /// For an archive the file it becomes; for a bundle the directory that
    /// it is unpacked into.
    pub remote_path: String,
    pub kind: UnitKind,
}

/// A unit, each text by its characters.
pub struct DeploymentUnitView {
    pub local_path: Seq<char>,
    pub remote_path: Seq<char>,
    pub kind: UnitKind,
}

impl View for DeploymentUnit {
    type V = DeploymentUnitView;

    open spec fn view(&self) -> DeploymentUnitView {
        DeploymentUnitView {
            local_path: self.local_path@,
            remote_path: self.remote_path@,
            kind: self.kind,
        }
    }
}

impl Clone for DeploymentUnit {
    fn clone(&self) -> (r: Self)
        ensures
            r@ == self@,
    {
        DeploymentUnit {
            local_path: self.local_path.clone(),
            remote_path: self.remote_path.clone(),
            kind: self.kind,
        }
    }
}

/// What the replies of the remote host have shown of the unit's process.
#[derive(Debug, PartialEq, Eq)]
pub enum ProcessLifecycleState {
    /// The process table held no process of the unit.
    Absent,
    /// The process table held these process ids.
    Running(String),
    /// The signal was sent; the processes are not yet known to be gone.
    Terminating,
    /// The processes are gone.
    Terminated,
    /// The launch command was accepted.
    Starting,
    /// The process table holds the new process.
    Started,
    /// The process table held no process after the launch.
    StartFailed,
}

/// A process state, its text by its characters.
pub enum ProcessLifecycleView {
    Absent,
    Running(Seq<char>),
    Terminating,
    Terminated,
    Starting,
    Started,
    StartFailed,
}

impl View for ProcessLifecycleState {
    type V = ProcessLifecycleView;

    open spec fn view(&self) -> ProcessLifecycleView {
        match self {
            ProcessLifecycleState::Absent => ProcessLifecycleView::Absent,
            ProcessLifecycleState::Running(pids) => ProcessLifecycleView::Running(pids@),
            ProcessLifecycleState::Terminating => ProcessLifecycleView::Terminating,
            ProcessLifecycleState::Terminated => ProcessLifecycleView::Terminated,
            ProcessLifecycleState::Starting => ProcessLifecycleView::Starting,
            ProcessLifecycleState::Started => ProcessLifecycleView::Started,
            ProcessLifecycleState::StartFailed => ProcessLifecycleView::StartFailed,
        }
    }
}

impl Clone for ProcessLifecycleState {
    fn clone(&self) -> (r: Self)
        ensures
            r@ == self@,
    {
        match self {
            ProcessLifecycleState::Absent => ProcessLifecycleState::Absent,
            ProcessLifecycleState::Running(pids) => ProcessLifecycleState::Running(pids.clone()),
            ProcessLifecycleState::Terminating => ProcessLifecycleState::Terminating,
            ProcessLifecycleState::Terminated => ProcessLifecycleState::Terminated,
            ProcessLifecycleState::Starting => ProcessLifecycleState::Starting,
            ProcessLifecycleState::Started => ProcessLifecycleState::Started,
            ProcessLifecycleState::StartFailed => ProcessLifecycleState::StartFailed,
        }
    }
}

/// How the deployment of one unit ended.
#[derive(Debug, PartialEq, Eq)]
pub enum Outcome {
    /// The archive runs, under the process ids that the query after the
    /// launch returned.
    Started(String),
    /// The bundle is unpacked.
    Unpacked,
    Failed(DeployError),
}

/// An outcome, each text by its characters.
pub enum OutcomeView {
    Started(Seq<char>),
    Unpacked,
    Failed(DeployErrorView),
}

impl View for Outcome {
    type V = OutcomeView;

    open spec fn view(&self) -> OutcomeView {
        match self {
            Outcome::Started(pids) => OutcomeView::Started(pids@),
            Outcome::Unpacked => OutcomeView::Unpacked,
            Outcome::Failed(error) => OutcomeView::Failed(error@),
        }
    }
}

impl Clone for Outcome {
    fn clone(&self) -> (r: Self)
        ensures
            r@ == self@,
    {
        match self {
            Outcome::Started(pids) => Outcome::Started(pids.clone()),
            Outcome::Unpacked => Outcome::Unpacked,
            Outcome::Failed(error) => Outcome::Failed(error.clone()),
        }
    }
}

/// The outcome in words: for a failure its cause.
pub open spec fn outcome_text(outcome: OutcomeView) -> Seq<char> {
    match outcome {
        OutcomeView::Started(pids) => "程序已在后台成功启动,进程id "@ + pids,
        OutcomeView::Unpacked => "文件上传并解压成功"@,
        OutcomeView::Failed(error) => error_text(error),
    }
}

/// Whether an outcome is a success.
pub open spec fn succeeded(outcome: OutcomeView) -> bool {
    !(outcome is Failed)
}

impl Outcome {
    /// The outcome in words: for a failure its cause.
    pub fn describe(&self) -> (r: String)
        ensures
            r@ == outcome_text(self@),
    {
        match self {
            Outcome::Started(pids) => {
                let mut r = String::from_str("程序已在后台成功启动,进程id ");
                r.append(pids.as_str());
                r
            },
            Outcome::Unpacked => String::from_str("文件上传并解压成功"),
            Outcome::Failed(error) => error.describe(),
        }
    }

/// Whether the outcome is a success.
    pub fn is_success(&self) -> (r: bool)
        ensures
            r == succeeded(self@),
    {
        match self {
            Outcome::Failed(_) => false,
            _ => true,
        }
    }
}

} // verus!
