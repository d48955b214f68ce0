//! What can go wrong in a deployment.

use vstd::prelude::*;
use vstd::string::*;
use crate::render::{push_signed_decimal, signed_decimal};

verus! {

/// The parts of a deployment that may be attempted more than once.
#[derive(Clone, Copy, Debug, PartialEq, Eq, Structural)]
pub enum Stage {
    /// Opening the authenticated session.
    Session,
    /// Copying the artifact to the remote host.
    Transfer,
    /// Stopping the process that runs the previous artifact.
    Termination,
}

/// Why a session could not be opened.
#[derive(Clone, Copy, Debug, PartialEq, Eq, Structural)]
pub enum SessionFault {
    /// The host could not be reached.
    Connect,
    /// The transport could not be negotiated.
    Handshake,
    /// The credentials were refused.
    Auth,
}

/// Why a deployment, or one attempt at a part of it, failed.
#[derive(Debug, PartialEq, Eq)]
pub enum DeployError {
    Connect,
    Handshake,
    Auth,
    /// The artifact could not be read, or not in full.
    LocalIo,
    /// The copy stream failed at one of its steps.
    Transfer,
    /// A remote command ended with a status other than zero.
    RemoteCommand { status: i32, output: String },
    /// The command channel failed before an exit status was read.
    Channel,
    /// The old process was still there after the forced signal.
    ProcessTermination,
    /// No process was found after the launch.
    ProcessStart,
    /// Every attempt that the budget of the stage allows has failed.
    RetryExhausted(Stage),
    /// An event arrived that answers no action the deployment had issued.
    OutOfOrder,
}

/// An error, its text by its characters.
pub enum DeployErrorView {
    Connect,
    Handshake,
    Auth,
    LocalIo,
    Transfer,
    RemoteCommand { status: i32, output: Seq<char> },
    Channel,
    ProcessTermination,
    ProcessStart,
    RetryExhausted(Stage),
    OutOfOrder,
}

impl View for DeployError {
    type V = DeployErrorView;

    open spec fn view(&self) -> DeployErrorView {
        match self {
            DeployError::Connect => DeployErrorView::Connect,
            DeployError::Handshake => DeployErrorView::Handshake,
            DeployError::Auth => DeployErrorView::Auth,
            DeployError::LocalIo => DeployErrorView::LocalIo,
            DeployError::Transfer => DeployErrorView::Transfer,
            DeployError::RemoteCommand { status, output } => DeployErrorView::RemoteCommand {
                status: *status,
                output: output@,
            },
            DeployError::Channel => DeployErrorView::Channel,
            DeployError::ProcessTermination => DeployErrorView::ProcessTermination,
            DeployError::ProcessStart => DeployErrorView::ProcessStart,
            DeployError::RetryExhausted(stage) => DeployErrorView::RetryExhausted(*stage),
            DeployError::OutOfOrder => DeployErrorView::OutOfOrder,
        }
    }
}

/// The error that a session fault becomes.
pub open spec fn fault_error(fault: SessionFault) -> DeployErrorView {
    match fault {
        SessionFault::Connect => DeployErrorView::Connect,
        SessionFault::Handshake => DeployErrorView::Handshake,
        SessionFault::Auth => DeployErrorView::Auth,
    }
}

/// The cause of a failure, for people.
pub open spec fn error_text(error: DeployErrorView) -> Seq<char> {
    match error {
        DeployErrorView::Connect => "ssh通信连接失败"@,
        DeployErrorView::Handshake => "ssh通信握手失败"@,
        DeployErrorView::Auth => "ssh通信认证失败,可能密码错误"@,
        DeployErrorView::LocalIo => "读取本地文件失败或文件读取不完整"@,
        DeployErrorView::Transfer => "写入远程文件失败"@,
        DeployErrorView::RemoteCommand { status, output } => "远程命令执行失败，退出状态: "@
            + signed_decimal(status as int),
        DeployErrorView::Channel => "SSH通道失败"@,
        DeployErrorView::ProcessTermination => "最终进程检查失败，进程可能仍在运行"@,
        DeployErrorView::ProcessStart => "程序启动失败"@,
        DeployErrorView::RetryExhausted(stage) => match stage {
            Stage::Session => "创建SSH会话失败，已达到最大重试次数"@,
            Stage::Transfer => "文件上传失败，已达到最大重试次数"@,
            Stage::Termination => "进程杀死失败，已达到最大重试次数"@,
        },
        DeployErrorView::OutOfOrder => "收到的事件与当前阶段不符"@,
    }
}

impl SessionFault {
/// The error that the fault becomes.
    pub fn into_error(self) -> (r: DeployError)
        ensures
            r@ == fault_error(self),
    {
        match self {
            SessionFault::Connect => DeployError::Connect,
            SessionFault::Handshake => DeployError::Handshake,
            SessionFault::Auth => DeployError::Auth,
        }
    }
}

impl Clone for DeployError {
    fn clone(&self) -> (r: Self)
        ensures
            r@ == self@,
    {
        match self {
            DeployError::Connect => DeployError::Connect,
            DeployError::Handshake => DeployError::Handshake,
            DeployError::Auth => DeployError::Auth,
            DeployError::LocalIo => DeployError::LocalIo,
            DeployError::Transfer => DeployError::Transfer,
            DeployError::RemoteCommand { status, output } => DeployError::RemoteCommand {
                status: *status,
                output: output.clone(),
            },
            DeployError::Channel => DeployError::Channel,
            DeployError::ProcessTermination => DeployError::ProcessTermination,
            DeployError::ProcessStart => DeployError::ProcessStart,
            DeployError::RetryExhausted(stage) => DeployError::RetryExhausted(*stage),
            DeployError::OutOfOrder => DeployError::OutOfOrder,
        }
    }
}

impl DeployError {
    /// The cause of the failure, for people.
    pub fn describe(&self) -> (r: String)
        ensures
            r@ == error_text(self@),
    {
        match self {
            DeployError::Connect => String::from_str("ssh通信连接失败"),
            DeployError::Handshake => String::from_str("ssh通信握手失败"),
            DeployError::Auth => String::from_str("ssh通信认证失败,可能密码错误"),
            DeployError::LocalIo => String::from_str("读取本地文件失败或文件读取不完整"),
            DeployError::Transfer => String::from_str("写入远程文件失败"),
            DeployError::RemoteCommand { status, output } => {
                let mut r = String::from_str("远程命令执行失败，退出状态: ");
                push_signed_decimal(&mut r, *status);
                r
            },
            DeployError::Channel => String::from_str("SSH通道失败"),
            DeployError::ProcessTermination => String::from_str(
                "最终进程检查失败，进程可能仍在运行",
            ),
            DeployError::ProcessStart => String::from_str("程序启动失败"),
            DeployError::RetryExhausted(stage) => match stage {
                Stage::Session => String::from_str("创建SSH会话失败，已达到最大重试次数"),
                Stage::Transfer => String::from_str("文件上传失败，已达到最大重试次数"),
                Stage::Termination => String::from_str("进程杀死失败，已达到最大重试次数"),
            },
            DeployError::OutOfOrder => String::from_str("收到的事件与当前阶段不符"),
        }
    }
}

} // verus!
