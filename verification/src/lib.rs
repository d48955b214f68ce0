//! Deployment of built artifacts to remote hosts over a secure shell, as
//! state machines: a deployment takes the event that answers its last action
//! and gives the next action, and its driver does the input and output.

pub mod bound;
pub mod command;
pub mod config;
pub mod coordinator;
pub mod deploy;
pub mod error;
pub mod laws;
pub mod machine;
pub mod process;
pub mod progress;
pub mod protocol;
pub mod render;
pub mod report;
pub mod retry;
pub mod run;
pub mod text;
pub mod transfer;
pub mod unit;
