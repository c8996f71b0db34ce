//! Sends one plain-text email: command-line resolution, configuration
//! lookup and envelope preparation, with the network send left to the caller.

pub mod escape;
pub mod mailbox;
pub mod options;
pub mod config;
pub mod cli;
pub mod dispatch;
pub mod report;
