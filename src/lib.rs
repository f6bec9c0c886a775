//! Command runner and audit log of a shell-script control panel: project-root
//! resolution, log-channel selection, the text of each log record, and the
//! sequence of filesystem and process steps that one command run performs.

pub mod audit;
pub mod boundary;
pub mod channel;
pub mod clock;
pub mod listing;
pub mod root;
pub mod runner;
pub mod text;
