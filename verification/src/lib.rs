//! Grove: the decisions behind a window, a command line and a local service that
//! keep track of Git worktrees and the terminal sessions that belong to them.
pub mod app;
pub mod cli;
pub mod control;
pub mod hooks;
pub mod json;
pub mod model;
pub mod notices;
pub mod notify;
pub mod protocol;
pub mod query;
pub mod service;
pub mod state;
pub mod status_watch;
pub mod table;
pub mod text;
pub mod toggle;
pub mod ui;
pub mod workers;
