//! Lifecycle core of a supervisor for Model Context Protocol servers.
//!
//! The crate holds the decisions of the supervisor as verified functions on
//! plain values: which servers to boot, how a launch proceeds, how long to
//! wait before a restart, when a restart loop ends, how a shutdown proceeds,
//! when a lock file is stale, and how an elicitation request is answered.
//! Running processes, sockets, timers and the user interface stay with the
//! embedding application.
//!
//! Whatever alternates between waiting and deciding is a small machine here:
//! it hands out one action at a time, and its runner performs the action and
//! reports back what happened. The machines keep the books of the shared
//! state themselves, so that its invariants are proved once and for all:
//!
//! - `launcher`: the launch of one server,
//! - `health`: the health monitor of one server,
//! - `engine`: the restart loop of one server,
//! - `stop`: the shutdown of the fleet,
//! - `orphan` and `reaper`: freeing a port and ending a process,
//! - `elicitation`: a request of a server for input from the user.
//!
//! The shared state is in `supervisor`, the lock directory in `lockfile`, and
//! the reading of the configuration in `config`, `settings` and `boot`.

pub mod backoff;
pub mod big;
pub mod boot;
pub mod config;
pub mod elicitation;
pub mod engine;
pub mod error;
pub mod events;
pub mod health;
pub mod json;
pub mod launch;
pub mod launcher;
pub mod lockfile;
pub mod models;
pub mod monitor;
pub mod orphan;
pub mod reaper;
pub mod restart;
pub mod settings;
pub mod shutdown;
pub mod stop;
pub mod supervisor;
pub mod table;
pub mod text;
pub mod time;
