//! GoldAgent's scheduling core: cron jobs, hooks that watch a Git or
//! Perforce target, the scheduler process with its PID file, and the
//! controller that keeps a background scheduler running.
//!
//! The library decides and the caller acts: reading files, running
//! commands, signalling processes and sleeping are the caller's part.
//! Each function states what it returns over plain values, and Verus
//! proves that it does.
//!
//! - `jobs`, `hooks`: the records, their lists, schedules and command
//!   templates.
//! - `shell`: the safety check before a command runs and the reading of its
//!   exit.
//! - `retry`: what follows each attempt of a command.
//! - `watch`: when a hook fires.
//! - `scheduler`: what the scheduler starts, how a job runner walks its
//!   schedule and when it fires, and the rewrite of commands written by an
//!   older convention; `compat` proves that rewrite right.
//! - `pid`: the PID file that keeps a second scheduler from starting.
//! - `daemon`: the controller's steps.
//! - `chat_actions`: the commands that a task given in chat is stored as.
//! - `connect`, `provider`, `usage`: parts of the program's chat side that
//!   need no I/O: connection labels and the masking of keys, chat messages
//!   and the prompt built from them, usage counters. The scheduler does not
//!   use them.
//! - `text`, `pattern`, `words`, `number`: the operations on text that the
//!   rest is stated in.

pub mod chat_actions;
pub mod compat;
pub mod connect;
pub mod daemon;
pub mod hooks;
pub mod ident;
pub mod jobs;
pub mod number;
pub mod pattern;
pub mod pid;
pub mod provider;
pub mod retry;
pub mod scheduler;
pub mod shell;
pub mod text;
pub mod usage;
pub mod watch;
pub mod words;
