//! The registry of a desktop tool that keeps several working copies of one git
//! repository side by side, each with a worktree, a port range and background
//! processes of its own.
//!
//! The crate holds the decisions: which port range a new workspace gets, where
//! its worktree lies, how the tables of workspaces and processes change, in
//! which order the host is asked for what, and which error each failure
//! becomes. What touches the operating system (sockets, subprocesses, the
//! filesystem, the durable store) is left to the host. An operation that needs
//! the host between its steps is a state machine ([`host::Progress`]): it names
//! the next action ([`host::HostAction`]), takes the reply
//! ([`host::HostReply`]), and goes on or finishes.
//!
//! Every function states what it returns and what it changes, over the
//! mathematical values of the data (`view`); [`laws`] holds what follows for
//! runs of several operations.

pub mod calendar;
pub mod commands;
pub mod error;
pub mod host;
pub mod ident;
pub mod json;
pub mod laws;
pub mod lookup;
pub mod models;
pub mod ordering;
pub mod ports;
pub mod state;
pub mod text;
