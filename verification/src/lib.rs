//! A reminder of the Habitica tasks that are still pending.
//!
//! The library holds the rules of the program and touches nothing outside
//! itself. It says where the credentials are kept and how their file
//! reads, which request asks for the tasks, what a response means, which
//! tasks are pending, what the notification shows and how the process
//! ends. Reading, writing, sending and showing are left to the caller, who
//! hands in what the outside gave and carries out what comes back.
//!
//! - [`auth`]: the credential store.
//! - [`tasks`]: the request, the response, and the pending tasks.
//! - [`notifications`]: the desktop notification.
//! - [`session`]: the three operations, step by step.
//! - [`cli`]: the verbs of the command line.
//! - [`errors`]: what can go wrong, and how it reads.
//! - [`status`]: HTTP status codes.
//! - [`text`]: white space, lines and markers.

pub mod auth;
pub mod cli;
pub mod errors;
pub mod notifications;
pub mod session;
pub mod status;
pub mod tasks;
pub mod text;
