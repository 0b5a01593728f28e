//! Privilege elevation for the proxy-core binary.
//!
//! The application ships a core executable next to its own binary; for the
//! core to bind privileged ports and manage network interfaces it must be
//! granted elevated rights, either by setting owner/setuid bits through an
//! administrator prompt or by attaching network capabilities through
//! `pkexec`/`sudo`. This crate holds the decision logic of that grant:
//! shell-string escaping, the construction of the privileged command, the
//! fast-path check on file metadata, and the interpretation of the child
//! process's outcome. A sibling concern, moving the application's own
//! bundle into the system applications directory, shares the same
//! command-string machinery and lives in `bundle`. The surrounding program
//! performs the actual filesystem reads and process spawns and feeds their
//! results back in as plain values.

pub mod bundle;
pub mod command;
pub mod escape;
pub mod grant;
