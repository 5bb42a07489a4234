//! Atomic application-bundle replacement engine.
//!
//! Given a freshly extracted update payload and the root directory of the
//! currently installed application, this library decides every step of the
//! swap: extract into a staging directory, rename the old tree away, rename
//! the new tree into place, and — only when the unprivileged renames are
//! denied for lack of permission — ask the user for consent and fall back to
//! a single privileged shell command that performs the same moves.
//!
//! The library itself touches no file and spawns no process: a driver
//! performs each [`engine::Action`] it is handed and reports the outcome
//! back as an [`engine::Event`]. Everything the library decides — which
//! action follows which outcome, the exact privileged command line, the
//! final result — is stated in contracts and proved.

pub mod engine;
pub mod errors;
pub mod laws;
pub mod location;
pub mod script;
