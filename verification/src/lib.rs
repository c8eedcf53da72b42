//! A privileged launcher, as a verified decision core.
//!
//! The launcher raises its own identity to the superuser, finds the one
//! script that sits beside its executable, and runs it. Everything that
//! touches the operating system happens outside this library; the library
//! decides, from what the outside reports, what happens next and how the run
//! ends.

pub mod error;
pub mod launcher;
pub mod locator;
pub mod model;
pub mod paths;
pub mod privilege;
pub mod trace;
