//! Decision logic of a one-shot installer for the Flutter SDK.
//!
//! The installer lays out `~/.tools`, clones the SDK into it, exposes the
//! SDK's executables in one flat bin folder and tells the user which folder
//! to put on their path. Everything that touches the outside world (the file
//! system, the network, the terminal, a subprocess) is left to the caller:
//! this crate decides *what* is to be done next and *what* is to be said,
//! and proves that those decisions follow the rules of the workflow.

pub mod installer;
pub mod laws;
pub mod messages;
pub mod paths;
pub mod platform;
pub mod scan;
pub mod workflow;
