//! Development installs into a virtual environment.
//!
//! The library decides every step of building a native project and placing
//! the result inside a virtual environment: which interpreter to accept,
//! which compilation to run for the chosen bridge, and where the artifact
//! goes. The steps themselves (running the interpreter, the toolchain and
//! the file writes) are performed by the caller, which reports each result
//! back to the [`develop::Develop`] state machine.

pub mod target;
pub mod error;
pub mod config;
pub mod interpreter;
pub mod artifacts;
pub mod develop;
pub mod laws;
