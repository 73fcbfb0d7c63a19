//! Decision logic for a one-shot shell-environment bootstrap.
//!
//! The crate decides *what* to do (which programs to run, which paths to
//! probe, which lines to print) and leaves the doing to its caller. Every
//! component is a small machine: it hands out an [`host::Action`], the caller
//! performs it and reports back an [`host::Event`], and the machine answers
//! with the next step.

pub mod host;
pub mod installer;
pub mod installer_runs;
pub mod package;
pub mod paths;
pub mod platform;
pub mod plugin_runs;
pub mod plugins;
pub mod script;
pub mod script_runs;
