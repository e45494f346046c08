//! Launcher for per-user container recipes run through a compose tool.
//!
//! The library holds the decisions: how the command line is read, where the
//! configuration lives, which compose tool is used, what the tool is asked to
//! do, and how a build-then-run invocation proceeds event by event. The
//! program around it performs the file, process and signal work.
pub mod args;
pub mod config;
pub mod dispatch;
pub mod error;
pub mod plan;
pub mod tool;
