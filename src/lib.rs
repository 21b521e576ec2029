//! A build tool for C and C++ projects. A project file names the project's
//! language, its toolchain, its default directory layout and its units; a
//! build resolves each requested unit into its sources and directories and
//! drives the toolchain to compile every source and link the result.
//!
//! The library decides; it performs no I/O. `session::BuildSession` says
//! what to do next (list a directory, run an invocation) and takes back
//! what happened, so a build can be driven against real processes or
//! against stand-ins.

pub mod command;
pub mod compiler;
pub mod error;
pub mod language;
pub mod path;
pub mod project;
pub mod session;
pub mod target;
pub mod text;
pub mod toolchain;
pub mod unit;
