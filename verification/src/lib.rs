//! Build-time file and directory materializer.
//!
//! Given a target path and optional literal content, the library decides how
//! to ensure that a file or directory exists at that path without overwriting
//! anything that is already there: it parses the argument list, joins the
//! path against the build's working directory, computes the parent directory
//! chain to create, and — once told whether the target already exists —
//! yields the single filesystem action to perform.
//!
//! The library itself performs no I/O: a thin shell around it reads the
//! invocation arguments and the working directory, asks the filesystem
//! whether the target exists, and carries out the returned action.

pub mod paths;
pub mod plan;
pub mod target;
