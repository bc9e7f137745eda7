//! Verified core of a minimal desktop application shell.
//!
//! The shell exposes one bridge command to its front end: read a file's raw
//! bytes, or hand back a formatted error message. It also prepares, once at
//! startup, a window icon from an embedded encoded image. The filesystem
//! read and the window system itself live outside this library; what this
//! library states and proves is everything the shell computes: the exact
//! shape of the command's result and the well-formedness of the icon.

pub mod bridge;
pub mod icon;
