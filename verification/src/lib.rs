//! Core logic of an interactive evaluation shell for a compiled language.
//!
//! The shell accumulates accepted code lines into an ordered buffer,
//! renders the buffer into a complete program whose entry point prints the
//! value of the final expression, and commits a candidate line only when the
//! resulting program built and ran. This crate holds that logic: the buffer
//! and its commit/rollback discipline, the program renderer, the workspace
//! layout and its non-destructive cleanup plan, and the build command line.
//! Reading input, touching the filesystem and launching the build tool are
//! left to the surrounding binary, which feeds the observed outcomes back in
//! as plain values.

pub mod laws;
pub mod render;
pub mod session;
pub mod workspace;
