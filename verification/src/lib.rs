//! A small interactive shell library.
//!
//! The library covers the compute side of a read-parse-dispatch shell loop:
//! splitting an input line into tokens, classifying it as a built-in
//! (`exit`, `echo`, `type`), an external command, or an empty line,
//! resolving external executables against an ordered search path with
//! first-match-wins precedence, and deciding each command's effect
//! (what to print, whether the loop continues, what to spawn).
//! Reading lines, querying file metadata, and spawning child processes
//! are left to the embedding program, which feeds their plain results in.

pub mod command;
pub mod executor;
pub mod input;
pub mod numbers;
pub mod resolve;
pub mod shell;
