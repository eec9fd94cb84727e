//! A verified core for a natural-language-driven file-search front end.
//!
//! The library models each configurable search behaviour as a typed
//! operation from a closed catalog, accumulates the flag tokens that the
//! operations emit into an ordered argument list, restricts which
//! operations a downstream selector may choose from, and sequences
//! multi-step requests while threading each step's textual result into
//! the next step's prompt.  Everything here is pure: the surrounding
//! binary performs the process, network and terminal work and hands the
//! results back as plain values.

pub mod args;
pub mod errors;
pub mod numfmt;
pub mod accumulator;
pub mod catalog;
pub mod gate;
pub mod orchestrator;
