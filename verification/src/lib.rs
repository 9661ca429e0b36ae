//! Input dispatch core of a terminal text editor.
//!
//! The crate turns a stream of key events into editing requests. It resolves
//! multi-key sequences against a table of bindings, runs a modal line prompt,
//! debounces terminal resizes and keeps track of the transient status line.
//! Everything that touches a terminal lives with the caller: the core is
//! handed keys and clock readings, and hands back the requests it wants
//! carried out.

pub mod bind;
pub mod control;
pub mod env;
pub mod input;
pub mod key;
pub mod laws;
pub mod op;
