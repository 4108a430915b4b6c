//! Session controller of a line-oriented chat client: phase state machine,
//! command parsing and lookup, and the single-slot output queue.

pub mod commands;
pub mod output;
pub mod session;
pub mod text;
