//! Composing and judging the external commands that drive a package build:
//! elevation through the system helper, a general command runner and the
//! build orchestrator. Spawning and waiting are left to the caller; this
//! crate decides what is spawned, how, and what the outcome means.

pub mod elevation;
pub mod process;
pub mod installable;
pub mod command;
pub mod orchestrator;
pub mod text;
