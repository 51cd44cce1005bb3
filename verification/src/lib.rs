//! Core logic of a declarative-OS rebuild tool: semantic-version handling,
//! privilege-elevation strategy selection, external-command construction,
//! specialisation resolution, and the rebuild orchestration state machine.
//!
//! Everything here is pure decision logic; running the external processes,
//! reading files and probing the environment is left to the thin binary
//! around this library.

pub mod commands;
pub mod config;
pub mod elevation;
pub mod outpath;
pub mod platform;
pub mod rebuild;
pub mod specialisation;
pub mod text;
pub mod version;

