//! The authorization, confirmation and safe-execution core of a local
//! privileged-action agent.

pub mod text;
pub mod command;
pub mod policy;
pub mod system;
pub mod safety;
pub mod registry;
pub mod engine;
pub mod channel;
pub mod filesystem;
pub mod launcher;
pub mod telemetry;
