//! Running generated scripts: vetting, protocol, progress and results.

pub mod diagnosis;
pub mod error;
pub mod host;
pub mod models;
pub mod interpreter;
pub mod progress;
pub mod protocol;
pub mod security;
pub mod runner;
pub mod executor;
pub mod encoding;
pub mod launch;
pub mod generator;
