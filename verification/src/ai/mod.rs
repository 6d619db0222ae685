//! Reading what the user asks for, and doing it.

pub mod analyzer;
pub mod assistant;
pub mod config;
pub mod intent;
pub mod llm_client;
pub mod transformer;
