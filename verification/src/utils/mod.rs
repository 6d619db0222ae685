//! What the whole library shares.

pub mod error;
