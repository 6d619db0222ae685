//! Work on the table itself: validation, cleansing and quality reports.

pub mod cells;
pub mod cleansing;
pub mod data_types;
pub mod editing;
pub mod export;
pub mod quality;
pub mod reader;
pub mod search;
pub mod table;
pub mod validation;
