pub mod counters;
pub mod error;
pub mod json;
pub mod search;
pub mod sqlite;
