pub mod error;
pub mod outside;
pub mod state;
pub mod types;
