pub mod message;
pub mod tool;
