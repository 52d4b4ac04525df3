pub mod decoder;
pub mod error;
pub mod message;
