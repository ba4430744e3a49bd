pub mod error;
pub mod flow;
pub mod package;
pub mod platform;
pub mod release;
pub mod text;
