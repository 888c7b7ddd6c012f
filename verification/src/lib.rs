//! An interface with any number of Language Servers.
pub mod error_message;
pub mod exchange;
pub mod json;
pub mod json_rpc;
pub mod lifecycle;
pub mod lsp;
pub mod message;
pub mod protocol;
pub mod requests;
pub mod text;
pub mod tongue;
pub mod tool;

pub use tongue::{Language, Reception, TongueError, Transmission};
pub use tool::TransmissionError;
