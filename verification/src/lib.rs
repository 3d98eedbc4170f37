//! Argument serialization and process-outcome rules for driving the Linux ip(8) command.

pub mod client;
pub mod command;
pub mod error;
pub mod process;
pub mod render;
pub mod serializer;
pub mod stream;
pub mod text;

pub use crate::client::IpCommand;
pub use crate::error::Error;
