//! The typed protocol model: commands, parameters, responses.

pub mod codec;
pub mod command;
pub mod common;
pub mod endpoints;
pub mod parameters;
pub mod response;
