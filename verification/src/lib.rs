//! Server-side core of the W3C WebDriver wire protocol: the typed protocol
//! model with its JSON encodings, the endpoint router, and the session
//! dispatcher.

pub mod error;
pub mod http;
pub mod json;
pub mod pattern;
pub mod protocol;
pub mod server;
pub mod text;
