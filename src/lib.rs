//! Runtime core of the fidl bindings: the wire envelope, typed channel
//! endpoints and the decisions of the request dispatch engine.
pub mod endpoints;
pub mod error;
pub mod server;
pub mod wire;

pub use error::{Error, Result};
