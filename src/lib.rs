//! Diagnostics of a WebAssembly module validator: the kinds of validation
//! failure, and their rendering into a message that points into the source.

pub mod error;
pub mod kind;
pub mod laws;
pub mod text;

pub use error::{Error, Result};
pub use kind::ErrorKind;
