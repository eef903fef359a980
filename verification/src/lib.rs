//! Error bridging between a script runtime's native error type and generic
//! serialization frameworks.
//!
//! [`native`] holds the runtime's own error: its kind, the context messages
//! attached to it, and its human-readable rendering. [`error`] holds the
//! adapter that serialization frameworks construct from a custom message, and
//! that converts to and from the native error without loss.

pub mod error;
pub mod native;

pub use error::Error;
pub use native::{DuccError, ErrorKind, ErrorView, KindView};
