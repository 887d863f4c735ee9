//! One error type for a template renderer.
//!
//! [`Error`] carries the failure of a formatting, pattern compilation,
//! timestamp parsing, JSON or YAML step, tags it with its category and
//! renders it as a single line of text.

pub mod error;
pub mod laws;
pub mod payload;

pub use error::{Error, Result};
