//! cyd: convert a structured document between JSON, TOML and YAML.
//!
//! A document read in any of the three formats is parsed into a generic
//! value and re-serialized into any of the three formats. Format names are
//! resolved case-insensitively against a fixed allow-list, and every
//! failure is classified into one of four error kinds with a uniform
//! nonzero exit code.

pub mod bridge;
pub mod convert;
pub mod error;
pub mod format;

pub use convert::{convert, parse_value, process_exit_code, resolve_formats, serialize_value};
pub use error::ConvError;
pub use format::Format;
