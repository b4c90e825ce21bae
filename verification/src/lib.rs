//! A serializable mirror of the standard library's I/O error classification.
//!
//! The native `std::io::Error` cannot cross a serialization boundary (a log
//! record, an RPC response, a persisted file). This crate offers a closed
//! stand-in: [`IoErrKind`] mirrors each named variant of `std::io::ErrorKind`
//! plus a reserved catch-all tag, and [`IoError`] pairs such a tag with the
//! error's textual description. Conversions from the native types are total;
//! the conversion back to the native classification is fallible exactly on
//! the reserved tag.

pub mod error;
pub mod kind;
pub mod native;

pub use error::IoError;
pub use kind::DecodeError;
pub use kind::IoErrKind;
pub use native::ConvertError;
