//! Classification of JSON decoding failures into a closed taxonomy of
//! standardized errors.
//!
//! A failure reported by `serde_json` falls into one of four categories. Each
//! category stands for exactly one [`ErrorKind`]; the kind fixes a status code
//! and a default description. [`JsonErrorConverter::convert`] turns a failure
//! into a [`StandardizedError`] that carries the kind, a message (the caller's,
//! or the kind's description) and the caller's context, untouched.
pub mod converter;
pub mod error;
pub mod kind;
pub mod shortcut;
pub mod source;

pub use converter::{conversion, JsonErrorConverter};
pub use error::{message_of, message_view, ErrorModel, StandardizedError};
pub use kind::{kind_of, ErrorKind};
pub use shortcut::{
    convert_json_result, convert_json_result_with_context, convert_json_result_with_message,
};
pub use source::{failure_category, Category};
