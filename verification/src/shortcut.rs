//! Shortcuts that convert the failure inside a decoding result.
use crate::converter::{conversion, JsonErrorConverter};
use crate::error::StandardizedError;
use crate::source::failure_category;
use std::collections::BTreeMap;
use vstd::prelude::*;

verus! {

/// Converts the failure of a decoding result, with an empty context and the
/// kind's description as the message. A success passes through unchanged.
pub fn convert_json_result<T>(result: Result<T, serde_json::Error>) -> (converted: Result<
    T,
    StandardizedError,
>)
    ensures
        result matches Ok(value) ==> converted == Ok::<T, StandardizedError>(value),
        result matches Err(failure) ==> converted matches Err(error) && error@ == conversion(
            failure_category(failure),
            None,
            Map::empty(),
        ),
{
    match result {
        Ok(value) => Ok(value),
        Err(failure) => Err(JsonErrorConverter::convert(&failure, None, BTreeMap::new())),
    }
}

/// Converts the failure of a decoding result, with the given context and the
/// kind's description as the message. A success passes through unchanged.
pub fn convert_json_result_with_context<T>(
    result: Result<T, serde_json::Error>,
    context: BTreeMap<String, serde_value::Value>,
) -> (converted: Result<T, StandardizedError>)
    ensures
        result matches Ok(value) ==> converted == Ok::<T, StandardizedError>(value),
        result matches Err(failure) ==> converted matches Err(error) && error@ == conversion(
            failure_category(failure),
            None,
            context@,
        ),
{
    match result {
        Ok(value) => Ok(value),
        Err(failure) => Err(JsonErrorConverter::convert(&failure, None, context)),
    }
}

/// Converts the failure of a decoding result, with the given context and
/// message. A success passes through unchanged.
pub fn convert_json_result_with_message<T>(
    result: Result<T, serde_json::Error>,
    context: BTreeMap<String, serde_value::Value>,
    message: &str,
) -> (converted: Result<T, StandardizedError>)
    ensures
        result matches Ok(value) ==> converted == Ok::<T, StandardizedError>(value),
        result matches Err(failure) ==> converted matches Err(error) && error@ == conversion(
            failure_category(failure),
            Some(message@),
            context@,
        ),
{
    match result {
        Ok(value) => Ok(value),
        Err(failure) => Err(
            JsonErrorConverter::convert(&failure, Some(message.to_owned()), context),
        ),
    }
}

} // verus!
