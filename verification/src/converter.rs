//! The converter: from a decoding failure to a standardized error.
use crate::error::{message_of, message_view, ErrorModel, StandardizedError};
use crate::kind::{kind_of, ErrorKind};
use crate::source::{classify, failure_category, Category};
use std::collections::BTreeMap;
use vstd::prelude::*;

verus! {

/// What a failure of `category` converts to, given the caller's optional
/// message and context: the kind of the category, the message or else the
/// kind's description, and the very same context.
pub open spec fn conversion(
    category: Category,
    message: Option<Seq<char>>,
    context: Map<String, serde_value::Value>,
) -> ErrorModel {
    ErrorModel {
        kind: kind_of(category),
        message: message_of(kind_of(category), message),
        context,
    }
}

/// Converts the failures of `serde_json` into standardized errors.
pub struct JsonErrorConverter;

impl JsonErrorConverter {
    /// Converts a failure whose category is already known.
    ///
    /// The kind depends on the category alone. A given message becomes the
    /// error's message whatever it holds; without one the kind's description
    /// is used. No key of the context is added, removed or changed.
    pub fn convert_category(
        category: Category,
        message: Option<String>,
        context: BTreeMap<String, serde_value::Value>,
    ) -> (error: StandardizedError)
        ensures
            error@ == conversion(category, message_view(message), context@),
            error@.kind == kind_of(category),
            message matches Some(text) ==> error@.message == text@,
            message is None ==> error@.message == kind_of(category).spec_description(),
            error@.context == context@,
    {
        StandardizedError::new(ErrorKind::from_category(category), message, context)
    }

    /// Converts a failure of `serde_json`: classifies it, then converts it as
    /// [`Self::convert_category`] does. Never fails.
    pub fn convert(
        failure: &serde_json::Error,
        message: Option<String>,
        context: BTreeMap<String, serde_value::Value>,
    ) -> (error: StandardizedError)
        ensures
            error@ == conversion(failure_category(*failure), message_view(message), context@),
            error@.kind == kind_of(failure_category(*failure)),
            message matches Some(text) ==> error@.message == text@,
            message is None ==> error@.message == kind_of(
                failure_category(*failure),
            ).spec_description(),
            error@.context == context@,
    {
        Self::convert_category(classify(failure), message, context)
    }
}

/// The kind of a converted failure depends on its category alone, whatever
/// message and context come with it.
pub proof fn lemma_kind_depends_on_category_alone(
    category: Category,
    first_message: Option<Seq<char>>,
    first_context: Map<String, serde_value::Value>,
    second_message: Option<Seq<char>>,
    second_context: Map<String, serde_value::Value>,
)
    ensures
        conversion(category, first_message, first_context).kind == conversion(
            category,
            second_message,
            second_context,
        ).kind,
{
}

/// An error's own message, given back as the override, changes nothing: the
/// conversion is the same error again.
pub proof fn lemma_message_override_idempotent(
    category: Category,
    message: Option<Seq<char>>,
    context: Map<String, serde_value::Value>,
)
    ensures
        conversion(category, Some(conversion(category, message, context).message), context)
            == conversion(category, message, context),
{
}

/// Converting one failure twice, with messages of the same characters and
/// contexts of the same entries, gives two errors with the same kind, the same
/// message and the same context.
pub proof fn lemma_convert_deterministic(
    failure: serde_json::Error,
    first_message: Option<String>,
    first_context: BTreeMap<String, serde_value::Value>,
    first: StandardizedError,
    second_message: Option<String>,
    second_context: BTreeMap<String, serde_value::Value>,
    second: StandardizedError,
)
    requires
        message_view(first_message) == message_view(second_message),
        first_context@ == second_context@,
        first@ == conversion(
            failure_category(failure),
            message_view(first_message),
            first_context@,
        ),
        second@ == conversion(
            failure_category(failure),
            message_view(second_message),
            second_context@,
        ),
    ensures
        first@.kind == second@.kind,
        first@.message == second@.message,
        first@.context == second@.context,
{
}

} // verus!
