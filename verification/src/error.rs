//! The standardized error and its mathematical model.
use crate::kind::ErrorKind;
use std::collections::BTreeMap;
use vstd::prelude::*;

verus! {

/// `serde_value::Value`, the structured value stored under a context key. The
/// library moves such values and never looks inside one.
#[verifier::external_type_specification]
#[verifier::external_body]
pub struct ExContextValue(serde_value::Value);

/// What a standardized error means: its kind, the characters of its message,
/// and the context as a map from key to value.
#[verifier::ext_equal]
pub struct ErrorModel {
    pub kind: ErrorKind,
    pub message: Seq<char>,
    pub context: Map<String, serde_value::Value>,
}

/// An error of one of the registry's kinds, with a message for people and a
/// context for diagnosis. It does not change once it is built.
#[derive(Clone, Debug, PartialEq)]
pub struct StandardizedError {
    kind: ErrorKind,
    message: String,
    context: BTreeMap<String, serde_value::Value>,
}

impl View for StandardizedError {
    type V = ErrorModel;

    closed spec fn view(&self) -> ErrorModel {
        ErrorModel { kind: self.kind, message: self.message@, context: self.context@ }
    }
}

/// The message of an error of `kind`: the caller's, if there is one, else the
/// kind's default description.
pub open spec fn message_of(kind: ErrorKind, message: Option<Seq<char>>) -> Seq<char> {
    match message {
        Some(text) => text,
        None => kind.spec_description(),
    }
}

/// The characters of an optional message.
pub open spec fn message_view(message: Option<String>) -> Option<Seq<char>> {
    match message {
        Some(text) => Some(text@),
        None => None,
    }
}

impl StandardizedError {
    /// Builds the error of `kind`. A given message is taken as it is, an empty
    /// one too; without one the message is the kind's description. The context
    /// is stored unchanged.
    pub fn new(
        kind: ErrorKind,
        message: Option<String>,
        context: BTreeMap<String, serde_value::Value>,
    ) -> (error: StandardizedError)
        ensures
            error@.kind == kind,
            error@.message == message_of(kind, message_view(message)),
            error@.context == context@,
    {
        let message = match message {
            Some(text) => text,
            None => kind.description().to_owned(),
        };
        StandardizedError { kind, message, context }
    }

    /// The kind of the error.
    pub fn kind(&self) -> (kind: ErrorKind)
        ensures
            kind == self@.kind,
    {
        self.kind
    }

    /// The numeric code, that of the kind.
    pub fn code(&self) -> (code: u16)
        ensures
            code == self@.kind.spec_code(),
    {
        self.kind.code()
    }

    /// The HTTP-style status, which is the code.
    pub fn status(&self) -> (status: u16)
        ensures
            status == self@.kind.spec_code(),
    {
        self.kind.code()
    }

    /// The message.
    pub fn message(&self) -> (message: &str)
        ensures
            message@ == self@.message,
    {
        self.message.as_str()
    }

    /// The context.
    pub fn context(&self) -> (context: &BTreeMap<String, serde_value::Value>)
        ensures
            context@ == self@.context,
    {
        &self.context
    }
}

} // verus!
