//! The failure value of `serde_json` and the category it falls into.
use vstd::prelude::*;

verus! {

/// The cause of a decoding failure, as the decoder itself sorts it.
#[derive(Clone, Copy, Debug, PartialEq, Eq, Structural)]
pub enum Category {
    /// Bytes could not be read from or written to the underlying stream.
    Io,
    /// The input is not syntactically valid JSON.
    Syntax,
    /// The input is valid JSON of the wrong shape or type.
    Data,
    /// The input ended before the value was complete.
    Eof,
}

/// `serde_json::Error`. The library carries it and asks for its category;
/// nothing inside it is visible to the verifier.
#[verifier::external_type_specification]
#[verifier::external_body]
pub struct ExJsonError(serde_json::Error);

/// The category of a failure: what `serde_json::Error::classify` answers for
/// it. The answer is read off the error code stored in the failure, so one
/// failure always has one category.
pub uninterp spec fn failure_category(failure: serde_json::Error) -> Category;

/// Calls `serde_json::Error::classify` and hands its answer on, variant by
/// variant. Trusted: that the call returns, and that its answer is the
/// failure's category; `classify` is a match on the stored error code that
/// neither panics nor reads anything else.
#[verifier::external_body]
pub(crate) fn classify(failure: &serde_json::Error) -> (category: Category)
    ensures
        category == failure_category(*failure),
{
    match failure.classify() {
        serde_json::error::Category::Io => Category::Io,
        serde_json::error::Category::Syntax => Category::Syntax,
        serde_json::error::Category::Data => Category::Data,
        serde_json::error::Category::Eof => Category::Eof,
    }
}

} // verus!
