//! The registry of error kinds and the category each one answers to.
use crate::source::Category;
use vstd::prelude::*;

verus! {

/// One entry of the registry: a name bound to a status code and a default
/// description. The set of kinds is closed.
#[derive(Clone, Copy, Debug, PartialEq, Eq, Structural)]
pub enum ErrorKind {
    /// Malformed input; the caller's fault.
    JsonSyntax,
    /// Well-formed input that does not fit the expected type; the caller's fault.
    JsonData,
    /// Truncated input; treated as a fault on the serving side.
    JsonEof,
    /// Failure of the transport underneath the decoder.
    JsonIo,
}

/// The kind that a category stands for.
pub open spec fn kind_of(category: Category) -> ErrorKind {
    match category {
        Category::Io => ErrorKind::JsonIo,
        Category::Syntax => ErrorKind::JsonSyntax,
        Category::Data => ErrorKind::JsonData,
        Category::Eof => ErrorKind::JsonEof,
    }
}

impl ErrorKind {
    /// The identifier of the kind.
    pub open spec fn spec_name(self) -> Seq<char> {
        match self {
            ErrorKind::JsonSyntax => "JsonSyntax"@,
            ErrorKind::JsonData => "JsonData"@,
            ErrorKind::JsonEof => "JsonEof"@,
            ErrorKind::JsonIo => "JsonIo"@,
        }
    }

    /// The name under which an error of the kind is raised.
    pub open spec fn spec_error_name(self) -> Seq<char> {
        match self {
            ErrorKind::JsonSyntax => "SyntaxError"@,
            ErrorKind::JsonData => "DataError"@,
            ErrorKind::JsonEof => "EofError"@,
            ErrorKind::JsonIo => "IoError"@,
        }
    }

    /// The status code of the kind.
    pub open spec fn spec_code(self) -> u16 {
        match self {
            ErrorKind::JsonSyntax => 400,
            ErrorKind::JsonData => 400,
            ErrorKind::JsonEof => 500,
            ErrorKind::JsonIo => 500,
        }
    }

    /// The message of an error of this kind when the caller gives none.
    pub open spec fn spec_description(self) -> Seq<char> {
        match self {
            ErrorKind::JsonSyntax => "Syntax Error"@,
            ErrorKind::JsonData => "Invalid JSON data"@,
            ErrorKind::JsonEof => "Reached the end of the input data"@,
            ErrorKind::JsonIo => "IO Error"@,
        }
    }

    /// Selects the kind for a category. Every category has exactly one.
    pub fn from_category(category: Category) -> (kind: ErrorKind)
        ensures
            kind == kind_of(category),
    {
        match category {
            Category::Io => ErrorKind::JsonIo,
            Category::Syntax => ErrorKind::JsonSyntax,
            Category::Data => ErrorKind::JsonData,
            Category::Eof => ErrorKind::JsonEof,
        }
    }

    /// The identifier of the kind.
    pub fn name(&self) -> (name: &'static str)
        ensures
            name@ == self.spec_name(),
    {
        match self {
            ErrorKind::JsonSyntax => "JsonSyntax",
            ErrorKind::JsonData => "JsonData",
            ErrorKind::JsonEof => "JsonEof",
            ErrorKind::JsonIo => "JsonIo",
        }
    }

    /// The name under which an error of the kind is raised.
    pub fn error_name(&self) -> (name: &'static str)
        ensures
            name@ == self.spec_error_name(),
    {
        match self {
            ErrorKind::JsonSyntax => "SyntaxError",
            ErrorKind::JsonData => "DataError",
            ErrorKind::JsonEof => "EofError",
            ErrorKind::JsonIo => "IoError",
        }
    }

    /// The status code: 400 for a fault of the caller, 500 otherwise.
    pub fn code(&self) -> (code: u16)
        ensures
            code == self.spec_code(),
    {
        match self {
            ErrorKind::JsonSyntax => 400,
            ErrorKind::JsonData => 400,
            ErrorKind::JsonEof => 500,
            ErrorKind::JsonIo => 500,
        }
    }

    /// The default description.
    pub fn description(&self) -> (description: &'static str)
        ensures
            description@ == self.spec_description(),
    {
        match self {
            ErrorKind::JsonSyntax => "Syntax Error",
            ErrorKind::JsonData => "Invalid JSON data",
            ErrorKind::JsonEof => "Reached the end of the input data",
            ErrorKind::JsonIo => "IO Error",
        }
    }
}

/// Two categories stand for the same kind only if they are the same category:
/// no kind is shared, and no category has two kinds.
pub proof fn lemma_kind_of_one_to_one(first: Category, second: Category)
    ensures
        kind_of(first) == kind_of(second) <==> first == second,
{
}

/// Every kind of the registry answers to a category.
pub proof fn lemma_kind_of_onto(kind: ErrorKind)
    ensures
        exists|category: Category| kind_of(category) == kind,
{
    match kind {
        ErrorKind::JsonSyntax => assert(kind_of(Category::Syntax) == kind),
        ErrorKind::JsonData => assert(kind_of(Category::Data) == kind),
        ErrorKind::JsonEof => assert(kind_of(Category::Eof) == kind),
        ErrorKind::JsonIo => assert(kind_of(Category::Io) == kind),
    }
}

/// Malformed and ill-typed input is the caller's fault and carries a 4xx code;
/// truncated input and transport failures carry a 5xx code.
pub proof fn lemma_status_class(category: Category)
    ensures
        category is Syntax || category is Data <==> 400 <= kind_of(category).spec_code() < 500,
        category is Eof || category is Io <==> 500 <= kind_of(category).spec_code() < 600,
{
}

} // verus!
