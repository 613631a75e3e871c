//! Errors of bindings generation: what went wrong, and in the course of what.

use crate::strings::{join_texts, joined, texts_of};
use crate::tokens::{stream_of, Tok};
use proc_macro2::TokenStream;
use vstd::prelude::*;

verus! {

/// The reason for which no binding could be generated.
#[derive(Clone, Copy, Debug, PartialEq, Eq, Structural)]
pub enum ErrorKind {
    /// A pointer, reference, slice or optional type without exactly one type
    /// argument.
    MissingTypeArgument,
    /// A reference type without exactly one lifetime argument.
    MissingLifetime,
    /// No declaration of the unit has the identifier that a type names.
    UnresolvableIdentifier,
    /// Type arguments on a reference to a record or a type alias.
    UnsupportedTypeArguments,
    /// A type names a declaration that defines no type.
    NotAType,
    /// A name that cannot be spelled as an identifier.
    InvalidIdentifier,
    /// A lifetime that the declaration does not declare.
    UnknownLifetime,
    /// A `self` parameter of a type from which no receiver can be derived.
    InvalidSelf,
    /// A member function without its record, or with a record other than
    /// that of its receiver.
    MissingRecord,
    /// A declaration with fewer parameters than its kind has.
    MissingParameter,
    /// A type, declaration or calling convention that is not supported.
    Unsupported,
    /// A value of a type that cannot be held by value.
    NotByValue,
    /// Two declarations that lower to the same function.
    Overloaded,
    /// A label of a compilation unit that names no target.
    InvalidLabel,
    /// Two declarations of one unit with the same identifier.
    DuplicateDeclaration,
    /// A type alias whose underlying type leads back to itself.
    CyclicAlias,
}

/// An error with the chain of what was being attempted: the outermost
/// attempt first, the cause last.
#[derive(Debug)]
pub struct BindingError {
    pub kind: ErrorKind,
    pub messages: Vec<String>,
}

/// The mathematical model of a `BindingError`.
pub struct ErrorModel {
    pub kind: ErrorKind,
    pub messages: Seq<Seq<char>>,
}

impl ErrorModel {
    /// An error with its cause alone.
    pub open spec fn root(kind: ErrorKind, message: Seq<char>) -> ErrorModel {
        ErrorModel { kind, messages: seq![message] }
    }

    /// This error, met in the course of `message`.
    pub open spec fn with_context(self, message: Seq<char>) -> ErrorModel {
        ErrorModel { kind: self.kind, messages: seq![message] + self.messages }
    }

    /// The whole chain as one line: the messages with `": "` between them.
    pub open spec fn text(self) -> Seq<char> {
        joined(self.messages, ": "@)
    }
}

/// `r`, or its error met in the course of `message`.
pub open spec fn in_context<T>(r: Result<T, ErrorModel>, message: Seq<char>) -> Result<
    T,
    ErrorModel,
> {
    match r {
        Ok(value) => Ok(value),
        Err(error) => Err(error.with_context(message)),
    }
}

/// Whether `r` is the stream or the error that `expected` describes.
pub open spec fn tokens_are(
    r: Result<TokenStream, BindingError>,
    expected: Result<Seq<Tok>, ErrorModel>,
) -> bool {
    match expected {
        Ok(tokens) => r matches Ok(ts) && stream_of(ts) == tokens,
        Err(error) => r matches Err(e) && e@ == error,
    }
}

/// Whether `r` is `inner`, with its error met in the course of `message`.
pub open spec fn is_in_context(
    r: Result<TokenStream, BindingError>,
    inner: Result<TokenStream, BindingError>,
    message: Seq<char>,
) -> bool {
    match inner {
        Ok(ts) => r == Ok::<TokenStream, BindingError>(ts),
        Err(error) => r matches Err(e) && e@ == error@.with_context(message),
    }
}

/// `inner`, with its error met in the course of `message`.
pub fn with_context(inner: Result<TokenStream, BindingError>, message: String) -> (r: Result<
    TokenStream,
    BindingError,
>)
    ensures
        is_in_context(r, inner, message@),
{
    match inner {
        Ok(ts) => Ok(ts),
        Err(error) => Err(error.with_context(message)),
    }
}

impl View for BindingError {
    type V = ErrorModel;

    open spec fn view(&self) -> ErrorModel {
        ErrorModel { kind: self.kind, messages: texts_of(self.messages@) }
    }
}

impl BindingError {
    /// An error with its cause alone.
    pub fn new(kind: ErrorKind, message: String) -> (e: BindingError)
        ensures
            e@ == ErrorModel::root(kind, message@),
    {
        let mut messages: Vec<String> = Vec::new();
        messages.push(message);
        let e = BindingError { kind, messages };
        assert(e@.messages =~= seq![message@]);
        e
    }

    /// An error with its cause alone, given as a literal.
    pub fn from_str(kind: ErrorKind, message: &str) -> (e: BindingError)
        ensures
            e@ == ErrorModel::root(kind, message@),
    {
        BindingError::new(kind, String::from_str(message))
    }

    /// This error, met in the course of `message`.
    pub fn with_context(self, message: String) -> (e: BindingError)
        ensures
            e@ == self@.with_context(message@),
    {
        let mut messages = self.messages;
        messages.insert(0, message);
        let e = BindingError { kind: self.kind, messages };
        assert(e@.messages =~= seq![message@] + self@.messages);
        e
    }

    /// The whole chain as one line, the outermost attempt first, with `": "`
    /// between the messages.
    pub fn message(&self) -> (text: String)
        ensures
            text@ == self@.text(),
    {
        join_texts(&self.messages, ": ")
    }
}

} // verus!
