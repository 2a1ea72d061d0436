//! What is reported of functions that cannot be exported.

use crate::argument::ArgumentAttrType;
use crate::tokens::{stream_tokens, Tok};
use proc_macro2::{Span, TokenStream};
use vstd::prelude::*;
use vstd::string::StringExecFns;

verus! {

/// What a report points at.
pub enum Location {
    Place(Span),
    /// The tokens from the first to the last of these.
    Tokens(TokenStream),
}

pub enum LocationView {
    Place(Span),
    Tokens(Seq<Tok>),
}

impl View for Location {
    type V = LocationView;

    open spec fn view(&self) -> LocationView {
        match *self {
            Location::Place(span) => LocationView::Place(span),
            Location::Tokens(stream) => LocationView::Tokens(stream_tokens(stream)),
        }
    }
}

/// What is wrong with a function that is to be exported.
#[derive(Clone, Copy)]
pub enum ErrorKind {
    GenericFunction,
    AsyncFunction,
    SelfParameter,
    AttributeWithValue,
    DuplicateAttribute(ArgumentAttrType),
    ExclusiveAttributes,
    UndeterminedAttribute,
    SecondList,
    SecondCv,
    ByRefParameter,
    SubPattern,
    UnsupportedPattern,
    RawReturnWithoutValue,
}

impl ErrorKind {
    /// The text of the report.
    pub open spec fn text(self) -> Seq<char> {
        match self {
            ErrorKind::GenericFunction => "generic functions cannot be exported as xsubs"@,
            ErrorKind::AsyncFunction => "async fns cannot be exported as xsubs"@,
            ErrorKind::SelfParameter => "cannot export self-taking methods as xsubs"@,
            ErrorKind::AttributeWithValue => "attribute does not take any value or parameter"@,
            ErrorKind::DuplicateAttribute(attr_type) => "duplicate attribute '"@ + attr_type.text()
                + "'"@,
            ErrorKind::ExclusiveAttributes =>
                "`raw`, `try_from_ref`, `cv`, and `list` attributes are mutually exclusive"@,
            ErrorKind::UndeterminedAttribute => "failed to determine argument attribute"@,
            ErrorKind::SecondList => "only 1 #[list] parameter allowed"@,
            ErrorKind::SecondCv => "only 1 'cv' parameter allowed"@,
            ErrorKind::ByRefParameter => "xsub does not support by-ref parameters"@,
            ErrorKind::SubPattern => "xsub does not support sub-patterns on parameters"@,
            ErrorKind::UnsupportedPattern => "xsub does not support this kind of parameter"@,
            ErrorKind::RawReturnWithoutValue =>
                "raw_return attribute is illegal without a return value"@,
        }
    }
}

/// A report that stops the compilation.
pub struct Error {
    pub at: Location,
    pub kind: ErrorKind,
}

pub struct ErrorView {
    pub at: LocationView,
    pub kind: ErrorKind,
}

impl View for Error {
    type V = ErrorView;

    open spec fn view(&self) -> ErrorView {
        ErrorView { at: self.at@, kind: self.kind }
    }
}

/// What each of a list of reports says.
pub open spec fn error_views(errors: Seq<Error>) -> Seq<ErrorView> {
    errors.map_values(|error: Error| error@)
}

pub open spec fn error_at_span(span: Span, kind: ErrorKind) -> ErrorView {
    ErrorView { at: LocationView::Place(span), kind }
}

pub open spec fn error_at_tokens(tokens: Seq<Tok>, kind: ErrorKind) -> ErrorView {
    ErrorView { at: LocationView::Tokens(tokens), kind }
}

/// Adds a report to those that were made before.
pub fn report(errors: &mut Vec<Error>, error: Error)
    ensures
        final(errors)@ == old(errors)@.push(error),
        error_views(final(errors)@) == error_views(old(errors)@).push(error@),
{
    errors.push(error);
    assert(error_views(errors@) =~= error_views(old(errors)@).push(error@));
}

impl Error {
    /// A report on a place.
    pub fn new(span: Span, kind: ErrorKind) -> (r: Error)
        ensures
            r@ == error_at_span(span, kind),
    {
        Error { at: Location::Place(span), kind }
    }

    /// A report on tokens.
    pub fn new_spanned(tokens: &TokenStream, kind: ErrorKind) -> (r: Error)
        ensures
            r@ == error_at_tokens(stream_tokens(*tokens), kind),
    {
        Error { at: Location::Tokens(tokens.clone()), kind }
    }

    /// The text of the report.
    pub fn message(&self) -> (r: String)
        ensures
            r@ == self.kind.text(),
    {
        match self.kind {
            ErrorKind::GenericFunction =>
                "generic functions cannot be exported as xsubs".to_owned(),
            ErrorKind::AsyncFunction => "async fns cannot be exported as xsubs".to_owned(),
            ErrorKind::SelfParameter => "cannot export self-taking methods as xsubs".to_owned(),
            ErrorKind::AttributeWithValue =>
                "attribute does not take any value or parameter".to_owned(),
            ErrorKind::DuplicateAttribute(attr_type) => {
                let mut text = "duplicate attribute '".to_owned();
                text.append(attr_type.as_str());
                text.append("'");
                text
            },
            ErrorKind::ExclusiveAttributes =>
                "`raw`, `try_from_ref`, `cv`, and `list` attributes are mutually exclusive".to_owned(),
            ErrorKind::UndeterminedAttribute => "failed to determine argument attribute".to_owned(),
            ErrorKind::SecondList => "only 1 #[list] parameter allowed".to_owned(),
            ErrorKind::SecondCv => "only 1 'cv' parameter allowed".to_owned(),
            ErrorKind::ByRefParameter => "xsub does not support by-ref parameters".to_owned(),
            ErrorKind::SubPattern =>
                "xsub does not support sub-patterns on parameters".to_owned(),
            ErrorKind::UnsupportedPattern =>
                "xsub does not support this kind of parameter".to_owned(),
            ErrorKind::RawReturnWithoutValue =>
                "raw_return attribute is illegal without a return value".to_owned(),
        }
    }
}

/// The report of a repeated attribute names it, so that two such reports are the same exactly where
/// the attributes have the same name.
pub proof fn law_repeated_attributes_are_named(a: ArgumentAttrType, b: ArgumentAttrType)
    ensures
        ({
            let text = ErrorKind::DuplicateAttribute(a).text();
            let start = "duplicate attribute '"@.len() as int;
            &&& text.subrange(start, text.len() - 1) == a.text()
            &&& text == ErrorKind::DuplicateAttribute(b).text() <==> a.text() == b.text()
        }),
{
    reveal_strlit("duplicate attribute '");
    reveal_strlit("'");
    let start = "duplicate attribute '"@.len() as int;
    let first = ErrorKind::DuplicateAttribute(a).text();
    let second = ErrorKind::DuplicateAttribute(b).text();
    assert(first.subrange(start, first.len() - 1) =~= a.text());
    assert(second.subrange(start, second.len() - 1) =~= b.text());
}

} // verus!
