//! The parameters of exported functions: their attributes, and the code that takes them from Perl.

use crate::error::{
    error_at_span, error_at_tokens, error_views, report, Error, ErrorKind, ErrorView, LocationView,
};
use crate::ident::{word_text, Ident, IdentView};
use crate::syntax::{Attribute, FnArg, Meta, PatType, Path, Type};
use crate::tokens::{ident_token, lemma_empty_add, stream_tokens, At, Tok, Writer};
use crate::words::lemma_words;
use proc_macro2::{Span, TokenStream};
use vstd::prelude::*;

verus! {

broadcast use lemma_empty_add;

/// How a parameter is passed, where an attribute says so.
#[derive(Clone, Copy)]
pub enum ArgumentAttrType {
    /// Skip the deserializer for this argument.
    Raw,
    /// Call `TryFrom<&Value>::try_from` for this argument instead of deserializing it.
    TryFromRef,
    /// This is the `CV` pointer.
    CVPtr(Span),
    /// Slurp the remaining arguments (like an `@rest` at the end).
    /// This requires the parameter to implement `FromIterator<T: Deserialize>`.
    TrailingList(Span),
}

impl ArgumentAttrType {
    /// The name of the attribute.
    pub open spec fn text(self) -> Seq<char> {
        match self {
            ArgumentAttrType::Raw => "raw"@,
            ArgumentAttrType::TryFromRef => "try_from_ref"@,
            ArgumentAttrType::CVPtr(_) => "cv"@,
            ArgumentAttrType::TrailingList(_) => "list"@,
        }
    }

    /// Whether two attributes are the same, wherever they stand.
    pub open spec fn same_variant(self, other: ArgumentAttrType) -> bool {
        match self {
            ArgumentAttrType::Raw => other is Raw,
            ArgumentAttrType::TryFromRef => other is TryFromRef,
            ArgumentAttrType::CVPtr(_) => other is CVPtr,
            ArgumentAttrType::TrailingList(_) => other is TrailingList,
        }
    }

    /// The attribute that a path names, if it names one of these.
    pub open spec fn of_path(path: Path) -> Option<ArgumentAttrType> {
        if path.is_word("raw"@) {
            Some(ArgumentAttrType::Raw)
        } else if path.is_word("try_from_ref"@) {
            Some(ArgumentAttrType::TryFromRef)
        } else if path.is_word("cv"@) {
            Some(ArgumentAttrType::CVPtr(path.span))
        } else if path.is_word("list"@) {
            Some(ArgumentAttrType::TrailingList(path.span))
        } else {
            None
        }
    }

    /// The attribute that an attribute of a parameter is, if it is one of these.
    pub open spec fn of_attr(attr: Attribute) -> Option<ArgumentAttrType> {
        ArgumentAttrType::of_path(attr.meta_path())
    }

    pub fn from_attr(attr: &Attribute) -> (r: Option<ArgumentAttrType>)
        ensures
            r == ArgumentAttrType::of_attr(*attr),
    {
        Self::from_path(attr.path())
    }

    pub fn from_path(path: &Path) -> (r: Option<ArgumentAttrType>)
        ensures
            r == ArgumentAttrType::of_path(*path),
    {
        if path.is_ident("raw") {
            return Some(Self::Raw);
        }
        if path.is_ident("try_from_ref") {
            return Some(Self::TryFromRef);
        }
        if path.is_ident("cv") {
            return Some(Self::CVPtr(path.span));
        }
        if path.is_ident("list") {
            return Some(Self::TrailingList(path.span));
        }
        None
    }

    pub fn is_same_variant_as(&self, other: &ArgumentAttrType) -> (r: bool)
        ensures
            r == self.same_variant(*other),
    {
        match (self, other) {
            (Self::Raw, Self::Raw) => true,
            (Self::TryFromRef, Self::TryFromRef) => true,
            (Self::CVPtr(_), Self::CVPtr(_)) => true,
            (Self::TrailingList(_), Self::TrailingList(_)) => true,
            _ => false,
        }
    }

    pub fn as_str(&self) -> (r: &'static str)
        ensures
            r@ == self.text(),
    {
        match self {
            Self::Raw => "raw",
            Self::TryFromRef => "try_from_ref",
            Self::CVPtr(_) => "cv",
            Self::TrailingList(_) => "list",
        }
    }
}

/// A parameter, and how it is passed.
pub struct ArgumentAttr<'s> {
    pub attr_type: Option<ArgumentAttrType>,
    pub pat_type: &'s PatType,
}

/// Whether an attribute is a path alone.
pub open spec fn is_plain(attr: Attribute) -> bool {
    attr.meta is Path
}

/// The way in which the attributes say that a parameter is passed: the first of them that names one
/// and is a path alone.
pub open spec fn chosen(attrs: Seq<Attribute>) -> Option<ArgumentAttrType>
    decreases attrs.len(),
{
    if attrs.len() == 0 {
        None
    } else {
        match chosen(attrs.drop_last()) {
            Some(attr_type) => Some(attr_type),
            None => if is_plain(attrs.last()) {
                ArgumentAttrType::of_attr(attrs.last())
            } else {
                None
            },
        }
    }
}

/// What is reported of an attribute of a parameter at `span`, where `before` says how the parameter
/// is passed.
pub open spec fn complaint(
    before: Option<ArgumentAttrType>,
    attr: Attribute,
    span: Span,
) -> Option<ErrorView> {
    match (ArgumentAttrType::of_attr(attr), before) {
        (None, _) => None,
        (Some(got), existing) => if !is_plain(attr) {
            Some(error_at_tokens(stream_tokens(attr.meta_tokens), ErrorKind::AttributeWithValue))
        } else {
            match existing {
                None => None,
                Some(existing) => if existing.same_variant(got) {
                    Some(error_at_span(span, ErrorKind::DuplicateAttribute(existing)))
                } else {
                    Some(error_at_span(span, ErrorKind::ExclusiveAttributes))
                },
            }
        },
    }
}

/// What is reported of the attributes of a parameter at `span`, in their order.
pub open spec fn complaints(attrs: Seq<Attribute>, span: Span) -> Seq<ErrorView>
    decreases attrs.len(),
{
    if attrs.len() == 0 {
        seq![]
    } else {
        let rest = attrs.drop_last();
        complaints(rest, span) + (match complaint(chosen(rest), attrs.last(), span) {
            Some(error) => seq![error],
            None => seq![],
        })
    }
}

/// The attributes of a parameter that say nothing of how it is passed, and stay on it.
pub open spec fn retained(attrs: Seq<Attribute>) -> Seq<Attribute> {
    attrs.filter(|attr: Attribute| ArgumentAttrType::of_attr(attr) is None)
}

/// Finds out what is wrong with an attribute that says how a parameter at `span` is passed, where
/// `attr_type` is what the ones before it have said.
fn check_attr(
    attr_type: Option<ArgumentAttrType>,
    got_attr_type: ArgumentAttrType,
    attr: &Attribute,
    span: Span,
) -> (r: Option<Error>)
    requires
        ArgumentAttrType::of_attr(*attr) == Some(got_attr_type),
    ensures
        match complaint(attr_type, *attr, span) {
            Some(error) => r is Some && r->0@ == error,
            None => r is None && is_plain(*attr) && attr_type is None,
        },
{
    let is_path = match attr.meta {
        Meta::Path(_) => true,
        _ => false,
    };
    if !is_path {
        return Some(Error::new_spanned(&attr.meta_tokens, ErrorKind::AttributeWithValue));
    }
    match attr_type {
        None => None,
        Some(existing_attr_type) => if existing_attr_type.is_same_variant_as(&got_attr_type) {
            Some(Error::new(span, ErrorKind::DuplicateAttribute(existing_attr_type)))
        } else {
            // At this point there are two differing attributes.
            Some(Error::new(span, ErrorKind::ExclusiveAttributes))
        },
    }
}

/// Finds out how the attributes say that a parameter is passed, and whether anything is wrong with
/// them.
pub(crate) fn classify(attrs: &Vec<Attribute>, span: Span) -> (r: (Option<ArgumentAttrType>, bool))
    ensures
        r.0 == chosen(attrs@),
        r.1 == (complaints(attrs@, span).len() > 0),
{
    let mut attr_type: Option<ArgumentAttrType> = None;
    let mut has_err = false;
    let mut i: usize = 0;
    while i < attrs.len()
        invariant
            i <= attrs@.len(),
            attr_type == chosen(attrs@.take(i as int)),
            has_err == (complaints(attrs@.take(i as int), span).len() > 0),
        decreases attrs@.len() - i,
    {
        proof {
            assert(attrs@.take(i + 1).drop_last() =~= attrs@.take(i as int));
        }
        if let Some(got_attr_type) = ArgumentAttrType::from_attr(&attrs[i]) {
            match check_attr(attr_type, got_attr_type, &attrs[i], span) {
                None => {
                    attr_type = Some(got_attr_type);
                },
                Some(_) => {
                    has_err = true;
                },
            }
        }
        i += 1;
    }
    assert(attrs@.take(i as int) =~= attrs@);
    (attr_type, has_err)
}

impl<'s> ArgumentAttr<'s> {
    /// Takes the attributes off a parameter that say how it is passed, whether or not anything is
    /// wrong with them. Every attribute that is wrong is reported in `errors`.
    pub fn new_from_fn_arg(arg: &'s mut FnArg, errors: &mut Vec<Error>) -> (r: Result<
        ArgumentAttr<'s>,
        Error,
    >)
        ensures
            match *old(arg) {
                FnArg::Receiver(tokens) => {
                    &&& r matches Err(error)
                    &&& error@ == error_at_tokens(stream_tokens(tokens), ErrorKind::SelfParameter)
                    &&& final(errors)@ == old(errors)@
                    &&& *final(arg) == *old(arg)
                },
                FnArg::Typed(pat_type) => {
                    let found = complaints(pat_type.attrs@, pat_type.span);
                    &&& error_views(final(errors)@) == error_views(old(errors)@) + found
                    &&& final(errors)@.take(old(errors)@.len() as int) == old(errors)@
                    &&& *final(arg) matches FnArg::Typed(left)
                    &&& left.attrs@ == retained(pat_type.attrs@)
                    &&& left == (PatType { attrs: left.attrs, ..pat_type })
                    &&& if found.len() > 0 {
                        &&& r matches Err(error)
                        &&& error@ == error_at_span(pat_type.span, ErrorKind::UndeterminedAttribute)
                    } else {
                        &&& r matches Ok(arg_attr)
                        &&& arg_attr.attr_type == chosen(pat_type.attrs@)
                        &&& *arg_attr.pat_type == left
                    }
                },
            },
    {
        match arg {
            FnArg::Receiver(tokens) => Err(Error::new_spanned(tokens, ErrorKind::SelfParameter)),
            FnArg::Typed(pat_type) => {
                let span = pat_type.span;
                let mut attrs: Vec<Attribute> = Vec::new();
                std::mem::swap(&mut attrs, &mut pat_type.attrs);
                let ghost all = attrs@;
                let mut attr_type: Option<ArgumentAttrType> = None;
                let mut has_err = false;
                let mut kept: Vec<Attribute> = Vec::new();
                for attr in it: attrs
                    invariant
                        it.seq() == all,
                        attr_type == chosen(all.take(it.index())),
                        kept@ == retained(all.take(it.index())),
                        has_err == (complaints(all.take(it.index()), span).len() > 0),
                        error_views(errors@) == error_views(old(errors)@) + complaints(
                            all.take(it.index()),
                            span,
                        ),
                        errors@.len() >= old(errors)@.len(),
                        errors@.take(old(errors)@.len() as int) == old(errors)@,
                {
                    let ghost i = it.index() as int;
                    proof {
                        reveal(Seq::filter);
                        assert(all.take(i + 1).drop_last() =~= all.take(i));
                        assert(all.take(i + 1).last() == attr);
                    }
                    match ArgumentAttrType::from_attr(&attr) {
                        // The attribute says nothing of how the parameter is passed.
                        None => kept.push(attr),
                        Some(got_attr_type) => match check_attr(
                            attr_type,
                            got_attr_type,
                            &attr,
                            span,
                        ) {
                            None => {
                                attr_type = Some(got_attr_type);
                            },
                            Some(error) => {
                                report(errors, error);
                                has_err = true;
                            },
                        },
                    }
                }
                assert(all.take(all.len() as int) =~= all);
                pat_type.attrs = kept;
                if has_err {
                    return Err(Error::new(span, ErrorKind::UndeterminedAttribute));
                }
                Ok(ArgumentAttr { attr_type, pat_type })
            },
        }
    }
}

/// Two attributes are the same exactly where they have the same name.
pub proof fn law_same_variant_means_same_name(a: ArgumentAttrType, b: ArgumentAttrType)
    ensures
        a.same_variant(b) <==> a.text() == b.text(),
{
    reveal_strlit("raw");
    reveal_strlit("try_from_ref");
    reveal_strlit("cv");
    reveal_strlit("list");
    assert("raw"@.len() == 3 && "try_from_ref"@.len() == 12 && "cv"@.len() == 2 && "list"@.len()
        == 4);
}

/// A path that is the name of an attribute names that attribute.
pub proof fn law_name_of_attribute_names_it(a: ArgumentAttrType, path: Path)
    requires
        path.is_word(a.text()),
    ensures
        ArgumentAttrType::of_path(path) is Some,
        ArgumentAttrType::of_path(path)->0.same_variant(a),
        ArgumentAttrType::of_path(path)->0.text() == a.text(),
{
    law_same_variant_means_same_name(a, ArgumentAttrType::Raw);
    law_same_variant_means_same_name(a, ArgumentAttrType::TryFromRef);
    law_same_variant_means_same_name(a, ArgumentAttrType::CVPtr(path.span));
    law_same_variant_means_same_name(a, ArgumentAttrType::TrailingList(path.span));
}

/// The attributes of a parameter are accepted exactly where each of them that says how the
/// parameter is passed is a path alone, and there is at most one of them.
pub proof fn law_accepted_attributes(attrs: Seq<Attribute>, span: Span)
    ensures
        complaints(attrs, span).len() == 0 <==> {
            &&& forall|i: int|
                0 <= i < attrs.len() && ArgumentAttrType::of_attr(#[trigger] attrs[i]) is Some
                    ==> is_plain(attrs[i])
            &&& forall|i: int, j: int|
                0 <= i < j < attrs.len() && ArgumentAttrType::of_attr(#[trigger] attrs[i]) is Some
                    ==> ArgumentAttrType::of_attr(#[trigger] attrs[j]) is None
        },
        complaints(attrs, span).len() == 0 ==> (chosen(attrs) is None <==> forall|i: int|
            0 <= i < attrs.len() ==> ArgumentAttrType::of_attr(#[trigger] attrs[i]) is None),
    decreases attrs.len(),
{
    if attrs.len() > 0 {
        let rest = attrs.drop_last();
        let last = attrs.last();
        law_accepted_attributes(rest, span);
        assert(forall|i: int|
            #![trigger rest[i]]
            #![trigger attrs[i]]
            0 <= i < rest.len() ==> rest[i] == attrs[i]);
        assert(attrs[attrs.len() - 1] == last);
        if complaints(rest, span).len() == 0 && chosen(rest) is Some {
            let i = choose|i: int|
                0 <= i < rest.len() && ArgumentAttrType::of_attr(#[trigger] rest[i]) is Some;
            assert(ArgumentAttrType::of_attr(attrs[i]) is Some);
        }
    }
}

/// Where the attributes of a parameter are accepted, the one that says how the parameter is passed
/// is the one that counts.
pub proof fn law_chosen_attribute(attrs: Seq<Attribute>, span: Span, i: int)
    requires
        complaints(attrs, span).len() == 0,
        0 <= i < attrs.len(),
        ArgumentAttrType::of_attr(attrs[i]) is Some,
    ensures
        chosen(attrs) == ArgumentAttrType::of_attr(attrs[i]),
    decreases attrs.len(),
{
    law_accepted_attributes(attrs, span);
    let rest = attrs.drop_last();
    law_accepted_attributes(rest, span);
    if i < rest.len() {
        assert(rest[i] == attrs[i]);
        law_chosen_attribute(rest, span, i);
    } else {
        assert(forall|j: int|
            #![trigger rest[j]]
            #![trigger attrs[j]]
            0 <= j < rest.len() ==> rest[j] == attrs[j]);
    }
}

/// The attributes that stay on a parameter say nothing of how it is passed: looked at once more,
/// they all stay, and nothing is reported.
pub proof fn law_retained_attributes_are_silent(attrs: Seq<Attribute>, span: Span)
    ensures
        retained(retained(attrs)) == retained(attrs),
        chosen(retained(attrs)) is None,
        complaints(retained(attrs), span).len() == 0,
    decreases attrs.len(),
{
    let pred = |attr: Attribute| ArgumentAttrType::of_attr(attr) is None;
    reveal(Seq::filter);
    if attrs.len() > 0 {
        law_retained_attributes_are_silent(attrs.drop_last(), span);
        if pred(attrs.last()) {
            let kept = retained(attrs.drop_last());
            assert(retained(attrs) == kept.push(attrs.last()));
            assert(kept.push(attrs.last()).drop_last() =~= kept);
        }
    }
}

/// A parameter keeps all of its attributes where none of them says how it is passed.
pub proof fn law_other_attributes_are_kept(attrs: Seq<Attribute>)
    requires
        forall|i: int|
            0 <= i < attrs.len() ==> ArgumentAttrType::of_attr(#[trigger] attrs[i]) is None,
    ensures
        retained(attrs) == attrs,
    decreases attrs.len(),
{
    reveal(Seq::filter);
    if attrs.len() > 0 {
        let rest = attrs.drop_last();
        assert(forall|i: int| 0 <= i < rest.len() ==> #[trigger] rest[i] == attrs[i]);
        law_other_attributes_are_kept(rest);
        assert(attrs[attrs.len() - 1] == attrs.last());
        assert(rest.push(attrs.last()) =~= attrs);
    }
}

/// The code that takes one argument off the arguments that Perl has passed:
///
/// ```text
/// let extracted: ::perlmod::Value = match arguments.next() {
///     Some(arg) => ::perlmod::Value::from(arg),
///     None => none_handling
/// };
/// ```
///
/// or, for a list, all that are left of them:
///
/// ```text
/// let extracted = arguments.map(::perlmod::Value::from);
/// ```
pub open spec fn extraction(
    attr_type: Option<ArgumentAttrType>,
    span: Span,
    arguments: IdentView,
    extracted: IdentView,
    none_handling: Seq<Tok>,
) -> Seq<Tok> {
    let at = At { span };
    match attr_type {
        Some(ArgumentAttrType::TrailingList(_)) => at.word("let"@) + ident_token(extracted)
            + at.op('=') + ident_token(arguments) + at.dot("map"@) + at.paren(
            at.seg("perlmod"@) + at.seg("Value"@) + at.seg("from"@),
        ) + at.op(';'),
        _ => at.word("let"@) + ident_token(extracted) + at.op(':') + at.seg("perlmod"@) + at.seg(
            "Value"@,
        ) + at.op('=') + at.word("match"@) + ident_token(arguments) + at.dot("next"@) + at.unit()
            + at.brace(
            at.word("Some"@) + at.paren(at.word("arg"@)) + at.arrow() + at.seg("perlmod"@)
                + at.seg("Value"@) + at.seg("from"@) + at.paren(at.word("arg"@)) + at.op(',')
                + at.word("None"@) + at.arrow() + none_handling,
        ) + at.op(';'),
    }
}

/// Writes the code that takes one argument off the arguments that Perl has passed.
pub fn extract_argument_code(
    arg_attr: &ArgumentAttr,
    span: Span,
    arguments_name: &Ident,
    extracted_name: &Ident,
    none_handling: TokenStream,
) -> (r: TokenStream)
    ensures
        stream_tokens(r) == extraction(
            arg_attr.attr_type,
            span,
            arguments_name@,
            extracted_name@,
            stream_tokens(none_handling),
        ),
{
    proof {
        lemma_words();
    }
    let mut w = Writer::new(span);
    w.word("let");
    w.ident(extracted_name);
    match arg_attr.attr_type {
        Some(ArgumentAttrType::TrailingList(_)) => {
            w.op('=');
            w.ident(arguments_name);
            w.dot("map");
            let mut from = w.inner();
            from.seg("perlmod");
            from.seg("Value");
            from.seg("from");
            w.paren(from);
            w.op(';');
        },
        _ => {
            w.op(':');
            w.seg("perlmod");
            w.seg("Value");
            w.op('=');
            w.word("match");
            w.ident(arguments_name);
            w.dot("next");
            w.unit();
            let mut arms = w.inner();
            arms.word("Some");
            arms.paren_word("arg");
            arms.arrow();
            arms.seg("perlmod");
            arms.seg("Value");
            arms.seg("from");
            arms.paren_word("arg");
            arms.op(',');
            arms.word("None");
            arms.arrow();
            arms.splice(&none_handling);
            w.brace(arms);
            w.op(';');
        },
    }
    w.finish()
}

/// `Ok(name) => name, Err(err) => { .. }`, where the second arm returns the error.
pub open spec fn success_or_return(at: At, name: Seq<char>) -> Seq<Tok> {
    at.word("Ok"@) + at.paren(at.word(name)) + at.arrow() + at.word(name) + at.op(',')
        + at.error_arm()
}

fn write_success_or_return(w: &mut Writer, name: &str)
    requires
        word_text(name@),
    ensures
        final(w).tokens() == old(w).tokens() + success_or_return(old(w).at(), name@),
        final(w).at() == old(w).at(),
{
    proof {
        lemma_words();
    }
    let mut arms = w.inner();
    arms.word("Ok");
    arms.paren_word(name);
    arms.arrow();
    arms.word(name);
    arms.op(',');
    arms.error_arm();
    w.append(arms);
}

/// The code that turns an extracted argument into what the function takes. For a raw argument:
///
/// ```text
/// let deserialized = extracted;
/// ```
///
/// for one that is converted by `TryFrom`:
///
/// ```text
/// let deserialized: Type = match ::std::convert::TryFrom::try_from(&extracted) {
///     Ok(arg) => arg,
///     Err(err) => { return Err(..); }
/// };
/// ```
///
/// for a list, whose values are deserialized one by one and then collected, so that its type has to
/// implement `FromIterator<T: Deserialize>`:
///
/// ```text
/// let deserialized = {
///     let _guard = ::perlmod::__private__::InParameterDeserialization::guard();
///     match extracted
///         .map(|value| ::perlmod::from_ref_value(&value))
///         .collect::<Result<Type, _>>()
///     {
///         Ok(arg) => arg,
///         Err(err) => { return Err(..); }
///     }
/// };
/// ```
///
/// and for all others:
///
/// ```text
/// let deserialized: Type = match ::perlmod::from_ref_value(&extracted) {
///     Ok(data) => data,
///     Err(err) => { return Err(..); }
/// };
/// ```
pub open spec fn deserialization(
    attr_type: Option<ArgumentAttrType>,
    span: Span,
    ty: Seq<Tok>,
    deserialized: IdentView,
    extracted: IdentView,
) -> Seq<Tok> {
    let at = At { span };
    match attr_type {
        Some(ArgumentAttrType::Raw) => at.word("let"@) + ident_token(deserialized) + at.op('=')
            + ident_token(extracted) + at.op(';'),
        Some(ArgumentAttrType::TryFromRef) => at.word("let"@) + ident_token(deserialized) + at.op(
            ':',
        ) + ty + at.op('=') + at.word("match"@) + at.seg("std"@) + at.seg("convert"@) + at.seg(
            "TryFrom"@,
        ) + at.seg("try_from"@) + at.paren(at.op('&') + ident_token(extracted)) + at.brace(
            success_or_return(at, "arg"@),
        ) + at.op(';'),
        Some(ArgumentAttrType::TrailingList(_)) => at.word("let"@) + ident_token(deserialized)
            + at.op('=') + at.brace(
            at.word("let"@) + at.word("_guard"@) + at.op('=') + at.seg("perlmod"@) + at.seg(
                "__private__"@,
            ) + at.seg("InParameterDeserialization"@) + at.seg("guard"@) + at.unit() + at.op(';')
                + at.word("match"@) + ident_token(extracted) + at.dot("map"@) + at.paren(
                at.op('|') + at.word("value"@) + at.op('|') + at.seg("perlmod"@) + at.seg(
                    "from_ref_value"@,
                ) + at.paren(at.op('&') + at.word("value"@)),
            ) + at.dot("collect"@) + at.op2(':', ':') + at.op('<') + at.word("Result"@) + at.op('<')
                + ty + at.op(',') + at.word("_"@) + at.op2('>', '>') + at.unit() + at.brace(
                success_or_return(at, "arg"@),
            ),
        ) + at.op(';'),
        Some(ArgumentAttrType::CVPtr(_)) | None => at.word("let"@) + ident_token(deserialized)
            + at.op(':') + ty + at.op('=') + at.word("match"@) + at.seg("perlmod"@) + at.seg(
            "from_ref_value"@,
        ) + at.paren(at.op('&') + ident_token(extracted)) + at.brace(
            success_or_return(at, "data"@),
        ) + at.op(';'),
    }
}

/// Writes the code that turns an extracted argument into what the function takes.
pub fn deserialized_argument_code(
    arg_attr: &ArgumentAttr,
    span: Span,
    arg_type: &Type,
    deserialized_name: &Ident,
    extracted_name: Ident,
) -> (r: TokenStream)
    ensures
        stream_tokens(r) == deserialization(
            arg_attr.attr_type,
            span,
            arg_type.written(),
            deserialized_name@,
            extracted_name@,
        ),
{
    proof {
        lemma_words();
    }
    let mut w = Writer::new(span);
    w.word("let");
    w.ident(deserialized_name);
    match arg_attr.attr_type {
        Some(ArgumentAttrType::Raw) => {
            w.op('=');
            w.ident(&extracted_name);
            w.op(';');
        },
        Some(ArgumentAttrType::TryFromRef) => {
            w.op(':');
            w.splice(arg_type.tokens());
            w.op('=');
            w.word("match");
            w.seg("std");
            w.seg("convert");
            w.seg("TryFrom");
            w.seg("try_from");
            let mut argument = w.inner();
            argument.op('&');
            argument.ident(&extracted_name);
            w.paren(argument);
            let mut arms = w.inner();
            write_success_or_return(&mut arms, "arg");
            w.brace(arms);
            w.op(';');
        },
        Some(ArgumentAttrType::TrailingList(_)) => {
            w.op('=');
            let mut body = w.inner();
            body.word("let");
            body.word("_guard");
            body.op('=');
            body.seg("perlmod");
            body.seg("__private__");
            body.seg("InParameterDeserialization");
            body.seg("guard");
            body.unit();
            body.op(';');
            body.word("match");
            body.ident(&extracted_name);
            body.dot("map");
            let mut argument = w.inner();
            argument.op('&');
            argument.word("value");
            let mut closure = w.inner();
            closure.op('|');
            closure.word("value");
            closure.op('|');
            closure.seg("perlmod");
            closure.seg("from_ref_value");
            closure.paren(argument);
            body.paren(closure);
            body.dot("collect");
            body.op2(':', ':');
            body.op('<');
            body.word("Result");
            body.op('<');
            body.splice(arg_type.tokens());
            body.op(',');
            body.word("_");
            body.op2('>', '>');
            body.unit();
            let mut arms = w.inner();
            write_success_or_return(&mut arms, "arg");
            body.brace(arms);
            w.brace(body);
            w.op(';');
        },
        Some(ArgumentAttrType::CVPtr(_)) | None => {
            w.op(':');
            w.splice(arg_type.tokens());
            w.op('=');
            w.word("match");
            w.seg("perlmod");
            w.seg("from_ref_value");
            let mut argument = w.inner();
            argument.op('&');
            argument.ident(&extracted_name);
            w.paren(argument);
            let mut arms = w.inner();
            write_success_or_return(&mut arms, "data");
            w.brace(arms);
            w.op(';');
        },
    }
    w.finish()
}

/// What is reported of one attribute more depends on what the attributes before it have said:
/// nothing of one that says nothing itself; that it has a value where it is more than a path; that
/// it is repeated where the one that counts has the same name; that the two exclude each other
/// where it has another.
pub proof fn law_reports_of_one_more_attribute(attrs: Seq<Attribute>, attr: Attribute, span: Span)
    ensures
        ({
            let before = complaints(attrs, span);
            let after = complaints(attrs.push(attr), span);
            match ArgumentAttrType::of_attr(attr) {
                None => after == before,
                Some(got) => if !(attr.meta is Path) {
                    after == before.push(
                        ErrorView {
                            at: LocationView::Tokens(stream_tokens(attr.meta_tokens)),
                            kind: ErrorKind::AttributeWithValue,
                        },
                    )
                } else {
                    match chosen(attrs) {
                        None => after == before,
                        Some(first) => after == before.push(
                            ErrorView {
                                at: LocationView::Place(span),
                                kind: if first.text() == got.text() {
                                    ErrorKind::DuplicateAttribute(first)
                                } else {
                                    ErrorKind::ExclusiveAttributes
                                },
                            },
                        ),
                    }
                },
            }
        }),
        complaints(Seq::empty(), span).len() == 0,
{
    assert(attrs.push(attr).drop_last() =~= attrs);
    if let (Some(got), Some(first)) = (ArgumentAttrType::of_attr(attr), chosen(attrs)) {
        law_same_variant_means_same_name(first, got);
    }
    assert(complaints(attrs.push(attr), span) =~= complaints(attrs, span) + (match complaint(
        chosen(attrs),
        attr,
        span,
    ) {
        Some(error) => seq![error],
        None => seq![],
    }));
}

/// Where several attributes say how a parameter is passed, the first that is a path alone counts.
pub proof fn law_first_attribute_counts(attrs: Seq<Attribute>, more: Seq<Attribute>)
    ensures
        chosen(attrs) is Some ==> chosen(attrs + more) == chosen(attrs),
        chosen(attrs) is None ==> chosen(attrs + more) == chosen(more),
    decreases more.len(),
{
    if more.len() == 0 {
        assert(attrs + more =~= attrs);
    } else {
        law_first_attribute_counts(attrs, more.drop_last());
        assert((attrs + more).drop_last() =~= attrs + more.drop_last());
        assert((attrs + more).last() == more.last());
    }
}

/// An attribute says how a parameter is passed exactly where its path is one of four words,
/// whatever follows that path; and it says what the word says.
pub proof fn law_attributes_are_known_by_their_names(attr: Attribute)
    ensures
        ({
            let path = attr.meta_path();
            let found = ArgumentAttrType::of_attr(attr);
            &&& found == Some(ArgumentAttrType::Raw) <==> path.is_word("raw"@)
            &&& found == Some(ArgumentAttrType::TryFromRef) <==> path.is_word("try_from_ref"@)
            &&& found == Some(ArgumentAttrType::CVPtr(path.span)) <==> path.is_word("cv"@)
            &&& found == Some(ArgumentAttrType::TrailingList(path.span)) <==> path.is_word("list"@)
            &&& found is Some ==> path.is_word(found->0.text())
        }),
{
    reveal_strlit("raw");
    reveal_strlit("try_from_ref");
    reveal_strlit("cv");
    reveal_strlit("list");
    assert("raw"@.len() == 3 && "try_from_ref"@.len() == 12 && "cv"@.len() == 2 && "list"@.len()
        == 4);
}

/// The `CV` pointer is taken and converted like a parameter without an attribute, where code for it
/// is asked for; and where it stands does not matter, nor where a list does.
pub proof fn law_places_of_attributes_do_not_matter(
    place: Span,
    other: Span,
    span: Span,
    ty: Seq<Tok>,
    target: IdentView,
    source: IdentView,
    missing: Seq<Tok>,
)
    ensures
        deserialization(Some(ArgumentAttrType::CVPtr(place)), span, ty, target, source)
            == deserialization(None, span, ty, target, source),
        extraction(Some(ArgumentAttrType::CVPtr(place)), span, source, target, missing)
            == extraction(None, span, source, target, missing),
        extraction(Some(ArgumentAttrType::Raw), span, source, target, missing) == extraction(
            None,
            span,
            source,
            target,
            missing,
        ),
        extraction(Some(ArgumentAttrType::TryFromRef), span, source, target, missing)
            == extraction(None, span, source, target, missing),
        deserialization(Some(ArgumentAttrType::TrailingList(place)), span, ty, target, source)
            == deserialization(
            Some(ArgumentAttrType::TrailingList(other)),
            span,
            ty,
            target,
            source,
        ),
        extraction(Some(ArgumentAttrType::TrailingList(place)), span, source, target, missing)
            == extraction(
            Some(ArgumentAttrType::TrailingList(other)),
            span,
            source,
            target,
            missing,
        ),
{
}

} // verus!
