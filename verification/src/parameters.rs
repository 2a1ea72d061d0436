//! The parameter list of an exported function.

use crate::argument::{
    chosen, classify, complaints, deserialization, deserialized_argument_code,
    extract_argument_code, extraction, law_accepted_attributes, law_chosen_attribute,
    law_name_of_attribute_names_it, retained, ArgumentAttr, ArgumentAttrType,
};
use crate::error::{
    error_at_span, error_at_tokens, error_views, Error, ErrorKind, ErrorView, LocationView,
};
use crate::ident::{lemma_prefix_is_injective, spelled, spelling, Ident, IdentView};
use crate::syntax::{Attribute, FnArg, Pat, PatType, Type};
use crate::tokens::{extend, ident_token, lemma_empty_add, stream_tokens, At, Tok, Writer};
use crate::types::{is_option_type, option_type};
use crate::words::lemma_words;
use proc_macro2::{Span, TokenStream};
use vstd::prelude::*;
use vstd::string::StringExecFns;

verus! {

broadcast use lemma_empty_add;

/// How a parameter is passed, as its attributes say.
pub open spec fn attr_type(arg: FnArg) -> Option<ArgumentAttrType> {
    match arg {
        FnArg::Typed(pat_type) => chosen(pat_type.attrs@),
        FnArg::Receiver(_) => None,
    }
}

/// Whether a parameter is the `CV` pointer.
pub open spec fn is_cv(arg: FnArg) -> bool {
    attr_type(arg) matches Some(ArgumentAttrType::CVPtr(_))
}

/// Whether a parameter takes all arguments that are left.
pub open spec fn is_list(arg: FnArg) -> bool {
    attr_type(arg) matches Some(ArgumentAttrType::TrailingList(_))
}

/// Whether there is a `CV` pointer among the parameters.
pub open spec fn has_cv(args: Seq<FnArg>) -> bool {
    exists|i: int| 0 <= i < args.len() && is_cv(#[trigger] args[i])
}

/// Whether there is a list among the parameters.
pub open spec fn has_list(args: Seq<FnArg>) -> bool {
    exists|i: int| 0 <= i < args.len() && is_list(#[trigger] args[i])
}

/// What is wrong with the pattern of a parameter: only a plain name is supported.
pub open spec fn pattern_error(pat: Pat) -> Option<ErrorView> {
    let tokens = stream_tokens(pat.token_stream());
    match pat {
        Pat::Ident(ident) => if ident.by_ref {
            Some(error_at_tokens(tokens, ErrorKind::ByRefParameter))
        } else if ident.subpat {
            Some(error_at_tokens(tokens, ErrorKind::SubPattern))
        } else {
            None
        },
        Pat::Other(_) => Some(error_at_tokens(tokens, ErrorKind::UnsupportedPattern)),
    }
}

/// What is wrong with a parameter that follows those in `before`.
pub open spec fn arg_error(before: Seq<FnArg>, arg: FnArg) -> Option<ErrorView> {
    match arg {
        FnArg::Receiver(tokens) => Some(
            error_at_tokens(stream_tokens(tokens), ErrorKind::SelfParameter),
        ),
        FnArg::Typed(p) => if complaints(p.attrs@, p.span).len() > 0 {
            Some(error_at_span(p.span, ErrorKind::UndeterminedAttribute))
        } else {
            match (chosen(p.attrs@), pattern_error(p.pat)) {
                (Some(ArgumentAttrType::TrailingList(span)), _) if has_list(before) => Some(
                    error_at_span(span, ErrorKind::SecondList),
                ),
                (_, Some(error)) => Some(error),
                (Some(ArgumentAttrType::CVPtr(span)), _) if has_cv(before) => Some(
                    error_at_span(span, ErrorKind::SecondCv),
                ),
                _ => None,
            }
        },
    }
}

/// What is wrong with the first parameter that anything is wrong with.
pub open spec fn first_arg_error(args: Seq<FnArg>) -> Option<ErrorView>
    decreases args.len(),
{
    if args.len() == 0 {
        None
    } else {
        match first_arg_error(args.drop_last()) {
            Some(error) => Some(error),
            None => arg_error(args.drop_last(), args.last()),
        }
    }
}

/// What is reported of the attributes of the first parameter that anything is wrong with.
pub open spec fn arg_reports(args: Seq<FnArg>) -> Seq<ErrorView>
    decreases args.len(),
{
    if args.len() == 0 {
        seq![]
    } else if first_arg_error(args.drop_last()) is Some {
        arg_reports(args.drop_last())
    } else {
        match args.last() {
            FnArg::Typed(p) => complaints(p.attrs@, p.span),
            FnArg::Receiver(_) => seq![],
        }
    }
}

/// The typed form of a parameter.
pub open spec fn typed(arg: FnArg) -> PatType {
    arg->Typed_0
}

/// The name of a parameter.
pub open spec fn arg_name(arg: FnArg) -> IdentView {
    typed(arg).pat->Ident_0.ident@
}

/// The name of the variable that holds an argument as Perl has passed it.
pub open spec fn extracted_name(arg: FnArg) -> IdentView {
    arg_name(arg).prefixed("extracted_arg_"@)
}

/// The name of the variable that holds an argument as the function takes it.
pub open spec fn deserialized_name(arg: FnArg) -> IdentView {
    arg_name(arg).prefixed("deserialized_arg_"@)
}

/// Whether a parameter is an `Option`, which may be left out.
pub open spec fn is_optional(arg: FnArg) -> bool {
    option_type(typed(arg).ty) is Some
}

/// What Perl is told where it has not passed an argument.
pub open spec fn missing_message(name: IdentView) -> Seq<char> {
    "missing required parameter: '"@ + name.text() + "'\n"@
}

/// What stands for an argument that Perl has not passed: `undef` for an `Option`, nothing for a
/// list, and for all others
///
/// ```text
/// {
///     return Err(::perlmod::Value::new_string("missing ..").into_mortal().into_raw());
/// }
/// ```
pub open spec fn none_handling(
    attr_type: Option<ArgumentAttrType>,
    ty: Type,
    name: IdentView,
    span: Span,
) -> Seq<Tok> {
    let at = At { span };
    if option_type(ty) is Some {
        at.seg("perlmod"@) + at.seg("Value"@) + at.seg("new_undef"@) + at.unit() + at.op(',')
    } else if attr_type matches Some(ArgumentAttrType::TrailingList(_)) {
        seq![]
    } else {
        at.brace(
            at.word("return"@) + at.raised(
                (At { span: name.span }).string(missing_message(name)),
            ) + at.op(';'),
        )
    }
}

/// The code that takes the arguments off what Perl has passed, in the order of the parameters. The
/// `CV` pointer is none of them.
pub open spec fn extractions(args: Seq<FnArg>, span: Span, arguments: IdentView) -> Seq<Tok>
    decreases args.len(),
{
    if args.len() == 0 {
        seq![]
    } else {
        extractions(args.drop_last(), span, arguments) + (if is_cv(args.last()) {
            seq![]
        } else {
            extraction(
                attr_type(args.last()),
                span,
                arguments,
                extracted_name(args.last()),
                none_handling(
                    attr_type(args.last()),
                    typed(args.last()).ty,
                    arg_name(args.last()),
                    span,
                ),
            )
        })
    }
}

/// The code that turns the arguments into what the function takes, in the order of the parameters.
/// The `CV` pointer is none of them.
pub open spec fn deserializations(args: Seq<FnArg>, span: Span) -> Seq<Tok>
    decreases args.len(),
{
    if args.len() == 0 {
        seq![]
    } else {
        deserializations(args.drop_last(), span) + (if is_cv(args.last()) {
            seq![]
        } else {
            deserialization(
                attr_type(args.last()),
                span,
                typed(args.last()).ty.written(),
                deserialized_name(args.last()),
                extracted_name(args.last()),
            )
        })
    }
}

/// What is passed to the function for a parameter.
pub open spec fn passed_name(arg: FnArg) -> IdentView {
    if is_cv(arg) {
        arg_name(arg)
    } else {
        deserialized_name(arg)
    }
}

/// What is passed to the function: a name for each parameter, with commas in between.
pub open spec fn passed(args: Seq<FnArg>, span: Span) -> Seq<Tok>
    decreases args.len(),
{
    if args.len() == 0 {
        seq![]
    } else if args.len() == 1 {
        ident_token(passed_name(args[0]))
    } else {
        passed(args.drop_last(), span) + ((At { span }).op(',') + ident_token(
            passed_name(args.last()),
        ))
    }
}

/// The parameter `name: Type` for the `CV` pointer, where there is one.
pub open spec fn cv_parameter(args: Seq<FnArg>, span: Span) -> Seq<Tok>
    decreases args.len(),
{
    if args.len() == 0 {
        seq![]
    } else if is_cv(args.last()) {
        ident_token(arg_name(args.last())) + (At { span }).op(':') + typed(args.last()).ty.written()
    } else {
        cv_parameter(args.drop_last(), span)
    }
}

/// How many parameters may be left out at the end: the `Option`s behind the last one that has to be
/// given. The `CV` pointer and a list do not have to be given.
pub open spec fn trailing_options(args: Seq<FnArg>) -> nat
    decreases args.len(),
{
    if args.len() == 0 {
        0
    } else {
        let before = trailing_options(args.drop_last());
        if is_cv(args.last()) {
            before
        } else if is_optional(args.last()) {
            before + 1
        } else if is_list(args.last()) {
            before
        } else {
            0
        }
    }
}

/// The parameters as they are written, without the attributes that say how they are passed.
pub open spec fn inputs_written(args: Seq<FnArg>) -> Seq<Tok>
    decreases args.len(),
{
    if args.len() == 0 {
        seq![]
    } else {
        inputs_written(args.drop_last()) + typed(args.last()).written_with(
            retained(typed(args.last()).attrs@),
        )
    }
}

/// Whether the names of the variables for the arguments can be made up. A raw name cannot be put
/// behind a prefix; parameters behind one that anything is wrong with do not matter.
pub open spec fn inputs_nameable(args: Seq<FnArg>) -> bool {
    forall|i: int|
        0 <= i < args.len() && first_arg_error(args.take(i + 1)) is None && !is_cv(
            #[trigger] args[i],
        ) ==> !arg_name(args[i]).raw
}

/// What a wrong parameter is reported for does not depend on what follows it.
pub(crate) proof fn lemma_error_is_final(args: Seq<FnArg>, n: int)
    requires
        0 <= n <= args.len(),
        first_arg_error(args.take(n)) is Some,
    ensures
        first_arg_error(args) == first_arg_error(args.take(n)),
        arg_reports(args) == arg_reports(args.take(n)),
    decreases args.len(),
{
    if n == args.len() {
        assert(args.take(n) =~= args);
    } else {
        assert(args.drop_last().take(n) =~= args.take(n));
        lemma_error_is_final(args.drop_last(), n);
    }
}

/// The parameters of an exported function, as they are written into the expansion.
pub struct Parameters {
    pub count: usize,
    pub trailing_options: usize,
    pub extract_arguments: TokenStream,
    pub deserialized_arguments: TokenStream,
    pub passed_arguments: TokenStream,
    pub cv_arg_param: TokenStream,
    pub had_list_param: bool,
    /// The parameters without the attributes that say how they are passed.
    pub written: TokenStream,
}

impl Parameters {
    /// Whether these are the parameters `args`.
    pub open spec fn of(self, args: Seq<FnArg>, span: Span, arguments: IdentView) -> bool {
        &&& self.count == args.len()
        &&& self.trailing_options == trailing_options(args)
        &&& stream_tokens(self.extract_arguments) == extractions(args, span, arguments)
        &&& stream_tokens(self.deserialized_arguments) == deserializations(args, span)
        &&& stream_tokens(self.passed_arguments) == passed(args, span)
        &&& stream_tokens(self.cv_arg_param) == cv_parameter(args, span)
        &&& self.had_list_param == has_list(args)
        &&& stream_tokens(self.written) == inputs_written(args)
    }
}

proof fn lemma_passed_is_empty(args: Seq<FnArg>, span: Span)
    ensures
        passed(args, span).len() == 0 <==> args.len() == 0,
{
}

/// There is a parameter for the `CV` pointer exactly where there is such a pointer.
pub(crate) proof fn lemma_cv_parameter_is_empty(args: Seq<FnArg>, span: Span)
    ensures
        cv_parameter(args, span).len() == 0 <==> !has_cv(args),
    decreases args.len(),
{
    if args.len() > 0 {
        lemma_cv_parameter_is_empty(args.drop_last(), span);
        lemma_has_cv_step(args);
    }
}

proof fn lemma_has_list_step(args: Seq<FnArg>)
    requires
        args.len() > 0,
    ensures
        has_list(args) == (has_list(args.drop_last()) || is_list(args.last())),
{
    if is_list(args.last()) {
        assert(is_list(args[args.len() - 1]));
    }
    if has_list(args.drop_last()) {
        let i = choose|i: int|
            0 <= i < args.drop_last().len() && is_list(#[trigger] args.drop_last()[i]);
        assert(is_list(args[i]));
    }
    if has_list(args) && !is_list(args.last()) {
        let i = choose|i: int| 0 <= i < args.len() && is_list(#[trigger] args[i]);
        assert(is_list(args.drop_last()[i]));
    }
}

/// Writes what stands for an argument that Perl has not passed.
fn none_handling_code(arg_attr: &ArgumentAttr, name: &Ident, span: Span) -> (r: TokenStream)
    ensures
        stream_tokens(r) == none_handling(
            arg_attr.attr_type,
            arg_attr.pat_type.ty,
            name@,
            span,
        ),
{
    proof {
        lemma_words();
    }
    let mut w = Writer::new(span);
    if is_option_type(&arg_attr.pat_type.ty).is_some() {
        w.seg("perlmod");
        w.seg("Value");
        w.seg("new_undef");
        w.unit();
        w.op(',');
    } else if let Some(ArgumentAttrType::TrailingList(_)) = arg_attr.attr_type {
        // A list is never missing.
    } else {
        let mut message = "missing required parameter: '".to_owned();
        message.append(name.text().as_str());
        message.append("'\n");
        let mut text = w.inner();
        text.string_at(message.as_str(), name.span());
        let mut body = w.inner();
        body.word("return");
        body.raised(text);
        body.op(';');
        w.brace(body);
    }
    w.finish()
}

/// Finds out the name of a parameter.
fn plain_name(pat: &Pat) -> (r: Result<&Ident, Error>)
    ensures
        match pattern_error(*pat) {
            Some(error) => r is Err && r->Err_0@ == error,
            None => r is Ok && *pat is Ident && *(r->Ok_0) == pat->Ident_0.ident,
        },
{
    match pat {
        Pat::Ident(ident) => {
            if ident.by_ref {
                return Err(Error::new_spanned(&ident.tokens, ErrorKind::ByRefParameter));
            }
            if ident.subpat {
                return Err(Error::new_spanned(&ident.tokens, ErrorKind::SubPattern));
            }
            Ok(&ident.ident)
        },
        Pat::Other(tokens) => Err(Error::new_spanned(tokens, ErrorKind::UnsupportedPattern)),
    }
}

impl Parameters {
    fn new() -> (r: Parameters)
        ensures
            forall|span: Span, arguments: IdentView|
                r.of(Seq::empty(), span, arguments),
    {
        Parameters {
            count: 0,
            trailing_options: 0,
            extract_arguments: TokenStream::new(),
            deserialized_arguments: TokenStream::new(),
            passed_arguments: TokenStream::new(),
            cv_arg_param: TokenStream::new(),
            had_list_param: false,
            written: TokenStream::new(),
        }
    }

    /// Adds a parameter behind those in `before`.
    fn push(
        &mut self,
        Ghost(before): Ghost<Seq<FnArg>>,
        arg: FnArg,
        span: Span,
        arguments_name: &Ident,
        errors: &mut Vec<Error>,
    ) -> (r: Result<(), Error>)
        requires
            old(self).of(before, span, arguments_name@),
            before.len() < usize::MAX,
            arg_error(before, arg) is None && !is_cv(arg) ==> !arg_name(arg).raw,
        ensures
            error_views(final(errors)@) == error_views(old(errors)@) + (match arg {
                FnArg::Typed(p) => complaints(p.attrs@, p.span),
                FnArg::Receiver(_) => seq![],
            }),
            final(errors)@.take(old(errors)@.len() as int) == old(errors)@,
            match arg_error(before, arg) {
                Some(error) => r is Err && r->Err_0@ == error,
                None => {
                    &&& r is Ok
                    &&& final(self).of(before.push(arg), span, arguments_name@)
                },
            },
    {
        let ghost all = before.push(arg);
        proof {
            lemma_words();
            assert(all.drop_last() =~= before);
            lemma_cv_parameter_is_empty(before, span);
            lemma_has_list_step(all);
            law_trailing_options_bound(before);
        }
        let mut arg = arg;
        let arg_attr = match ArgumentAttr::new_from_fn_arg(&mut arg, errors) {
            Ok(arg_attr) => arg_attr,
            Err(error) => return Err(error),
        };

        let list_param = matches!(arg_attr.attr_type, Some(ArgumentAttrType::TrailingList(_)));
        if let Some(ArgumentAttrType::TrailingList(list_span)) = arg_attr.attr_type {
            if self.had_list_param {
                return Err(Error::new(list_span, ErrorKind::SecondList));
            }
        }
        let arg_name = match plain_name(&arg_attr.pat_type.pat) {
            Ok(arg_name) => arg_name,
            Err(error) => return Err(error),
        };
        if let Some(ArgumentAttrType::CVPtr(cv_span)) = arg_attr.attr_type {
            if !self.cv_arg_param.is_empty() {
                return Err(Error::new(cv_span, ErrorKind::SecondCv));
            }
            let mut w = Writer::new(span);
            w.ident(arg_name);
            w.op(':');
            w.splice(arg_attr.pat_type.ty.tokens());
            self.cv_arg_param = w.finish();
            self.pass(Ghost(before), arg_name, span);
        } else {
            let extracted_name = arg_name.prefixed("extracted_arg_");
            let deserialized_name = arg_name.prefixed("deserialized_arg_");
            let none_handling = none_handling_code(&arg_attr, arg_name, span);
            if is_option_type(&arg_attr.pat_type.ty).is_some() {
                self.trailing_options += 1;
            } else if !list_param {
                // Only the trailing options count.
                self.trailing_options = 0;
            }
            extend(
                &mut self.extract_arguments,
                extract_argument_code(
                    &arg_attr,
                    span,
                    arguments_name,
                    &extracted_name,
                    none_handling,
                ),
            );
            extend(
                &mut self.deserialized_arguments,
                deserialized_argument_code(
                    &arg_attr,
                    span,
                    &arg_attr.pat_type.ty,
                    &deserialized_name,
                    extracted_name,
                ),
            );
            self.pass(Ghost(before), &deserialized_name, span);
        }
        self.had_list_param = self.had_list_param || list_param;
        arg_attr.pat_type.write(&mut self.written);
        self.count += 1;
        Ok(())
    }

    /// Goes through the parameters of a function. What is wrong with attributes of theirs is
    /// reported in `errors`.
    pub fn from_inputs(
        inputs: Vec<FnArg>,
        span: Span,
        arguments_name: &Ident,
        errors: &mut Vec<Error>,
    ) -> (r: Result<Parameters, Error>)
        requires
            inputs_nameable(inputs@),
        ensures
            error_views(final(errors)@) == error_views(old(errors)@) + arg_reports(inputs@),
            final(errors)@.take(old(errors)@.len() as int) == old(errors)@,
            match first_arg_error(inputs@) {
                Some(error) => r is Err && r->Err_0@ == error,
                None => r is Ok && r->Ok_0.of(inputs@, span, arguments_name@),
            },
    {
        let ghost all = inputs@;
        let ghost count = inputs.len();
        let mut parameters = Parameters::new();
        assert(all.take(0) =~= Seq::<FnArg>::empty());
        for arg in it: inputs
            invariant
                it.seq() == all,
                all.len() == count,
                inputs_nameable(all),
                parameters.of(all.take(it.index()), span, arguments_name@),
                first_arg_error(all.take(it.index())) is None,
                arg_reports(all.take(it.index())).len() == 0,
                error_views(errors@) == error_views(old(errors)@),
                errors@.take(old(errors)@.len() as int) == old(errors)@,
        {
            let ghost i = it.index() as int;
            let ghost before = all.take(i);
            proof {
                assert(all.take(i + 1) =~= before.push(arg));
                assert(before.push(arg).drop_last() =~= before);
                assert(all[i] == arg);
            }
            let pushed = parameters.push(Ghost(before), arg, span, arguments_name, errors);
            if let Err(error) = pushed {
                proof {
                    lemma_error_is_final(all, i + 1);
                }
                return Err(error);
            }
        }
        assert(all.take(all.len() as int) =~= all);
        Ok(parameters)
    }

    /// Passes a variable to the function.
    fn pass(&mut self, Ghost(before): Ghost<Seq<FnArg>>, name: &Ident, span: Span)
        requires
            stream_tokens(old(self).passed_arguments) == passed(before, span),
        ensures
            forall|arg: FnArg|
                passed_name(arg) == name@ ==> stream_tokens(final(self).passed_arguments)
                    == #[trigger] passed(before.push(arg), span),
            *final(self) == (Parameters {
                passed_arguments: final(self).passed_arguments,
                ..*old(self)
            }),
    {
        proof {
            lemma_passed_is_empty(before, span);
            assert forall|arg: FnArg| #[trigger] before.push(arg).drop_last() == before by {
                assert(before.push(arg).drop_last() =~= before);
            }
        }
        let mut w = Writer::new(span);
        if !self.passed_arguments.is_empty() {
            w.op(',');
        }
        w.ident(name);
        extend(&mut self.passed_arguments, w.finish());
    }
}

/// What can be said of the parameters of a function without expanding them.
pub(crate) struct Survey {
    /// Whether the names of the variables for the arguments can be made up.
    pub(crate) nameable: bool,
    /// How many parameters may be left out at the end, and whether there is a list, where nothing
    /// is wrong with the parameters.
    pub(crate) counts: Option<(usize, bool)>,
}

/// Looks through the parameters of a function.
pub(crate) fn survey(inputs: &Vec<FnArg>) -> (r: Survey)
    ensures
        r.nameable == inputs_nameable(inputs@),
        match r.counts {
            Some((options, list)) => {
                &&& first_arg_error(inputs@) is None
                &&& options == trailing_options(inputs@)
                &&& list == has_list(inputs@)
            },
            None => first_arg_error(inputs@) is Some,
        },
{
    let ghost all = inputs@;
    let mut options: usize = 0;
    let mut had_list = false;
    let mut had_cv = false;
    let mut nameable = true;
    let mut i: usize = 0;
    while i < inputs.len()
        invariant
            i <= inputs@.len(),
            all == inputs@,
            options <= i,
            first_arg_error(all.take(i as int)) is None,
            options == trailing_options(all.take(i as int)),
            had_list == has_list(all.take(i as int)),
            had_cv == has_cv(all.take(i as int)),
            nameable == inputs_nameable(all.take(i as int)),
        decreases inputs@.len() - i,
    {
        let ghost next = all.take(i + 1);
        proof {
            assert(next.drop_last() =~= all.take(i as int));
            assert(next.last() == all[i as int]);
            lemma_has_list_step(next);
            lemma_has_cv_step(next);
            lemma_nameable_step(next);
        }
        let wrong = match &inputs[i] {
            FnArg::Receiver(_) => true,
            FnArg::Typed(p) => {
                let (attr_type, has_err) = classify(&p.attrs, p.span);
                let (cv, list) = match attr_type {
                    Some(ArgumentAttrType::CVPtr(_)) => (true, false),
                    Some(ArgumentAttrType::TrailingList(_)) => (false, true),
                    _ => (false, false),
                };
                match plain_name(&p.pat) {
                    Ok(name) if !has_err && !(list && had_list) && !(cv && had_cv) => {
                        if cv {
                            had_cv = true;
                        } else {
                            if name.is_raw() {
                                nameable = false;
                            }
                            if is_option_type(&p.ty).is_some() {
                                options += 1;
                            } else if !list {
                                options = 0;
                            }
                        }
                        if list {
                            had_list = true;
                        }
                        false
                    },
                    _ => true,
                }
            },
        };
        if wrong {
            proof {
                lemma_error_is_final(all, i + 1);
                lemma_nameable_is_final(all, i as int);
            }
            return Survey { nameable, counts: None };
        }
        i += 1;
    }
    assert(all.take(i as int) =~= all);
    Survey { nameable, counts: Some((options, had_list)) }
}

pub(crate) proof fn lemma_has_cv_step(args: Seq<FnArg>)
    requires
        args.len() > 0,
    ensures
        has_cv(args) == (has_cv(args.drop_last()) || is_cv(args.last())),
{
    if is_cv(args.last()) {
        assert(is_cv(args[args.len() - 1]));
    }
    if has_cv(args.drop_last()) {
        let i = choose|i: int|
            0 <= i < args.drop_last().len() && is_cv(#[trigger] args.drop_last()[i]);
        assert(is_cv(args[i]));
    }
    if has_cv(args) && !is_cv(args.last()) {
        let i = choose|i: int| 0 <= i < args.len() && is_cv(#[trigger] args[i]);
        assert(is_cv(args.drop_last()[i]));
    }
}

proof fn lemma_nameable_step(args: Seq<FnArg>)
    requires
        args.len() > 0,
    ensures
        inputs_nameable(args) == (inputs_nameable(args.drop_last()) && (first_arg_error(
            args,
        ) is None && !is_cv(args.last()) ==> !arg_name(args.last()).raw)),
{
    let before = args.drop_last();
    assert(args.take(args.len() as int) =~= args);
    assert forall|i: int| 0 <= i < before.len() implies #[trigger] before.take(i + 1) == args.take(
        i + 1,
    ) by {
        assert(before.take(i + 1) =~= args.take(i + 1));
    }
    if inputs_nameable(args) {
        assert forall|i: int|
            0 <= i < before.len() && first_arg_error(before.take(i + 1)) is None && !is_cv(
                #[trigger] before[i],
            ) implies !arg_name(before[i]).raw by {
            assert(before.take(i + 1) == args.take(i + 1));
            assert(!is_cv(args[i]));
        }
        assert(args[args.len() - 1] == args.last());
    }
    if inputs_nameable(before) && (first_arg_error(args) is None && !is_cv(args.last())
        ==> !arg_name(args.last()).raw) {
        assert forall|i: int|
            0 <= i < args.len() && first_arg_error(args.take(i + 1)) is None && !is_cv(
                #[trigger] args[i],
            ) implies !arg_name(args[i]).raw by {
            if i < before.len() {
                assert(before.take(i + 1) == args.take(i + 1));
                assert(!is_cv(before[i]));
            }
        }
    }
}

proof fn lemma_nameable_is_final(args: Seq<FnArg>, n: int)
    requires
        0 <= n < args.len(),
        first_arg_error(args.take(n + 1)) is Some,
    ensures
        inputs_nameable(args) == inputs_nameable(args.take(n)),
    decreases args.len(),
{
    lemma_nameable_step(args);
    if n + 1 == args.len() {
        assert(args.take(n + 1) =~= args);
        assert(args.drop_last() =~= args.take(n));
    } else {
        assert(args.drop_last().take(n + 1) =~= args.take(n + 1));
        assert(args.drop_last().take(n) =~= args.take(n));
        lemma_error_is_final(args, n + 1);
        lemma_nameable_is_final(args.drop_last(), n);
    }
}

/// Every parameter is passed to the function, in the order in which the parameters are declared:
/// names and commas take turns.
pub proof fn law_parameters_are_passed_in_order(args: Seq<FnArg>, span: Span, i: int)
    requires
        0 <= i < args.len(),
    ensures
        passed(args, span).len() == 2 * args.len() - 1,
        passed(args, span)[2 * i] == Tok::Ident(passed_name(args[i])),
        i + 1 < args.len() ==> (At { span }).op(',') == seq![passed(args, span)[2 * i + 1]],
    decreases args.len(),
{
    if args.len() > 1 {
        let rest = args.drop_last();
        if i < rest.len() {
            law_parameters_are_passed_in_order(rest, span, i);
        } else {
            law_parameters_are_passed_in_order(rest, span, 0);
        }
        assert(rest.len() == args.len() - 1);
        assert(passed(args, span).len() == passed(rest, span).len() + 2);
    }
}

/// Parameters that nothing is wrong with all have a type and a plain name, and there is at most one
/// list and at most one `CV` pointer among them.
pub proof fn law_accepted_parameters(args: Seq<FnArg>)
    requires
        first_arg_error(args) is None,
    ensures
        forall|i: int|
            0 <= i < args.len() ==> {
                &&& (#[trigger] args[i]) is Typed
                &&& complaints(typed(args[i]).attrs@, typed(args[i]).span).len() == 0
                &&& pattern_error(typed(args[i]).pat) is None
            },
        forall|i: int, j: int|
            0 <= i < j < args.len() ==> !(is_list(#[trigger] args[i]) && is_list(
                #[trigger] args[j],
            )),
        forall|i: int, j: int|
            0 <= i < j < args.len() ==> !(is_cv(#[trigger] args[i]) && is_cv(#[trigger] args[j])),
    decreases args.len(),
{
    if args.len() > 0 {
        let rest = args.drop_last();
        law_accepted_parameters(rest);
        assert(forall|i: int|
            #![trigger rest[i]]
            #![trigger args[i]]
            0 <= i < rest.len() ==> rest[i] == args[i]);
        assert(args[args.len() - 1] == args.last());
    }
}

/// Nothing is reported of the attributes of parameters that nothing is wrong with.
pub proof fn law_accepted_parameters_are_not_reported(args: Seq<FnArg>)
    requires
        first_arg_error(args) is None,
    ensures
        arg_reports(args).len() == 0,
{
}

/// Whether a parameter has to be given.
pub open spec fn is_required(arg: FnArg) -> bool {
    !is_cv(arg) && !is_optional(arg) && !is_list(arg)
}

/// The parameters that may be left out at the end are the `Option`s behind the last parameter that
/// has to be given: where that one stands right before `first`, those from `first` on.
pub proof fn law_trailing_options(args: Seq<FnArg>, first: int)
    requires
        0 <= first <= args.len(),
        first > 0 ==> is_required(args[first - 1]),
        forall|i: int| first <= i < args.len() ==> !is_required(#[trigger] args[i]),
    ensures
        trailing_options(args) == args.skip(first).filter(
            |arg: FnArg| is_optional(arg) && !is_cv(arg),
        ).len(),
    decreases args.len(),
{
    let pred = |arg: FnArg| is_optional(arg) && !is_cv(arg);
    reveal(Seq::filter);
    if first == args.len() {
        assert(args.skip(first) =~= Seq::empty());
    } else {
        let rest = args.drop_last();
        assert(forall|i: int|
            #![trigger rest[i]]
            #![trigger args[i]]
            0 <= i < rest.len() ==> rest[i] == args[i]);
        law_trailing_options(rest, first);
        assert(args.skip(first).drop_last() =~= rest.skip(first));
        assert(args.skip(first).last() == args.last());
        assert(!is_required(args[args.len() - 1]));
    }
}

/// No more parameters may be left out than there are.
pub proof fn law_trailing_options_bound(args: Seq<FnArg>)
    ensures
        trailing_options(args) <= args.len(),
    decreases args.len(),
{
    if args.len() > 0 {
        law_trailing_options_bound(args.drop_last());
    }
}

/// Whether `let name` occurs in code.
pub open spec fn binds(code: Seq<Tok>, span: Span, name: IdentView) -> bool {
    exists|i: int|
        0 <= i && i + 1 < code.len() && (At { span }).word("let"@) == seq![#[trigger] code[i]]
            && code[i + 1] == Tok::Ident(name)
}

proof fn lemma_binds_in_concatenation(a: Seq<Tok>, b: Seq<Tok>, span: Span, name: IdentView)
    ensures
        binds(a, span, name) ==> binds(a + b, span, name),
        binds(b, span, name) ==> binds(a + b, span, name),
{
    if binds(a, span, name) {
        let i = choose|i: int|
            0 <= i && i + 1 < a.len() && (At { span }).word("let"@) == seq![#[trigger] a[i]]
                && a[i + 1] == Tok::Ident(name);
        assert((a + b)[i] == a[i]);
        assert((a + b)[i + 1] == a[i + 1]);
    }
    if binds(b, span, name) {
        let i = choose|i: int|
            0 <= i && i + 1 < b.len() && (At { span }).word("let"@) == seq![#[trigger] b[i]]
                && b[i + 1] == Tok::Ident(name);
        assert((a + b)[a.len() + i] == b[i]);
        assert((a + b)[a.len() + i + 1] == b[i + 1]);
    }
}

/// Every variable that is passed to the function, other than the `CV` pointer, is bound by the code
/// before the call; and so is the variable that it is made from.
pub proof fn law_passed_variables_are_bound(
    args: Seq<FnArg>,
    span: Span,
    arguments: IdentView,
    i: int,
)
    requires
        0 <= i < args.len(),
        !is_cv(args[i]),
    ensures
        binds(deserializations(args, span), span, passed_name(args[i])),
        binds(extractions(args, span, arguments), span, extracted_name(args[i])),
    decreases args.len(),
{
    let rest = args.drop_last();
    let last = args.last();
    let extract = extraction(
        attr_type(last),
        span,
        arguments,
        extracted_name(last),
        none_handling(attr_type(last), typed(last).ty, arg_name(last), span),
    );
    let deserialize = deserialization(
        attr_type(last),
        span,
        typed(last).ty.written(),
        deserialized_name(last),
        extracted_name(last),
    );
    if i < rest.len() {
        law_passed_variables_are_bound(rest, span, arguments, i);
    } else {
        lemma_extraction_binds(
            attr_type(last),
            span,
            arguments,
            extracted_name(last),
            none_handling(attr_type(last), typed(last).ty, arg_name(last), span),
        );
        lemma_deserialization_binds(
            attr_type(last),
            span,
            typed(last).ty.written(),
            deserialized_name(last),
            extracted_name(last),
        );
    }
    lemma_binds_in_concatenation(
        extractions(rest, span, arguments),
        if is_cv(last) {
            seq![]
        } else {
            extract
        },
        span,
        extracted_name(args[i]),
    );
    lemma_binds_in_concatenation(
        deserializations(rest, span),
        if is_cv(last) {
            seq![]
        } else {
            deserialize
        },
        span,
        passed_name(args[i]),
    );
}

proof fn lemma_extraction_binds(
    attr_type: Option<ArgumentAttrType>,
    span: Span,
    arguments: IdentView,
    extracted: IdentView,
    none_handling: Seq<Tok>,
)
    ensures
        binds(extraction(attr_type, span, arguments, extracted, none_handling), span, extracted),
{
    let code = extraction(attr_type, span, arguments, extracted, none_handling);
    assert((At { span }).word("let"@) =~= seq![code[0]]);
    assert(code[1] == Tok::Ident(extracted));
}

proof fn lemma_deserialization_binds(
    attr_type: Option<ArgumentAttrType>,
    span: Span,
    ty: Seq<Tok>,
    deserialized: IdentView,
    extracted: IdentView,
)
    ensures
        binds(deserialization(attr_type, span, ty, deserialized, extracted), span, deserialized),
{
    let code = deserialization(attr_type, span, ty, deserialized, extracted);
    assert((At { span }).word("let"@) =~= seq![code[0]]);
    assert(code[1] == Tok::Ident(deserialized));
}

/// The variables of parameters with different names are made of different texts, and no variable
/// that holds an argument as it was passed is made of the text of one that holds it as the function
/// takes it. The variables differ too wherever they are spelled like those texts, as all names
/// within ASCII are.
pub proof fn law_variables_are_distinct(a: FnArg, b: FnArg)
    ensures
        ({
            let x = "extracted_arg_"@ + arg_name(a).name;
            let y = "extracted_arg_"@ + arg_name(b).name;
            arg_name(a).name != arg_name(b).name ==> {
                &&& x != y
                &&& spelled(x, arg_name(a).span) && spelled(y, arg_name(b).span)
                    ==> extracted_name(a).name != extracted_name(b).name
            }
        }),
        ({
            let x = "deserialized_arg_"@ + arg_name(a).name;
            let y = "deserialized_arg_"@ + arg_name(b).name;
            arg_name(a).name != arg_name(b).name ==> {
                &&& x != y
                &&& spelled(x, arg_name(a).span) && spelled(y, arg_name(b).span)
                    ==> deserialized_name(a).name != deserialized_name(b).name
            }
        }),
        ({
            let x = "extracted_arg_"@ + arg_name(a).name;
            let y = "deserialized_arg_"@ + arg_name(b).name;
            &&& x != y
            &&& spelled(x, arg_name(a).span) && spelled(y, arg_name(b).span)
                ==> extracted_name(a).name != deserialized_name(b).name
        }),
{
    let x = arg_name(a).name;
    let y = arg_name(b).name;
    lemma_prefix_is_injective("extracted_arg_"@, x, y);
    lemma_prefix_is_injective("deserialized_arg_"@, x, y);
    reveal_strlit("extracted_arg_");
    reveal_strlit("deserialized_arg_");
    assert(("extracted_arg_"@ + x)[0] == 'e');
    assert(("deserialized_arg_"@ + y)[0] == 'd');
}

/// Parameters are treated one by one, in their order: the code for the parameters of two lists, one
/// behind the other, is the code for the first list and then that for the second.
pub proof fn law_parameters_are_treated_one_by_one(
    a: Seq<FnArg>,
    b: Seq<FnArg>,
    span: Span,
    arguments: IdentView,
)
    ensures
        extractions(a + b, span, arguments) == extractions(a, span, arguments) + extractions(
            b,
            span,
            arguments,
        ),
        deserializations(a + b, span) == deserializations(a, span) + deserializations(b, span),
        inputs_written(a + b) == inputs_written(a) + inputs_written(b),
    decreases b.len(),
{
    if b.len() == 0 {
        assert(a + b =~= a);
        assert(extractions(a, span, arguments) =~= extractions(a, span, arguments) + extractions(
            b,
            span,
            arguments,
        ));
        assert(deserializations(a, span) =~= deserializations(a, span) + deserializations(b, span));
        assert(inputs_written(a) =~= inputs_written(a) + inputs_written(b));
    } else {
        law_parameters_are_treated_one_by_one(a, b.drop_last(), span, arguments);
        assert((a + b).drop_last() =~= a + b.drop_last());
        assert((a + b).last() == b.last());
        assert(extractions(a + b, span, arguments) =~= extractions(a, span, arguments)
            + extractions(b, span, arguments));
        assert(deserializations(a + b, span) =~= deserializations(a, span) + deserializations(
            b,
            span,
        ));
        assert(inputs_written(a + b) =~= inputs_written(a) + inputs_written(b));
    }
}

/// Whether a parameter is marked `#[word]`, with or without anything behind the word.
pub open spec fn marked(arg: FnArg, word: Seq<char>) -> bool {
    exists|j: int|
        0 <= j < typed(arg).attrs@.len() && (#[trigger] typed(arg).attrs@[j]).meta_path().is_word(
            word,
        )
}

/// Whether nothing is wrong with the attributes of a parameter.
pub open spec fn well_marked(arg: FnArg) -> bool {
    arg is Typed && complaints(typed(arg).attrs@, typed(arg).span).len() == 0
}

proof fn lemma_mark_is_chosen(arg: FnArg, mark: ArgumentAttrType)
    requires
        well_marked(arg),
        marked(arg, mark.text()),
    ensures
        attr_type(arg) is Some,
        attr_type(arg)->0.same_variant(mark),
{
    let attrs = typed(arg).attrs@;
    let j = choose|j: int|
        0 <= j < attrs.len() && (#[trigger] attrs[j]).meta_path().is_word(mark.text());
    law_name_of_attribute_names_it(mark, attrs[j].meta_path());
    law_chosen_attribute(attrs, typed(arg).span, j);
}

proof fn lemma_nothing_is_chosen(arg: FnArg)
    requires
        well_marked(arg),
        !marked(arg, "raw"@),
        !marked(arg, "try_from_ref"@),
        !marked(arg, "cv"@),
        !marked(arg, "list"@),
    ensures
        attr_type(arg) is None,
{
    law_accepted_attributes(typed(arg).attrs@, typed(arg).span);
}

/// How a parameter is passed is what it is marked with: the mark that counts is the one that is
/// written, and there is none where nothing is.
pub proof fn law_marks_decide(arg: FnArg, span: Span)
    requires
        well_marked(arg),
    ensures
        marked(arg, "raw"@) <==> attr_type(arg) == Some(ArgumentAttrType::Raw),
        marked(arg, "try_from_ref"@) <==> attr_type(arg) == Some(ArgumentAttrType::TryFromRef),
        marked(arg, "cv"@) <==> is_cv(arg),
        marked(arg, "list"@) <==> is_list(arg),
{
    if marked(arg, "raw"@) {
        lemma_mark_is_chosen(arg, ArgumentAttrType::Raw);
    } else if marked(arg, "try_from_ref"@) {
        lemma_mark_is_chosen(arg, ArgumentAttrType::TryFromRef);
    } else if marked(arg, "cv"@) {
        lemma_mark_is_chosen(arg, ArgumentAttrType::CVPtr(span));
    } else if marked(arg, "list"@) {
        lemma_mark_is_chosen(arg, ArgumentAttrType::TrailingList(span));
    } else {
        lemma_nothing_is_chosen(arg);
    }
    if marked(arg, "try_from_ref"@) {
        lemma_mark_is_chosen(arg, ArgumentAttrType::TryFromRef);
    }
    if marked(arg, "cv"@) {
        lemma_mark_is_chosen(arg, ArgumentAttrType::CVPtr(span));
    }
    if marked(arg, "list"@) {
        lemma_mark_is_chosen(arg, ArgumentAttrType::TrailingList(span));
    }
}

/// The mark of a parameter alone decides how an argument is converted, whatever its type is:
/// `#[raw]` leaves it as it is, `#[try_from_ref]` and no other writes `TryFrom::try_from`, the
/// values of a `#[list]` are deserialized and collected, nothing is converted for the `#[cv]`, and
/// an argument for a parameter without a mark is deserialized.
pub proof fn law_mark_decides_conversion(arg: FnArg, span: Span)
    requires
        well_marked(arg),
    ensures
        ({
            let at = At { span };
            let code = deserializations(seq![arg], span);
            let target = ident_token(deserialized_name(arg));
            let source = ident_token(extracted_name(arg));
            let ty = typed(arg).ty.written();
            let failed = at.word("Err"@) + at.paren(at.word("err"@)) + at.arrow() + at.brace(
                at.word("return"@) + at.raised(at.error_text()) + at.op(';'),
            );
            let arms = |name: Seq<char>|
                at.word("Ok"@) + at.paren(at.word(name)) + at.arrow() + at.word(name) + at.op(',')
                    + failed;
            &&& marked(arg, "raw"@) ==> code == at.word("let"@) + target + at.op('=') + source
                + at.op(';')
            &&& marked(arg, "try_from_ref"@) ==> code == at.word("let"@) + target + at.op(':') + ty
                + at.op('=') + at.word("match"@) + at.seg("std"@) + at.seg("convert"@) + at.seg(
                "TryFrom"@,
            ) + at.seg("try_from"@) + at.paren(at.op('&') + source) + at.brace(arms("arg"@))
                + at.op(';')
            &&& marked(arg, "cv"@) ==> code.len() == 0
            &&& marked(arg, "list"@) ==> code == at.word("let"@) + target + at.op('=') + at.brace(
                at.word("let"@) + at.word("_guard"@) + at.op('=') + at.seg("perlmod"@) + at.seg(
                    "__private__"@,
                ) + at.seg("InParameterDeserialization"@) + at.seg("guard"@) + at.unit() + at.op(
                    ';',
                ) + at.word("match"@) + source + at.dot("map"@) + at.paren(
                    at.op('|') + at.word("value"@) + at.op('|') + at.seg("perlmod"@) + at.seg(
                        "from_ref_value"@,
                    ) + at.paren(at.op('&') + at.word("value"@)),
                ) + at.dot("collect"@) + at.op2(':', ':') + at.op('<') + at.word("Result"@) + at.op(
                    '<',
                ) + ty + at.op(',') + at.word("_"@) + at.op2('>', '>') + at.unit() + at.brace(
                    arms("arg"@),
                ),
            ) + at.op(';')
            &&& !marked(arg, "raw"@) && !marked(arg, "try_from_ref"@) && !marked(arg, "cv"@)
                && !marked(arg, "list"@) ==> code == at.word("let"@) + target + at.op(':') + ty
                + at.op('=') + at.word("match"@) + at.seg("perlmod"@) + at.seg("from_ref_value"@)
                + at.paren(at.op('&') + source) + at.brace(arms("data"@)) + at.op(';')
        }),
{
    law_marks_decide(arg, span);
    assert(seq![arg].drop_last() =~= Seq::empty());
    assert(seq![arg].last() == arg);
    assert(deserializations(Seq::empty(), span) =~= seq![]);
}

/// Every argument is taken off what Perl has passed, whatever its type and its mark are, but for
/// the `#[cv]`, which is none, and for a `#[list]`, which takes all that are left. Where none is
/// left, `undef` stands for an `Option`, and all others are reported as missing under their names.
pub proof fn law_arguments_are_taken(arg: FnArg, span: Span, arguments: IdentView)
    requires
        well_marked(arg),
    ensures
        ({
            let at = At { span };
            let code = extractions(seq![arg], span, arguments);
            let target = ident_token(extracted_name(arg));
            let missing = if option_type(typed(arg).ty) is Some {
                at.seg("perlmod"@) + at.seg("Value"@) + at.seg("new_undef"@) + at.unit() + at.op(
                    ',',
                )
            } else {
                at.brace(
                    at.word("return"@) + at.raised(
                        (At { span: arg_name(arg).span }).string(
                            "missing required parameter: '"@ + arg_name(arg).text() + "'\n"@,
                        ),
                    ) + at.op(';'),
                )
            };
            &&& marked(arg, "cv"@) ==> code.len() == 0
            &&& marked(arg, "list"@) ==> code == at.word("let"@) + target + at.op('=')
                + ident_token(arguments) + at.dot("map"@) + at.paren(
                at.seg("perlmod"@) + at.seg("Value"@) + at.seg("from"@),
            ) + at.op(';')
            &&& !marked(arg, "cv"@) && !marked(arg, "list"@) ==> code == at.word("let"@) + target
                + at.op(':') + at.seg("perlmod"@) + at.seg("Value"@) + at.op('=') + at.word(
                "match"@,
            ) + ident_token(arguments) + at.dot("next"@) + at.unit() + at.brace(
                at.word("Some"@) + at.paren(at.word("arg"@)) + at.arrow() + at.seg("perlmod"@)
                    + at.seg("Value"@) + at.seg("from"@) + at.paren(at.word("arg"@)) + at.op(',')
                    + at.word("None"@) + at.arrow() + missing,
            ) + at.op(';')
        }),
{
    law_marks_decide(arg, span);
    assert(seq![arg].drop_last() =~= Seq::empty());
    assert(seq![arg].last() == arg);
    assert(extractions(Seq::empty(), span, arguments) =~= seq![]);
}

/// The variables of a parameter are called after it, and what is passed to the function is the
/// second of them; but for the `#[cv]`, which is passed as it is.
pub proof fn law_variables_are_called_after_parameters(arg: FnArg, span: Span)
    requires
        well_marked(arg),
    ensures
        ({
            let name = arg_name(arg);
            let variable = |prefix: Seq<char>|
                IdentView {
                    name: spelling(prefix + name.name, name.span),
                    raw: false,
                    span: name.span,
                };
            &&& extracted_name(arg) == variable("extracted_arg_"@)
            &&& deserialized_name(arg) == variable("deserialized_arg_"@)
            &&& marked(arg, "cv"@) ==> passed_name(arg) == name
            &&& !marked(arg, "cv"@) ==> passed_name(arg) == variable("deserialized_arg_"@)
        }),
{
    law_marks_decide(arg, span);
}

/// The `#[cv]` is a parameter of the function that the entry point calls, with its own name and
/// type; and that function has no parameter where none is marked so.
pub proof fn law_cv_is_handed_on(args: Seq<FnArg>, span: Span, i: int)
    requires
        first_arg_error(args) is None,
        0 <= i < args.len(),
    ensures
        marked(args[i], "cv"@) ==> cv_parameter(args, span) == ident_token(arg_name(args[i])) + (
        At { span }).op(':') + typed(args[i]).ty.written(),
        (forall|j: int| 0 <= j < args.len() ==> !marked(#[trigger] args[j], "cv"@))
            ==> cv_parameter(args, span).len() == 0,
{
    law_accepted_parameters(args);
    assert forall|j: int| 0 <= j < args.len() implies marked(#[trigger] args[j], "cv"@) == is_cv(
        args[j],
    ) by {
        law_marks_decide(args[j], span);
    }
    lemma_cv_parameter_is_empty(args, span);
    if is_cv(args[i]) {
        lemma_cv_parameter_of(args, span, i);
    }
}

proof fn lemma_cv_parameter_of(args: Seq<FnArg>, span: Span, i: int)
    requires
        0 <= i < args.len(),
        is_cv(args[i]),
        forall|j: int| i < j < args.len() ==> !is_cv(#[trigger] args[j]),
    ensures
        cv_parameter(args, span) == ident_token(arg_name(args[i])) + (At { span }).op(':') + typed(
            args[i],
        ).ty.written(),
    decreases args.len(),
{
    if i + 1 < args.len() {
        assert(!is_cv(args[args.len() - 1]));
        lemma_cv_parameter_of(args.drop_last(), span, i);
    }
}

/// A parameter is written as it was declared, without its marks and with all of its other
/// attributes, in their order.
pub proof fn law_parameter_is_written_without_marks(arg: FnArg)
    requires
        arg is Typed,
    ensures
        inputs_written(seq![arg]) == typed(arg).written_with(
            typed(arg).attrs@.filter(
                |attr: Attribute|
                    !attr.meta_path().is_word("raw"@) && !attr.meta_path().is_word("try_from_ref"@)
                        && !attr.meta_path().is_word("cv"@) && !attr.meta_path().is_word("list"@),
            ),
        ),
{
    let kept = |attr: Attribute|
        !attr.meta_path().is_word("raw"@) && !attr.meta_path().is_word("try_from_ref"@)
            && !attr.meta_path().is_word("cv"@) && !attr.meta_path().is_word("list"@);
    lemma_retained(typed(arg).attrs@);
    assert(seq![arg].drop_last() =~= Seq::empty());
    assert(seq![arg].last() == arg);
    assert(inputs_written(Seq::empty()) =~= seq![]);
}

proof fn lemma_retained(attrs: Seq<Attribute>)
    ensures
        retained(attrs) == attrs.filter(
            |attr: Attribute|
                !attr.meta_path().is_word("raw"@) && !attr.meta_path().is_word("try_from_ref"@)
                    && !attr.meta_path().is_word("cv"@) && !attr.meta_path().is_word("list"@),
        ),
    decreases attrs.len(),
{
    reveal(Seq::filter);
    if attrs.len() > 0 {
        lemma_retained(attrs.drop_last());
    }
}

/// The first wrong parameter decides what a function is refused for, and only that parameter.
pub proof fn law_first_wrong_parameter_decides(args: Seq<FnArg>, i: int)
    requires
        0 <= i < args.len(),
        forall|j: int| 0 <= j < i ==> arg_error(#[trigger] args.take(j), args[j]) is None,
        arg_error(args.take(i), args[i]) is Some,
    ensures
        first_arg_error(args) == arg_error(args.take(i), args[i]),
{
    lemma_right_so_far(args, i);
    assert(args.take(i + 1).drop_last() =~= args.take(i));
    assert(args.take(i + 1).last() == args[i]);
    lemma_error_is_final(args, i + 1);
}

proof fn lemma_right_so_far(args: Seq<FnArg>, i: int)
    requires
        0 <= i <= args.len(),
        forall|j: int| 0 <= j < i ==> arg_error(#[trigger] args.take(j), args[j]) is None,
    ensures
        first_arg_error(args.take(i)) is None,
    decreases i,
{
    if i > 0 {
        lemma_right_so_far(args, i - 1);
        assert(args.take(i).drop_last() =~= args.take(i - 1));
        assert(args.take(i).last() == args[i - 1]);
        assert(arg_error(args.take(i - 1), args[i - 1]) is None);
    }
}

/// A parameter is wrong where it is `self`, where its attributes are wrong, where it is a second
/// `#[list]`, where its pattern is not a plain name, and where it is a second `#[cv]`; the first of
/// these that holds is reported.
pub proof fn law_wrong_parameters(before: Seq<FnArg>, arg: FnArg, span: Span)
    requires
        forall|i: int| 0 <= i < before.len() ==> well_marked(#[trigger] before[i]),
    ensures
        ({
            let kind = match arg_error(before, arg) {
                Some(error) => Some(error.kind),
                None => None,
            };
            let second = |word: Seq<char>|
                marked(arg, word) && exists|i: int|
                    0 <= i < before.len() && marked(#[trigger] before[i], word);
            &&& arg is Receiver ==> kind == Some(ErrorKind::SelfParameter)
            &&& arg is Typed && !well_marked(arg) ==> kind == Some(ErrorKind::UndeterminedAttribute)
            &&& well_marked(arg) && second("list"@) ==> kind == Some(ErrorKind::SecondList)
            &&& well_marked(arg) && !second("list"@) ==> match typed(arg).pat {
                Pat::Other(_) => kind == Some(ErrorKind::UnsupportedPattern),
                Pat::Ident(name) => if name.by_ref {
                    kind == Some(ErrorKind::ByRefParameter)
                } else if name.subpat {
                    kind == Some(ErrorKind::SubPattern)
                } else if second("cv"@) {
                    kind == Some(ErrorKind::SecondCv)
                } else {
                    kind is None
                },
            }
        }),
{
    assert forall|i: int| 0 <= i < before.len() implies marked(#[trigger] before[i], "cv"@)
        == is_cv(before[i]) && marked(before[i], "list"@) == is_list(before[i]) by {
        law_marks_decide(before[i], span);
    }
    if well_marked(arg) {
        law_marks_decide(arg, span);
    }
    if has_list(before) {
        let i = choose|i: int| 0 <= i < before.len() && is_list(#[trigger] before[i]);
        assert(marked(before[i], "list"@));
    }
    if has_cv(before) {
        let i = choose|i: int| 0 <= i < before.len() && is_cv(#[trigger] before[i]);
        assert(marked(before[i], "cv"@));
    }
}

/// What is reported of the attributes of parameters is what is reported of those of the first wrong
/// one, and nothing where none is wrong.
pub proof fn law_first_wrong_parameter_is_reported(args: Seq<FnArg>, i: int)
    requires
        0 <= i < args.len(),
        forall|j: int| 0 <= j < i ==> arg_error(#[trigger] args.take(j), args[j]) is None,
        arg_error(args.take(i), args[i]) is Some,
    ensures
        args[i] is Typed ==> arg_reports(args) == complaints(
            typed(args[i]).attrs@,
            typed(args[i]).span,
        ),
        args[i] is Receiver ==> arg_reports(args).len() == 0,
{
    lemma_right_so_far(args, i);
    assert(args.take(i + 1).drop_last() =~= args.take(i));
    assert(args.take(i + 1).last() == args[i]);
    lemma_error_is_final(args, i + 1);
}

/// A wrong parameter is reported where it is wrong: at the whole of it where its attributes are, at
/// its pattern where that is, at the attribute that marks a second list or `CV` pointer, and at
/// `self`.
pub proof fn law_places_of_wrong_parameters(before: Seq<FnArg>, arg: FnArg)
    requires
        arg_error(before, arg) is Some,
    ensures
        ({
            let error = arg_error(before, arg)->0;
            match arg {
                FnArg::Receiver(tokens) => error.at == LocationView::Tokens(stream_tokens(tokens)),
                FnArg::Typed(p) => match error.kind {
                    ErrorKind::UndeterminedAttribute => error.at == LocationView::Place(p.span),
                    ErrorKind::SecondList => attr_type(arg) matches Some(
                        ArgumentAttrType::TrailingList(span),
                    ) && error.at == LocationView::Place(span),
                    ErrorKind::SecondCv => attr_type(arg) matches Some(
                        ArgumentAttrType::CVPtr(span),
                    ) && error.at == LocationView::Place(span),
                    _ => error.at == LocationView::Tokens(stream_tokens(p.pat.token_stream())),
                },
            }
        }),
{
}

proof fn lemma_filter_alike(args: Seq<FnArg>, p: spec_fn(FnArg) -> bool, q: spec_fn(FnArg) -> bool)
    requires
        forall|i: int| 0 <= i < args.len() ==> p(#[trigger] args[i]) == q(args[i]),
    ensures
        args.filter(p) == args.filter(q),
    decreases args.len(),
{
    reveal(Seq::filter);
    if args.len() > 0 {
        let rest = args.drop_last();
        assert(forall|i: int| 0 <= i < rest.len() ==> #[trigger] rest[i] == args[i]);
        lemma_filter_alike(rest, p, q);
        assert(args[args.len() - 1] == args.last());
    }
}

/// The parameters that may be left out are those of type `Option` that stand behind the last one
/// which has to be given; one has to be given where its type is no `Option` and it is neither the
/// `#[cv]` nor a `#[list]`.
pub proof fn law_optional_parameters(args: Seq<FnArg>, span: Span, first: int)
    requires
        forall|i: int| 0 <= i < args.len() ==> well_marked(#[trigger] args[i]),
        0 <= first <= args.len(),
        first > 0 ==> option_type(typed(args[first - 1]).ty) is None && !marked(
            args[first - 1],
            "cv"@,
        ) && !marked(args[first - 1], "list"@),
        forall|i: int|
            first <= i < args.len() ==> option_type(typed(#[trigger] args[i]).ty) is Some || marked(
                args[i],
                "cv"@,
            ) || marked(args[i], "list"@),
    ensures
        trailing_options(args) == args.skip(first).filter(
            |arg: FnArg| option_type(typed(arg).ty) is Some && !marked(arg, "cv"@),
        ).len(),
{
    let rest = args.skip(first);
    assert forall|i: int| 0 <= i < args.len() implies marked(#[trigger] args[i], "cv"@) == is_cv(
        args[i],
    ) && marked(args[i], "list"@) == is_list(args[i]) by {
        law_marks_decide(args[i], span);
    }
    law_trailing_options(args, first);
    assert forall|i: int| 0 <= i < rest.len() implies #[trigger] rest[i] == args[first + i] by {}
    lemma_filter_alike(
        rest,
        |arg: FnArg| is_optional(arg) && !is_cv(arg),
        |arg: FnArg| option_type(typed(arg).ty) is Some && !marked(arg, "cv"@),
    );
}

/// The names of variables can be made up for all parameters that nothing is wrong with, unless one
/// other than the `#[cv]` has a raw name.
pub proof fn law_names_that_can_be_made_up(args: Seq<FnArg>, span: Span)
    requires
        first_arg_error(args) is None,
    ensures
        inputs_nameable(args) <==> forall|i: int|
            0 <= i < args.len() ==> marked(#[trigger] args[i], "cv"@) || !arg_name(args[i]).raw,
{
    law_accepted_parameters(args);
    assert forall|i: int| 0 <= i < args.len() implies marked(#[trigger] args[i], "cv"@) == is_cv(
        args[i],
    ) && first_arg_error(args.take(i + 1)) is None by {
        law_marks_decide(args[i], span);
        if first_arg_error(args.take(i + 1)) is Some {
            lemma_error_is_final(args, i + 1);
        }
    }
    if inputs_nameable(args) {
        assert forall|i: int| 0 <= i < args.len() implies marked(#[trigger] args[i], "cv"@)
            || !arg_name(args[i]).raw by {
            assert(first_arg_error(args.take(i + 1)) is None);
        }
    }
    if forall|i: int|
        0 <= i < args.len() ==> marked(#[trigger] args[i], "cv"@) || !arg_name(args[i]).raw {
        assert forall|i: int|
            0 <= i < args.len() && first_arg_error(args.take(i + 1)) is None && !is_cv(
                #[trigger] args[i],
            ) implies !arg_name(args[i]).raw by {
            assert(marked(args[i], "cv"@) == is_cv(args[i]));
        }
    }
}

/// A list that is no `Option` leaves room for the parameters that may be left out.
pub proof fn law_list_leaves_room(args: Seq<FnArg>)
    requires
        forall|i: int|
            0 <= i < args.len() && is_list(#[trigger] args[i]) ==> option_type(typed(args[i]).ty)
                is None,
    ensures
        trailing_options(args) + (if has_list(args) {
            1int
        } else {
            0int
        }) <= args.len(),
    decreases args.len(),
{
    if args.len() > 0 {
        let rest = args.drop_last();
        assert(forall|i: int| 0 <= i < rest.len() ==> #[trigger] rest[i] == args[i]);
        law_list_leaves_room(rest);
        law_trailing_options_bound(rest);
        lemma_has_list_step(args);
        assert(args[args.len() - 1] == args.last());
    }
}

} // verus!
