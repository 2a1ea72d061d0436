//! The expansion of one exported function.

use crate::argument::{law_other_attributes_are_kept, ArgumentAttrType};
use crate::attribs::FunctionAttrs;
use crate::decimal::{decimal, decimal_text};
use crate::error::{error_at_tokens, error_views, Error, ErrorKind, ErrorView};
use crate::ident::{
    ident_tail, is_ident_tail, lemma_prefix_is_injective, spelled, Ident, IdentView,
};
use crate::parameters::{
    arg_reports, cv_parameter, deserializations, extractions, first_arg_error, has_cv, has_list,
    inputs_nameable, inputs_written, is_cv, law_accepted_parameters_are_not_reported,
    lemma_cv_parameter_is_empty, lemma_has_cv_step, passed, survey, trailing_options, typed,
    Parameters,
};
use crate::prototype::{
    gen_prototype, law_list_marker_comes_last, law_one_dollar_per_scalar, prototype,
};
use crate::return_kind::{
    entry_point, entry_visibility, handle_return_kind, return_code, return_error, success_arm,
    Return, ReturnHandling, ReturnValue,
};
use crate::syntax::{FnArg, ItemFn, ReturnType, Signature, Type, Visibility};
use crate::tokens::{ident_token, lemma_empty_add, stream_tokens, At, Tok, Writer};
use crate::types::{get_result_type, result_type, success_type};
use crate::words::lemma_words;
use proc_macro2::{Span, TokenStream};
use vstd::prelude::*;
use vstd::string::StringExecFns;

verus! {

broadcast use lemma_empty_add;

/// A function that Perl can call.
pub struct XSub {
    pub rust_name: Ident,
    pub perl_name: Option<Ident>,
    pub xs_name: Ident,
    pub tokens: TokenStream,
    pub prototype: Option<String>,
}

/// What to do about something that is questionable.
#[derive(Clone, Copy, PartialEq, Eq, Structural)]
pub enum Action {
    Allow,
    Warn,
    Deny,
}

/// What the expansion takes from its surroundings.
pub struct Config {
    /// The parameter for the Perl interpreter, and the comma behind it, where Perl was built to
    /// need one.
    pub pthx: TokenStream,
    /// What to do about exported functions that are not public.
    pub non_pub_exports: Action,
}

/// The code that complains of a function which is not public:
///
/// ```text
/// {
///     non_pub_export();
///     #[deprecated = "exported function must be public"]
///     fn non_pub_export() {}
/// }
/// ```
///
/// for a warning, and
///
/// ```text
/// compile_error!("exported function must be public");
/// ```
///
/// for an error.
pub open spec fn visibility_code(vis: Visibility, action: Action, span: Span) -> Seq<Tok> {
    let at = At { span };
    if !(vis is Inherited) {
        seq![]
    } else {
        match action {
            Action::Allow => seq![],
            Action::Warn => at.brace(
                at.word("non_pub_export"@) + at.unit() + at.op(';') + at.op('#') + at.bracket(
                    at.word("deprecated"@) + at.op('=') + at.string(
                        "exported function must be public"@,
                    ),
                ) + at.word("fn"@) + at.word("non_pub_export"@) + at.unit() + at.brace(seq![]),
            ),
            Action::Deny => at.word("compile_error"@) + at.op('!') + at.paren(
                at.string("exported function must be public"@),
            ) + at.op(';'),
        }
    }
}

/// Writes the code that complains of a function which is not public.
pub fn check_visibility(func: &ItemFn, non_pub_exports: Action) -> (r: TokenStream)
    ensures
        stream_tokens(r) == visibility_code(func.vis, non_pub_exports, func.sig.ident@.span),
{
    proof {
        lemma_words();
    }
    let inherited = match func.vis {
        Visibility::Inherited => true,
        Visibility::Given(_) => false,
    };
    if !inherited {
        return TokenStream::new();
    }
    let mut w = Writer::new(func.sig.ident.span());
    match non_pub_exports {
        Action::Allow => {},
        Action::Warn => {
            let mut attribute = w.inner();
            attribute.word("deprecated");
            attribute.op('=');
            attribute.string("exported function must be public");
            let mut body = w.inner();
            body.word("non_pub_export");
            body.unit();
            body.op(';');
            body.op('#');
            body.bracket(attribute);
            body.word("fn");
            body.word("non_pub_export");
            body.unit();
            let nothing = w.inner();
            body.brace(nothing);
            w.brace(body);
        },
        Action::Deny => {
            let mut text = w.inner();
            text.string("exported function must be public");
            w.word("compile_error");
            w.op('!');
            w.paren(text);
            w.op(';');
        },
    }
    w.finish()
}

/// What a function returns.
pub open spec fn declared_return(output: ReturnType) -> Return {
    match output {
        ReturnType::Default => Return { result: false, value: ReturnValue::Nothing },
        ReturnType::Type(ty) => Return {
            result: result_type(ty) is Some,
            value: match success_type(ty) {
                Type::Tuple(tuple) => if tuple.elems@.len() == 0 {
                    ReturnValue::Nothing
                } else {
                    ReturnValue::Tuple(tuple.elems@.len() as usize)
                },
                _ => ReturnValue::Single,
            },
        },
    }
}

fn return_of(output: &ReturnType) -> (r: Return)
    ensures
        r == declared_return(*output),
        r.value matches ReturnValue::Tuple(count) ==> count > 0,
{
    match output {
        ReturnType::Default => Return { result: false, value: ReturnValue::Nothing },
        ReturnType::Type(ty) => match get_result_type(ty) {
            (Type::Tuple(tuple), result) => if tuple.elems.len() == 0 {
                Return { result, value: ReturnValue::Nothing }
            } else {
                Return { result, value: ReturnValue::Tuple(tuple.elems.len()) }
            },
            (_, result) => Return { result, value: ReturnValue::Single },
        },
    }
}

/// What stands before the name of a function in the usual name of its entry point.
pub open spec fn xs_prefix(package: Option<Seq<char>>) -> Seq<char> {
    match package {
        None => "xs_"@,
        Some(package) => "xs_"@ + package + "_"@,
    }
}

/// The usual name of an entry point.
pub open spec fn default_xs_name(name: IdentView, package: Option<Seq<char>>) -> IdentView {
    name.prefixed(xs_prefix(package))
}

/// The name of the variable that holds what Perl has passed.
pub open spec fn arguments_name(span: Span) -> IdentView {
    IdentView { name: "args"@, raw: false, span }
}

/// What Perl is told where it has passed too many arguments.
pub open spec fn too_many_message(name: Seq<char>, expected: nat) -> Seq<char> {
    "too many parameters for function '"@ + name + "', (expected "@ + decimal(expected) + ")\n"@
}

/// How many arguments Perl has to pass at most, where no parameter is a list: one for each
/// parameter but the `CV` pointer.
pub open spec fn expected_arguments(args: Seq<FnArg>) -> nat {
    if has_cv(args) {
        (args.len() - 1) as nat
    } else {
        args.len()
    }
}

/// The code that sees to it that no arguments are left:
///
/// ```text
/// if args.next().is_some() {
///     return Err(::perlmod::Value::new_string("too many ..").into_mortal().into_raw());
/// }
/// ```
///
/// A list leaves none.
pub open spec fn finalization(args: Seq<FnArg>, name: IdentView, call_site: Span) -> Seq<Tok> {
    let at = At { span: name.span };
    if has_list(args) {
        seq![]
    } else {
        at.word("if"@) + ident_token(arguments_name(name.span)) + at.dot("next"@) + at.unit()
            + at.dot("is_some"@) + at.unit() + at.brace(
            at.word("return"@) + at.raised(
                (At { span: call_site }).string(
                    too_many_message(name.name, expected_arguments(args)),
                ),
            ) + at.op(';'),
        )
    }
}

/// The function that the entry point calls:
///
/// ```text
/// #[inline(never)]
/// #[allow(non_snake_case)]
/// fn impl_xs_name(cv_parameter) -> Result<return_type, *mut ::perlmod::ffi::SV> {
///     visibility
///
///     let argmark = unsafe { ::perlmod::ffi::pop_arg_mark() };
///     let mut args = argmark.iter();
///     { let _ = &mut args; }
///
///     extract
///     finalize
///     deserialize
///
///     unsafe {
///         argmark.set_stack();
///     }
///
///     let res = std::panic::catch_unwind(move || {
///         handle_return
///     });
///     match res {
///         Ok(res) => res,
///         Err(_panic) => Err(::perlmod::Value::new_string("rust function panicked")
///             .into_mortal()
///             .into_raw()),
///     }
/// }
/// ```
pub open spec fn implementation(
    at: At,
    impl_xs_name: IdentView,
    cv_parameter: Seq<Tok>,
    return_type: Seq<Tok>,
    visibility: Seq<Tok>,
    extract: Seq<Tok>,
    finalize: Seq<Tok>,
    deserialize: Seq<Tok>,
    handle_return: Seq<Tok>,
) -> Seq<Tok> {
    let args = ident_token(arguments_name(at.span));
    at.attribute("inline"@, "never"@) + at.attribute("allow"@, "non_snake_case"@) + at.word("fn"@)
        + ident_token(impl_xs_name) + at.paren(cv_parameter) + at.op2('-', '>') + at.word("Result"@)
        + at.op('<') + return_type + at.op(',') + at.sv_pointer() + at.op('>') + at.brace(
        visibility + at.word("let"@) + at.word("argmark"@) + at.op('=') + at.word("unsafe"@)
            + at.brace(
            at.seg("perlmod"@) + at.seg("ffi"@) + at.seg("pop_arg_mark"@) + at.unit(),
        ) + at.op(';') + at.word("let"@) + at.word("mut"@) + args + at.op('=') + at.word(
            "argmark"@,
        ) + at.dot("iter"@) + at.unit() + at.op(';') + at.brace(
            at.word("let"@) + at.word("_"@) + at.op('=') + at.op('&') + at.word("mut"@) + args
                + at.op(';'),
        ) + extract + finalize + deserialize + at.word("unsafe"@) + at.brace(
            at.word("argmark"@) + at.dot("set_stack"@) + at.unit() + at.op(';'),
        ) + at.word("let"@) + at.word("res"@) + at.op('=') + at.word("std"@) + at.seg("panic"@)
            + at.seg("catch_unwind"@) + at.paren(
            at.word("move"@) + at.op2('|', '|') + at.brace(handle_return),
        ) + at.op(';') + at.word("match"@) + at.word("res"@) + at.brace(
            at.word("Ok"@) + at.paren(at.word("res"@)) + at.arrow() + at.word("res"@) + at.op(',')
                + at.word("Err"@) + at.paren(at.word("_panic"@)) + at.arrow() + at.raised(
                at.string("rust function panicked"@),
            ) + at.op(','),
        ),
    )
}

/// The function as it is written, without the attributes of its parameters that say how they are
/// passed.
pub open spec fn item_written(func: ItemFn) -> Seq<Tok> {
    stream_tokens(func.before) + (At { span: func.sig.paren }).paren(
        inputs_written(func.sig.inputs@) + stream_tokens(func.sig.variadic),
    ) + stream_tokens(func.after)
}

/// What is wrong with the head of a function, apart from its parameters.
pub open spec fn signature_error(func: ItemFn) -> Option<ErrorView> {
    if func.sig.generics.has_params {
        Some(
            error_at_tokens(
                stream_tokens(func.sig.generics.tokens),
                ErrorKind::GenericFunction,
            ),
        )
    } else {
        match func.sig.asyncness {
            Some(tokens) => Some(error_at_tokens(stream_tokens(tokens), ErrorKind::AsyncFunction)),
            None => None,
        }
    }
}

/// Why a function cannot be exported.
pub open spec fn export_error(
    attr: FunctionAttrs,
    func: ItemFn,
    call_site: Span,
) -> Option<ErrorView> {
    match signature_error(func) {
        Some(error) => Some(error),
        None => match first_arg_error(func.sig.inputs@) {
            Some(error) => Some(error),
            None => return_error(declared_return(func.sig.output), attr.raw_return, call_site),
        },
    }
}

/// What is reported besides the reason why a function cannot be exported.
pub open spec fn export_reports(func: ItemFn) -> Seq<ErrorView> {
    if signature_error(func) is Some {
        seq![]
    } else {
        arg_reports(func.sig.inputs@)
    }
}

/// Whether the names in the expansion of a function can be made up.
pub open spec fn nameable(attr: FunctionAttrs, func: ItemFn, package: Option<Seq<char>>) -> bool {
    signature_error(func) is None ==> {
        &&& attr.xs_name is None && package is Some ==> ident_tail(package->0)
        &&& inputs_nameable(func.sig.inputs@)
    }
}

/// The number of parameters that are a list.
pub open spec fn list_count(args: Seq<FnArg>) -> nat {
    if has_list(args) {
        1
    } else {
        0
    }
}

/// Whether the prototype of a function can be derived from its parameters: a list that is an
/// `Option` counts twice, and there has to be a parameter that makes up for it.
pub open spec fn prototype_fits(attr: FunctionAttrs, func: ItemFn) -> bool {
    attr.prototype is None && signature_error(func) is None && first_arg_error(func.sig.inputs@)
        is None && !(declared_return(func.sig.output).value is Nothing && attr.raw_return)
        ==> trailing_options(func.sig.inputs@) + list_count(func.sig.inputs@)
        <= func.sig.inputs@.len()
}

/// The name of the entry point of a function.
pub open spec fn xs_name(
    attr: FunctionAttrs,
    func: ItemFn,
    package: Option<Seq<char>>,
) -> IdentView {
    match attr.xs_name {
        Some(name) => name@,
        None => default_xs_name(func.sig.ident@.unraw(), package),
    }
}

/// The name of the function that the entry point calls.
pub open spec fn impl_xs_name(func: ItemFn) -> IdentView {
    func.sig.ident@.prefixed("impl_xs_"@)
}

/// The prototype of a function.
pub open spec fn xsub_prototype(attr: FunctionAttrs, func: ItemFn) -> Seq<char> {
    let args = func.sig.inputs@;
    match attr.prototype {
        Some(given) => given@,
        None => prototype(
            (args.len() - trailing_options(args) - list_count(args)) as nat,
            trailing_options(args),
            has_list(args),
        ),
    }
}

/// The expansion of a function: the function itself, its entry point, and the function that the
/// entry point calls.
pub open spec fn expansion(
    attr: FunctionAttrs,
    func: ItemFn,
    package: Option<Seq<char>>,
    export_public: bool,
    config: Config,
    call_site: Span,
) -> Seq<Tok> {
    let name = func.sig.ident@.unraw();
    let at = At { span: name.span };
    let args = func.sig.inputs@;
    let ret = declared_return(func.sig.output);
    item_written(func) + entry_point(
        at,
        entry_visibility(
            at,
            if export_public {
                Some(func.vis)
            } else {
                None
            },
        ),
        xs_name(attr, func, package),
        impl_xs_name(func),
        stream_tokens(config.pthx),
        has_cv(args),
        ret.errno_code(attr.errno, name.span),
        success_arm(at, call_site, ret.value),
    ) + implementation(
        at,
        impl_xs_name(func),
        cv_parameter(args, name.span),
        ret.value.returned_type(name.span),
        visibility_code(func.vis, config.non_pub_exports, name.span),
        extractions(args, name.span, arguments_name(name.span)),
        finalization(args, name, call_site),
        deserializations(args, name.span),
        return_code(
            at,
            call_site,
            ret,
            attr.raw_return,
            name,
            passed(args, name.span),
            ret.error_code(attr.serialize_error, name.span),
        ),
    )
}

impl XSub {
    /// Whether this is the export of a function.
    pub open spec fn exports(
        self,
        attr: FunctionAttrs,
        func: ItemFn,
        package: Option<Seq<char>>,
        export_public: bool,
        config: Config,
        call_site: Span,
    ) -> bool {
        &&& self.rust_name@ == func.sig.ident@.unraw()
        &&& self.perl_name == attr.perl_name
        &&& self.xs_name@ == xs_name(attr, func, package)
        &&& stream_tokens(self.tokens) == expansion(
            attr,
            func,
            package,
            export_public,
            config,
            call_site,
        )
        &&& self.prototype is Some
        &&& self.prototype->0@ == xsub_prototype(attr, func)
    }
}

/// What exporting a function comes to: the export, or the reason why there is none; and the reports
/// that are made besides.
pub open spec fn outcome(
    attr: FunctionAttrs,
    func: ItemFn,
    package: Option<Seq<char>>,
    export_public: bool,
    config: Config,
    call_site: Span,
    r: Result<XSub, Error>,
) -> bool {
    match export_error(attr, func, call_site) {
        Some(error) => r is Err && r->Err_0@ == error,
        None => r is Ok && r->Ok_0.exports(
            attr,
            func,
            package,
            export_public,
            config,
            call_site,
        ),
    }
}

pub open spec fn optional_text(text: Option<&str>) -> Option<Seq<char>> {
    match text {
        Some(text) => Some(text@),
        None => None,
    }
}

fn default_entry_name(name: &Ident, mangled_package_name: Option<&str>) -> (r: Ident)
    requires
        mangled_package_name is Some ==> ident_tail(mangled_package_name->0@),
    ensures
        r@ == default_xs_name(name@, optional_text(mangled_package_name)),
{
    proof {
        lemma_words();
        reveal_strlit("_");
    }
    match mangled_package_name {
        None => name.prefixed("xs_"),
        Some(package) => {
            let mut prefix = "xs_".to_owned();
            prefix.append(package);
            prefix.append("_");
            name.prefixed(prefix.as_str())
        },
    }
}

fn write_finalization(
    parameters: &Parameters,
    Ghost(args): Ghost<Seq<FnArg>>,
    name: &Ident,
    arguments: &Ident,
    call_site: Span,
) -> (r: TokenStream)
    requires
        parameters.of(args, name@.span, arguments_name(name@.span)),
        arguments@ == arguments_name(name@.span),
    ensures
        stream_tokens(r) == finalization(args, name@, call_site),
{
    proof {
        lemma_words();
        lemma_cv_parameter_is_empty(args, name@.span);
    }
    if parameters.had_list_param {
        return TokenStream::new();
    }
    let cv_count: usize = if parameters.cv_arg_param.is_empty() {
        0
    } else {
        1
    };
    let mut message = "too many parameters for function '".to_owned();
    message.append(name.name());
    message.append("', (expected ");
    message.append(decimal_text(parameters.count - cv_count).as_str());
    message.append(")\n");

    let mut w = Writer::new(name.span());
    let mut text = w.inner();
    text.string_at(message.as_str(), call_site);
    let mut body = w.inner();
    body.word("return");
    body.raised(text);
    body.op(';');
    w.word("if");
    w.ident(arguments);
    w.dot("next");
    w.unit();
    w.dot("is_some");
    w.unit();
    w.brace(body);
    w.finish()
}

fn write_implementation(
    span: Span,
    impl_xs_name: &Ident,
    arguments: &Ident,
    cv_parameter: &TokenStream,
    return_type: &TokenStream,
    visibility: &TokenStream,
    extract: &TokenStream,
    finalize: &TokenStream,
    deserialize: &TokenStream,
    handle_return: &TokenStream,
) -> (w: Writer)
    requires
        arguments@ == arguments_name(span),
    ensures
        w.tokens() == implementation(
            At { span },
            impl_xs_name@,
            stream_tokens(*cv_parameter),
            stream_tokens(*return_type),
            stream_tokens(*visibility),
            stream_tokens(*extract),
            stream_tokens(*finalize),
            stream_tokens(*deserialize),
            stream_tokens(*handle_return),
        ),
{
    proof {
        lemma_words();
    }
    let mut w = Writer::new(span);
    let mut parameter = w.inner();
    parameter.splice(cv_parameter);

    let mut mark = w.inner();
    mark.seg("perlmod");
    mark.seg("ffi");
    mark.seg("pop_arg_mark");
    mark.unit();

    let mut used = w.inner();
    used.word("let");
    used.word("_");
    used.op('=');
    used.op('&');
    used.word("mut");
    used.ident(arguments);
    used.op(';');

    let mut stack = w.inner();
    stack.word("argmark");
    stack.dot("set_stack");
    stack.unit();
    stack.op(';');

    let mut called = w.inner();
    called.splice(handle_return);
    let mut closure = w.inner();
    closure.word("move");
    closure.op2('|', '|');
    closure.brace(called);

    let mut panicked = w.inner();
    panicked.string("rust function panicked");
    let mut arms = w.inner();
    arms.word("Ok");
    arms.paren_word("res");
    arms.arrow();
    arms.word("res");
    arms.op(',');
    arms.word("Err");
    arms.paren_word("_panic");
    arms.arrow();
    arms.raised(panicked);
    arms.op(',');

    let mut body = w.inner();
    body.splice(visibility);
    body.word("let");
    body.word("argmark");
    body.op('=');
    body.word("unsafe");
    body.brace(mark);
    body.op(';');
    body.word("let");
    body.word("mut");
    body.ident(arguments);
    body.op('=');
    body.word("argmark");
    body.dot("iter");
    body.unit();
    body.op(';');
    body.brace(used);
    body.splice(extract);
    body.splice(finalize);
    body.splice(deserialize);
    body.word("unsafe");
    body.brace(stack);
    body.word("let");
    body.word("res");
    body.op('=');
    body.word("std");
    body.seg("panic");
    body.seg("catch_unwind");
    body.paren(closure);
    body.op(';');
    body.word("match");
    body.word("res");
    body.brace(arms);

    w.attribute("inline", "never");
    w.attribute("allow", "non_snake_case");
    w.word("fn");
    w.ident(impl_xs_name);
    w.paren(parameter);
    w.op2('-', '>');
    w.word("Result");
    w.op('<');
    w.splice(return_type);
    w.op(',');
    w.sv_pointer();
    w.op('>');
    w.brace(body);
    w
}

fn write_item(
    before: &TokenStream,
    paren: Span,
    inputs: &TokenStream,
    variadic: &TokenStream,
    after: &TokenStream,
) -> (w: Writer)
    ensures
        w.tokens() == stream_tokens(*before) + (At { span: paren }).paren(
            stream_tokens(*inputs) + stream_tokens(*variadic),
        ) + stream_tokens(*after),
{
    let mut w = Writer::new(paren);
    let mut inner = w.inner();
    inner.splice(inputs);
    inner.splice(variadic);
    w.splice(before);
    w.paren(inner);
    w.splice(after);
    w
}

/// Exports a function. `call_site` is where the macro was invoked.
///
/// Every attribute of a parameter that is wrong is reported in `errors`.
pub fn expand_function(
    attr: FunctionAttrs,
    func: ItemFn,
    mangled_package_name: Option<&str>,
    export_public: bool,
    config: &Config,
    call_site: Span,
    errors: &mut Vec<Error>,
) -> (r: Result<XSub, Error>)
    requires
        nameable(attr, func, optional_text(mangled_package_name)),
        prototype_fits(attr, func),
    ensures
        outcome(
            attr,
            func,
            optional_text(mangled_package_name),
            export_public,
            *config,
            call_site,
            r,
        ),
        error_views(final(errors)@) == error_views(old(errors)@) + export_reports(func),
        final(errors)@.take(old(errors)@.len() as int) == old(errors)@,
{
    proof {
        lemma_words();
        reveal_strlit("args");
        lemma_cv_parameter_is_empty(func.sig.inputs@, func.sig.ident@.span);
    }
    let ghost item = func;
    let visibility_action = check_visibility(&func, config.non_pub_exports);
    let ItemFn { vis, sig, before, after } = func;
    let Signature { asyncness, ident, generics, paren, inputs, variadic, output } = sig;
    let span = ident.span();

    if generics.has_params {
        return Err(Error::new_spanned(&generics.tokens, ErrorKind::GenericFunction));
    }
    if let Some(tokens) = &asyncness {
        return Err(Error::new_spanned(tokens, ErrorKind::AsyncFunction));
    }
    let name = ident.unraw();
    let xs_name = match &attr.xs_name {
        Some(xs_name) => xs_name.clone(),
        None => default_entry_name(&name, mangled_package_name),
    };
    let impl_xs_name = name.prefixed("impl_xs_");
    let arguments_name = Ident::word("args", span);

    let parameters = match Parameters::from_inputs(inputs, span, &arguments_name, errors) {
        Ok(parameters) => parameters,
        Err(error) => return Err(error),
    };
    let finalize_arguments = write_finalization(
        &parameters,
        Ghost(item.sig.inputs@),
        &name,
        &arguments_name,
        call_site,
    );
    let handling = handle_return_kind(
        &attr,
        return_of(&output),
        &name,
        &xs_name,
        &impl_xs_name,
        parameters.passed_arguments,
        if export_public {
            Some(&vis)
        } else {
            None
        },
        !parameters.cv_arg_param.is_empty(),
        &config.pthx,
        call_site,
    );
    let ReturnHandling { return_type, handle_return, wrapper_func } = match handling {
        Ok(handling) => handling,
        Err(error) => return Err(error),
    };

    let mut tokens = write_item(&before, paren, &parameters.written, &variadic, &after);
    tokens.splice(&wrapper_func);
    tokens.append(
        write_implementation(
            span,
            &impl_xs_name,
            &arguments_name,
            &parameters.cv_arg_param,
            &return_type,
            &visibility_action,
            &parameters.extract_arguments,
            &finalize_arguments,
            &parameters.deserialized_arguments,
            &handle_return,
        ),
    );
    let prototype = match attr.prototype {
        Some(prototype) => prototype,
        None => gen_prototype(
            parameters.count,
            parameters.trailing_options,
            parameters.had_list_param,
        ),
    };
    Ok(
        XSub {
            rust_name: name,
            perl_name: attr.perl_name,
            xs_name,
            tokens: tokens.finish(),
            prototype: Some(prototype),
        },
    )
}

/// Exports a function from where the macro was invoked.
///
/// Every attribute of a parameter that is wrong is reported in `errors`.
pub fn handle_function(
    attr: FunctionAttrs,
    func: ItemFn,
    mangled_package_name: Option<&str>,
    export_public: bool,
    config: &Config,
    errors: &mut Vec<Error>,
) -> (r: Result<XSub, Error>)
    requires
        nameable(attr, func, optional_text(mangled_package_name)),
        prototype_fits(attr, func),
    ensures
        exists|call_site: Span| #[trigger]
            outcome(
                attr,
                func,
                optional_text(mangled_package_name),
                export_public,
                *config,
                call_site,
                r,
            ),
        error_views(final(errors)@) == error_views(old(errors)@) + export_reports(func),
        final(errors)@.take(old(errors)@.len() as int) == old(errors)@,
{
    let call_site = Span::call_site();
    expand_function(
        attr,
        func,
        mangled_package_name,
        export_public,
        config,
        call_site,
        errors,
    )
}

/// Exports a function from where the macro was invoked, unless a name in its expansion cannot be
/// made up or its prototype cannot be derived: then there is no result, and nothing is reported.
pub fn try_handle_function(
    attr: FunctionAttrs,
    func: ItemFn,
    mangled_package_name: Option<&str>,
    export_public: bool,
    config: &Config,
    errors: &mut Vec<Error>,
) -> (r: Option<Result<XSub, Error>>)
    ensures
        r is Some <==> nameable(attr, func, optional_text(mangled_package_name)) && prototype_fits(
            attr,
            func,
        ),
        r is Some ==> {
            &&& exists|call_site: Span| #[trigger]
                outcome(
                    attr,
                    func,
                    optional_text(mangled_package_name),
                    export_public,
                    *config,
                    call_site,
                    r->0,
                )
            &&& error_views(final(errors)@) == error_views(old(errors)@) + export_reports(func)
            &&& final(errors)@.take(old(errors)@.len() as int) == old(errors)@
        },
        r is None ==> final(errors)@ == old(errors)@,
{
    if !func.sig.generics.has_params && func.sig.asyncness.is_none() {
        if let Some(package) = mangled_package_name {
            if attr.xs_name.is_none() && !is_ident_tail(package) {
                return None;
            }
        }
        let found = survey(&func.sig.inputs);
        if !found.nameable {
            return None;
        }
        let (trailing, had_list, correct) = match found.counts {
            Some((trailing, had_list)) => (trailing, had_list, true),
            None => (0, false, false),
        };
        let nothing = match return_of(&func.sig.output).value {
            ReturnValue::Nothing => true,
            _ => false,
        };
        if attr.prototype.is_none() && correct && !(nothing && attr.raw_return) {
            let count = func.sig.inputs.len();
            if trailing > count || (had_list && trailing == count) {
                return None;
            }
        }
    }
    let handled = handle_function(
        attr,
        func,
        mangled_package_name,
        export_public,
        config,
        errors,
    );
    let r = Some(handled);
    assert(r->0 == handled);
    r
}

/// The usual names of the entry points of functions with different names are made of different
/// texts within a package. The names differ too wherever they are spelled like those texts, as all
/// names within ASCII are.
pub proof fn law_entry_points_are_distinct(a: IdentView, b: IdentView, package: Option<Seq<char>>)
    requires
        a.name != b.name,
    ensures
        xs_prefix(package) + a.name != xs_prefix(package) + b.name,
        spelled(xs_prefix(package) + a.name, a.span) && spelled(xs_prefix(package) + b.name, b.span)
            ==> default_xs_name(a, package).name != default_xs_name(b, package).name,
{
    lemma_prefix_is_injective(xs_prefix(package), a.name, b.name);
}

/// No entry point with the usual name is called like a function that an entry point calls, wherever
/// the two names are spelled like the texts that they are made of, as all names within ASCII are.
/// Those texts differ in any case.
pub proof fn law_entry_point_is_no_implementation(
    name: IdentView,
    package: Option<Seq<char>>,
    func: ItemFn,
)
    ensures
        xs_prefix(package) + name.name != "impl_xs_"@ + func.sig.ident@.name,
        spelled(xs_prefix(package) + name.name, name.span) && spelled(
            "impl_xs_"@ + func.sig.ident@.name,
            func.sig.ident@.span,
        ) ==> default_xs_name(name, package).name != impl_xs_name(func).name,
{
    reveal_strlit("xs_");
    reveal_strlit("impl_xs_");
    assert((xs_prefix(package) + name.name)[0] == 'x');
    assert(("impl_xs_"@ + func.sig.ident@.name)[0] == 'i');
}

/// An exported function keeps its place: the expansion starts with it.
pub proof fn law_function_stays_in_place(
    attr: FunctionAttrs,
    func: ItemFn,
    package: Option<Seq<char>>,
    export_public: bool,
    config: Config,
    call_site: Span,
)
    ensures
        item_written(func).is_prefix_of(
            expansion(attr, func, package, export_public, config, call_site),
        ),
{
}

/// A parameter list as it is declared, with all attributes.
pub open spec fn inputs_declared(args: Seq<FnArg>) -> Seq<Tok>
    decreases args.len(),
{
    if args.len() == 0 {
        seq![]
    } else {
        inputs_declared(args.drop_last()) + typed(args.last()).written_with(
            typed(args.last()).attrs@,
        )
    }
}

/// A parameter list in which no attribute says how a parameter is passed is not changed.
pub proof fn law_unmarked_parameters_are_unchanged(args: Seq<FnArg>)
    requires
        forall|i: int, j: int|
            0 <= i < args.len() && 0 <= j < typed(args[i]).attrs@.len()
                ==> ArgumentAttrType::of_attr(#[trigger] typed(args[i]).attrs@[j]) is None,
    ensures
        inputs_written(args) == inputs_declared(args),
    decreases args.len(),
{
    if args.len() > 0 {
        let rest = args.drop_last();
        assert(forall|i: int| 0 <= i < rest.len() ==> #[trigger] rest[i] == args[i]);
        law_unmarked_parameters_are_unchanged(rest);
        assert(args[args.len() - 1] == args.last());
        law_other_attributes_are_kept(typed(args.last()).attrs@);
    }
}

/// Where a function is exported, nothing is reported.
pub proof fn law_export_is_silent(attr: FunctionAttrs, func: ItemFn, call_site: Span)
    requires
        export_error(attr, func, call_site) is None,
    ensures
        export_reports(func).len() == 0,
{
    law_accepted_parameters_are_not_reported(func.sig.inputs@);
}

/// Whether a function can be exported, and what is wrong with it, does not depend on where the
/// macro was invoked.
pub proof fn law_call_site_does_not_decide(
    attr: FunctionAttrs,
    func: ItemFn,
    call_site1: Span,
    call_site2: Span,
)
    ensures
        match (export_error(attr, func, call_site1), export_error(attr, func, call_site2)) {
            (None, None) => true,
            (Some(error1), Some(error2)) => error1.kind == error2.kind,
            _ => false,
        },
{
}

/// As many arguments are expected of Perl, where no parameter is a list, as are taken off what it
/// has passed: one for each parameter but the `CV` pointer.
pub proof fn law_expected_arguments_are_taken(args: Seq<FnArg>)
    requires
        first_arg_error(args) is None,
    ensures
        expected_arguments(args) == args.filter(|arg: FnArg| !is_cv(arg)).len(),
    decreases args.len(),
{
    reveal(Seq::filter);
    if args.len() > 0 {
        law_expected_arguments_are_taken(args.drop_last());
        lemma_has_cv_step(args);
    }
}

/// A derived prototype has one dollar sign for each parameter that is not a list.
pub proof fn law_prototype_counts_parameters(attr: FunctionAttrs, func: ItemFn, call_site: Span)
    requires
        attr.prototype is None,
        prototype_fits(attr, func),
        export_error(attr, func, call_site) is None,
    ensures
        xsub_prototype(attr, func).filter(|c: char| c == '$').len() + list_count(func.sig.inputs@)
            == func.sig.inputs@.len(),
        xsub_prototype(attr, func).contains('@') <==> has_list(func.sig.inputs@),
{
    let args = func.sig.inputs@;
    let required = (args.len() - trailing_options(args) - list_count(args)) as nat;
    law_one_dollar_per_scalar(required, trailing_options(args), has_list(args));
    law_list_marker_comes_last(required, trailing_options(args), has_list(args));
}

/// A function returns nothing to Perl exactly where no return type is written or it hands out the
/// empty tuple on success; a list exactly where it hands out any other tuple, with as many values
/// as the tuple has; and one value for every other type, be it a path, a reference or anything
/// else.
pub proof fn law_what_is_returned(output: ReturnType, count: usize)
    ensures
        ({
            let ret = declared_return(output);
            let tuple = match output {
                ReturnType::Default => None,
                ReturnType::Type(ty) => match success_type(ty) {
                    Type::Tuple(tuple) => Some(tuple.elems@.len()),
                    _ => None,
                },
            };
            &&& ret.value is Nothing <==> output is Default || tuple == Some(0nat)
            &&& ret.value == ReturnValue::Tuple(count) <==> count > 0 && tuple == Some(count as nat)
            &&& ret.value is Single <==> output is Type && tuple is None
            &&& ret.result <==> output is Type && result_type(output->Type_0) is Some
        }),
{
    if let ReturnType::Type(ty) = output {
        if let Type::Tuple(tuple) = success_type(ty) {
            assert(tuple.elems.len() == tuple.elems@.len());
        }
    }
}

/// How many values are returned is the same with and without a `Result` around them.
pub proof fn law_result_does_not_change_the_values(ty: Type, inner: Type)
    requires
        result_type(ty) == Some(inner),
        result_type(inner) is None,
    ensures
        declared_return(ReturnType::Type(ty)).value == declared_return(
            ReturnType::Type(inner),
        ).value,
{
}

} // verus!
