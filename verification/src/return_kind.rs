//! What exported functions return to Perl, and the entry point that Perl calls.

use crate::attribs::FunctionAttrs;
use crate::decimal::decimal;
use crate::error::{error_at_span, Error, ErrorKind, ErrorView};
use crate::ident::{Ident, IdentView};
use crate::reading::{joined, lemma_joined_push, numbers};
use crate::syntax::Visibility;
use crate::tokens::{ident_token, lemma_empty_add, stream_tokens, At, Tok, Writer};
use crate::words::lemma_words;
use proc_macro2::{Span, TokenStream};
use vstd::prelude::*;

verus! {

broadcast use lemma_empty_add;

/// How many values a function returns.
#[derive(Clone, Copy)]
pub enum ReturnValue {
    /// Return nothing. (This is different from returning an implicit undef!)
    Nothing,
    /// Return a single element.
    Single,
    /// We support tuple return types. They act like "list" return types in perl.
    Tuple(usize),
}

/// What a function returns.
#[derive(Clone, Copy)]
pub struct Return {
    /// Whether the function returns a `Result`.
    pub result: bool,
    pub value: ReturnValue,
}

/// The code that treats what a function returns.
pub struct ReturnHandling {
    /// What the function that is called by the entry point hands out on success.
    pub return_type: TokenStream,
    /// The code that calls the function.
    pub handle_return: TokenStream,
    /// The entry point.
    pub wrapper_func: TokenStream,
}

impl Return {
    /// The code that returns an `err` of the function to Perl: nothing for a function that does not
    /// return a `Result`, else
    ///
    /// ```text
    /// return Err(::perlmod::Value::new_string(&format!("{err:#}\n")).into_mortal().into_raw());
    /// ```
    ///
    /// or, where errors are serialized,
    ///
    /// ```text
    /// match ::perlmod::to_value(&err) {
    ///     Ok(err) => return Err(err.into_mortal().into_raw()),
    ///     Err(err) => { return Err(..); }
    /// }
    /// ```
    pub open spec fn error_code(self, serialize_error: bool, span: Span) -> Seq<Tok> {
        let at = At { span };
        if !self.result {
            seq![]
        } else if serialize_error {
            at.word("match"@) + at.seg("perlmod"@) + at.seg("to_value"@) + at.paren(
                at.op('&') + at.word("err"@),
            ) + at.brace(
                at.word("Ok"@) + at.paren(at.word("err"@)) + at.arrow() + at.word("return"@)
                    + at.word("Err"@) + at.paren(
                    at.word("err"@) + at.dot("into_mortal"@) + at.unit() + at.dot("into_raw"@)
                        + at.unit(),
                ) + at.op(',') + at.error_arm(),
            )
        } else {
            at.return_error()
        }
    }

    pub fn return_error_code(&self, attr: &FunctionAttrs, name: &Ident) -> (r: TokenStream)
        ensures
            stream_tokens(r) == self.error_code(attr.serialize_error, name@.span),
    {
        proof {
            lemma_words();
        }
        if !self.result {
            return TokenStream::new();
        }
        let mut w = Writer::new(name.span());
        if attr.serialize_error {
            w.word("match");
            w.seg("perlmod");
            w.seg("to_value");
            let mut argument = w.inner();
            argument.op('&');
            argument.word("err");
            w.paren(argument);
            let mut value = w.inner();
            value.word("err");
            value.dot("into_mortal");
            value.unit();
            value.dot("into_raw");
            value.unit();
            let mut arms = w.inner();
            arms.word("Ok");
            arms.paren_word("err");
            arms.arrow();
            arms.word("return");
            arms.word("Err");
            arms.paren(value);
            arms.op(',');
            arms.error_arm();
            w.brace(arms);
        } else {
            w.return_error();
        }
        w.finish()
    }

    /// The code that hands `errno` on to Perl, where the attribute asks for it:
    ///
    /// ```text
    /// ::perlmod::error::copy_errno_to_libc();
    /// ```
    pub open spec fn errno_code(self, errno: bool, span: Span) -> Seq<Tok> {
        let at = At { span };
        if errno {
            at.seg("perlmod"@) + at.seg("error"@) + at.seg("copy_errno_to_libc"@) + at.unit()
                + at.op(';')
        } else {
            seq![]
        }
    }

    pub fn copy_errno(&self, attr: &FunctionAttrs, name: &Ident) -> (r: TokenStream)
        ensures
            stream_tokens(r) == self.errno_code(attr.errno, name@.span),
    {
        proof {
            lemma_words();
        }
        if attr.errno {
            let mut w = Writer::new(name.span());
            w.seg("perlmod");
            w.seg("error");
            w.seg("copy_errno_to_libc");
            w.unit();
            w.op(';');
            w.finish()
        } else {
            TokenStream::new()
        }
    }
}

/// `n` times the same tokens.
pub open spec fn repeated(tokens: Seq<Tok>, n: nat) -> Seq<Tok>
    decreases n,
{
    if n == 0 {
        seq![]
    } else {
        repeated(tokens, (n - 1) as nat) + tokens
    }
}

impl ReturnValue {
    /// What the function that is called by the entry point hands out on success: nothing, or one
    /// pointer for each value of a list.
    pub open spec fn returned_type(self, span: Span) -> Seq<Tok> {
        let at = At { span };
        match self {
            ReturnValue::Tuple(count) => at.paren(
                repeated(at.sv_pointer() + at.op(','), count as nat),
            ),
            _ => at.unit(),
        }
    }

    fn returned_type_code(&self, span: Span) -> (r: TokenStream)
        ensures
            stream_tokens(r) == self.returned_type(span),
    {
        let mut w = Writer::new(span);
        match self {
            ReturnValue::Tuple(count) => {
                let mut types = w.inner();
                let mut i: usize = 0;
                while i < *count
                    invariant
                        i <= *count,
                        w.at() == (At { span }),
                        types.at() == (At { span }),
                        types.tokens() == repeated(
                            (At { span }).sv_pointer() + (At { span }).op(','),
                            i as nat,
                        ),
                    decreases *count - i,
                {
                    let mut one = w.inner();
                    one.sv_pointer();
                    one.op(',');
                    types.append(one);
                    i += 1;
                }
                w.paren(types);
            },
            _ => w.unit(),
        }
        w.finish()
    }
}

/// The call of a function.
pub open spec fn call(at: At, name: IdentView, passed: Seq<Tok>) -> Seq<Tok> {
    ident_token(name) + at.paren(passed)
}

fn write_call(w: &mut Writer, name: &Ident, passed: &TokenStream)
    ensures
        final(w).tokens() == old(w).tokens() + call(old(w).at(), name@, stream_tokens(*passed)),
        final(w).at() == old(w).at(),
{
    let mut arguments = w.inner();
    arguments.splice(passed);
    let mut called = w.inner();
    called.ident(name);
    called.paren(arguments);
    w.append(called);
}

/// The code that calls a function which returns nothing:
///
/// ```text
/// name(passed);
/// Ok(())
/// ```
///
/// or, where the function returns a `Result`,
///
/// ```text
/// match name(passed) {
///     Ok(()) => (),
///     Err(err) => { error_code }
/// }
/// Ok(())
/// ```
pub open spec fn nothing_code(
    at: At,
    result: bool,
    name: IdentView,
    passed: Seq<Tok>,
    error_code: Seq<Tok>,
) -> Seq<Tok> {
    (if result {
        at.word("match"@) + call(at, name, passed) + at.brace(
            at.word("Ok"@) + at.paren(at.unit()) + at.arrow() + at.unit() + at.op(',') + at.word(
                "Err"@,
            ) + at.paren(at.word("err"@)) + at.arrow() + at.brace(error_code),
        )
    } else {
        call(at, name, passed) + at.op(';')
    }) + at.word("Ok"@) + at.paren(at.unit())
}

fn write_nothing(
    span: Span,
    result: bool,
    name: &Ident,
    passed: &TokenStream,
    error_code: &TokenStream,
) -> (w: Writer)
    ensures
        w.at() == (At { span }),
        w.tokens() == nothing_code(
            At { span },
            result,
            name@,
            stream_tokens(*passed),
            stream_tokens(*error_code),
        ),
{
    proof {
        lemma_words();
    }
    let mut w = Writer::new(span);
    if result {
        w.word("match");
        write_call(&mut w, name, passed);
        let mut unit = w.inner();
        unit.unit();
        let mut failed = w.inner();
        failed.splice(error_code);
        let mut arms = w.inner();
        arms.word("Ok");
        arms.paren(unit);
        arms.arrow();
        arms.unit();
        arms.op(',');
        arms.word("Err");
        arms.paren_word("err");
        arms.arrow();
        arms.brace(failed);
        w.brace(arms);
    } else {
        write_call(&mut w, name, passed);
        w.op(';');
    }
    let mut unit = w.inner();
    unit.unit();
    w.word("Ok");
    w.paren(unit);
    w
}

/// The code that calls a function and binds what it returns:
///
/// ```text
/// let result = name(passed);
/// ```
///
/// or, where the function returns a `Result`,
///
/// ```text
/// let result = match name(passed) {
///     Ok(output) => output,
///     Err(err) => { error_code }
/// };
/// ```
pub open spec fn bound_result(
    at: At,
    result: bool,
    name: IdentView,
    passed: Seq<Tok>,
    error_code: Seq<Tok>,
) -> Seq<Tok> {
    at.word("let"@) + at.word("result"@) + at.op('=') + (if result {
        at.word("match"@) + call(at, name, passed) + at.brace(
            at.word("Ok"@) + at.paren(at.word("output"@)) + at.arrow() + at.word("output"@)
                + at.op(',') + at.word("Err"@) + at.paren(at.word("err"@)) + at.arrow() + at.brace(
                error_code,
            ),
        )
    } else {
        call(at, name, passed)
    }) + at.op(';')
}

fn write_bound_result(
    span: Span,
    result: bool,
    name: &Ident,
    passed: &TokenStream,
    error_code: &TokenStream,
) -> (w: Writer)
    ensures
        w.at() == (At { span }),
        w.tokens() == bound_result(
            At { span },
            result,
            name@,
            stream_tokens(*passed),
            stream_tokens(*error_code),
        ),
{
    proof {
        lemma_words();
    }
    let mut value = Writer::new(span);
    if result {
        value.word("match");
        write_call(&mut value, name, passed);
        let mut failed = value.inner();
        failed.splice(error_code);
        let mut arms = value.inner();
        arms.word("Ok");
        arms.paren_word("output");
        arms.arrow();
        arms.word("output");
        arms.op(',');
        arms.word("Err");
        arms.paren_word("err");
        arms.arrow();
        arms.brace(failed);
        value.brace(arms);
    } else {
        write_call(&mut value, name, passed);
    }
    let mut w = Writer::new(span);
    w.word("let");
    w.word("result");
    w.op('=');
    w.append(value);
    w.op(';');
    w
}

/// The code that returns the one value of a function to Perl:
///
/// ```text
/// match ::perlmod::ser::to_return_value(&result) {
///     Ok(rv) => Ok(rv.__private_push_to_stack()),
///     Err(err) => Err(
///         ::perlmod::Value::new_string(&format!("{err:#}\n")).into_mortal().into_raw()
///     ),
/// }
/// ```
///
/// or, where the value is returned as it is,
///
/// ```text
/// unsafe {
///     ::perlmod::ffi::stack_push_raw(result.into_mortal().into_raw());
/// }
/// Ok(())
/// ```
pub open spec fn returned_single(at: At, raw_return: bool) -> Seq<Tok> {
    if raw_return {
        at.word("unsafe"@) + at.brace(
            at.seg("perlmod"@) + at.seg("ffi"@) + at.seg("stack_push_raw"@) + at.paren(
                at.word("result"@) + at.dot("into_mortal"@) + at.unit() + at.dot("into_raw"@)
                    + at.unit(),
            ) + at.op(';'),
        ) + at.word("Ok"@) + at.paren(at.unit())
    } else {
        at.word("match"@) + at.seg("perlmod"@) + at.seg("ser"@) + at.seg("to_return_value"@)
            + at.paren(at.op('&') + at.word("result"@)) + at.brace(
            at.word("Ok"@) + at.paren(at.word("rv"@)) + at.arrow() + at.word("Ok"@) + at.paren(
                at.word("rv"@) + at.dot("__private_push_to_stack"@) + at.unit(),
            ) + at.op(',') + at.word("Err"@) + at.paren(at.word("err"@)) + at.arrow() + at.raised(
                at.error_text(),
            ) + at.op(','),
        )
    }
}

fn write_returned_single(w: &mut Writer, raw_return: bool)
    ensures
        final(w).tokens() == old(w).tokens() + returned_single(old(w).at(), raw_return),
        final(w).at() == old(w).at(),
{
    proof {
        lemma_words();
    }
    let mut code = w.inner();
    if raw_return {
        let mut value = w.inner();
        value.word("result");
        value.dot("into_mortal");
        value.unit();
        value.dot("into_raw");
        value.unit();
        let mut body = w.inner();
        body.seg("perlmod");
        body.seg("ffi");
        body.seg("stack_push_raw");
        body.paren(value);
        body.op(';');
        let mut unit = w.inner();
        unit.unit();
        code.word("unsafe");
        code.brace(body);
        code.word("Ok");
        code.paren(unit);
    } else {
        let mut argument = w.inner();
        argument.op('&');
        argument.word("result");
        let mut pushed = w.inner();
        pushed.word("rv");
        pushed.dot("__private_push_to_stack");
        pushed.unit();
        let mut text = w.inner();
        text.error_text();
        let mut arms = w.inner();
        arms.word("Ok");
        arms.paren_word("rv");
        arms.arrow();
        arms.word("Ok");
        arms.paren(pushed);
        arms.op(',');
        arms.word("Err");
        arms.paren_word("err");
        arms.arrow();
        arms.raised(text);
        arms.op(',');
        code.word("match");
        code.seg("perlmod");
        code.seg("ser");
        code.seg("to_return_value");
        code.paren(argument);
        code.brace(arms);
    }
    w.append(code);
}

/// The code for value `i` of a returned list:
///
/// ```text
/// match ::perlmod::to_value(&result.i) {
///     Ok(value) => value.into_mortal().into_raw(),
///     Err(err) => return Err(..),
/// },
/// ```
///
/// or, where the values are returned as they are,
///
/// ```text
/// (result.i).into_mortal().into_raw(),
/// ```
pub open spec fn list_value(at: At, call_site: Span, raw_return: bool, i: nat) -> Seq<Tok> {
    let index = (At { span: call_site }).integer(i);
    if raw_return {
        at.paren(at.word("result"@) + at.op('.') + index) + at.dot("into_mortal"@) + at.unit()
            + at.dot("into_raw"@) + at.unit() + at.op(',')
    } else {
        at.word("match"@) + at.seg("perlmod"@) + at.seg("to_value"@) + at.paren(
            at.op('&') + at.word("result"@) + at.op('.') + index,
        ) + at.brace(
            at.word("Ok"@) + at.paren(at.word("value"@)) + at.arrow() + at.word("value"@) + at.dot(
                "into_mortal"@,
            ) + at.unit() + at.dot("into_raw"@) + at.unit() + at.op(',') + at.word("Err"@)
                + at.paren(at.word("err"@)) + at.arrow() + at.word("return"@) + at.raised(
                at.error_text(),
            ) + at.op(','),
        ) + at.op(',')
    }
}

fn write_list_value(span: Span, call_site: Span, raw_return: bool, i: usize) -> (w: Writer)
    ensures
        w.at() == (At { span }),
        w.tokens() == list_value(At { span }, call_site, raw_return, i as nat),
{
    proof {
        lemma_words();
    }
    let mut w = Writer::new(span);
    if raw_return {
        let mut field = w.inner();
        field.word("result");
        field.op('.');
        field.integer_at(i, call_site);
        w.paren(field);
        w.dot("into_mortal");
        w.unit();
        w.dot("into_raw");
        w.unit();
        w.op(',');
    } else {
        let mut field = w.inner();
        field.op('&');
        field.word("result");
        field.op('.');
        field.integer_at(i, call_site);
        let mut text = w.inner();
        text.error_text();
        let mut arms = w.inner();
        arms.word("Ok");
        arms.paren_word("value");
        arms.arrow();
        arms.word("value");
        arms.dot("into_mortal");
        arms.unit();
        arms.dot("into_raw");
        arms.unit();
        arms.op(',');
        arms.word("Err");
        arms.paren_word("err");
        arms.arrow();
        arms.word("return");
        arms.raised(text);
        arms.op(',');
        w.word("match");
        w.seg("perlmod");
        w.seg("to_value");
        w.paren(field);
        w.brace(arms);
        w.op(',');
    }
    w
}

/// The code for the first `count` values of a returned list.
pub open spec fn list_values(at: At, call_site: Span, raw_return: bool, count: nat) -> Seq<Tok>
    decreases count,
{
    if count == 0 {
        seq![]
    } else {
        list_values(at, call_site, raw_return, (count - 1) as nat) + list_value(
            at,
            call_site,
            raw_return,
            (count - 1) as nat,
        )
    }
}

fn write_list_values(span: Span, call_site: Span, raw_return: bool, count: usize) -> (w: Writer)
    ensures
        w.at() == (At { span }),
        w.tokens() == list_values(At { span }, call_site, raw_return, count as nat),
{
    let mut w = Writer::new(span);
    let mut i: usize = 0;
    while i < count
        invariant
            i <= count,
            w.at() == (At { span }),
            w.tokens() == list_values(At { span }, call_site, raw_return, i as nat),
        decreases count - i,
    {
        w.append(write_list_value(span, call_site, raw_return, i));
        i += 1;
    }
    w
}

/// The code that puts value `i` of a list on the stack, behind the one before it:
///
/// ```text
/// sp = sp.add(1);
/// *sp = sv.i;
/// ```
pub open spec fn stacked_value(at: At, call_site: Span, i: nat) -> Seq<Tok> {
    at.word("sp"@) + at.op('=') + at.word("sp"@) + at.dot("add"@) + at.paren(at.integer(1))
        + at.op(';') + at.op('*') + at.word("sp"@) + at.op('=') + at.word("sv"@) + at.op('.') + (
    At { span: call_site }).integer(i) + at.op(';')
}

/// The code that puts the first `count` values of a list, without the very first one, on the stack.
pub open spec fn stacked_values(at: At, call_site: Span, count: nat) -> Seq<Tok>
    decreases count,
{
    if count <= 1 {
        seq![]
    } else {
        stacked_values(at, call_site, (count - 1) as nat) + stacked_value(
            at,
            call_site,
            (count - 1) as nat,
        )
    }
}

/// The code that returns a list to Perl:
///
/// ```text
/// ::perlmod::ffi::RSPL_stack_resize_by(count);
/// let mut sp = ::perlmod::ffi::RSPL_stack_sp().sub(count - 1);
/// *sp = sv.0;
/// ```
///
/// and then the same for each further value.
pub open spec fn pushed_list(at: At, call_site: Span, count: nat) -> Seq<Tok> {
    let literal = At { span: call_site };
    at.seg("perlmod"@) + at.seg("ffi"@) + at.seg("RSPL_stack_resize_by"@) + at.paren(
        literal.integer(count),
    ) + at.op(';') + at.word("let"@) + at.word("mut"@) + at.word("sp"@) + at.op('=') + at.seg(
        "perlmod"@,
    ) + at.seg("ffi"@) + at.seg("RSPL_stack_sp"@) + at.unit() + at.dot("sub"@) + at.paren(
        literal.integer((count - 1) as nat),
    ) + at.op(';') + at.op('*') + at.word("sp"@) + at.op('=') + at.word("sv"@) + at.op('.')
        + at.integer(0) + at.op(';') + stacked_values(at, call_site, count)
}

fn write_pushed_list(span: Span, call_site: Span, count: usize) -> (w: Writer)
    requires
        count > 0,
    ensures
        w.at() == (At { span }),
        w.tokens() == pushed_list(At { span }, call_site, count as nat),
{
    proof {
        lemma_words();
    }
    let mut size = Writer::new(span);
    size.integer_at(count, call_site);
    let mut offset = Writer::new(span);
    offset.integer_at(count - 1, call_site);

    let mut rest = Writer::new(span);
    let mut i: usize = 1;
    while i < count
        invariant
            1 <= i <= count,
            rest.at() == (At { span }),
            rest.tokens() == stacked_values(At { span }, call_site, i as nat),
        decreases count - i,
    {
        proof {
            lemma_words();
        }
        let mut one = rest.inner();
        one.integer(1);
        let mut value = rest.inner();
        value.word("sp");
        value.op('=');
        value.word("sp");
        value.dot("add");
        value.paren(one);
        value.op(';');
        value.op('*');
        value.word("sp");
        value.op('=');
        value.word("sv");
        value.op('.');
        value.integer_at(i, call_site);
        value.op(';');
        rest.append(value);
        i += 1;
    }

    let mut w = Writer::new(span);
    w.seg("perlmod");
    w.seg("ffi");
    w.seg("RSPL_stack_resize_by");
    w.paren(size);
    w.op(';');
    w.word("let");
    w.word("mut");
    w.word("sp");
    w.op('=');
    w.seg("perlmod");
    w.seg("ffi");
    w.seg("RSPL_stack_sp");
    w.unit();
    w.dot("sub");
    w.paren(offset);
    w.op(';');
    w.op('*');
    w.word("sp");
    w.op('=');
    w.word("sv");
    w.op('.');
    w.integer(0);
    w.op(';');
    w.append(rest);
    w
}

/// What stands before the entry point: the visibility of the function, and that its name is not
/// mangled, where it is public for the linker.
pub open spec fn entry_visibility(at: At, export_public: Option<Visibility>) -> Seq<Tok> {
    match export_public {
        Some(vis) => at.attribute("unsafe"@, "no_mangle"@) + vis.written(),
        None => at.attribute("allow"@, "non_snake_case"@),
    }
}

fn write_entry_visibility(span: Span, export_public: Option<&Visibility>) -> (w: Writer)
    ensures
        w.at() == (At { span }),
        w.tokens() == entry_visibility(
            At { span },
            match export_public {
                Some(vis) => Some(*vis),
                None => None,
            },
        ),
{
    proof {
        lemma_words();
    }
    let mut w = Writer::new(span);
    match export_public {
        Some(vis) => {
            w.attribute("unsafe", "no_mangle");
            match vis {
                Visibility::Inherited => {
                    assert(w.tokens() + Seq::<Tok>::empty() =~= w.tokens());
                },
                Visibility::Given(tokens) => w.splice(tokens),
            }
        },
        None => w.attribute("allow", "non_snake_case"),
    }
    w
}

/// The entry point that Perl calls:
///
/// ```text
/// #[doc(hidden)]
/// vis extern "C" fn xs_name(pthx cv: *mut ::perlmod::ffi::CV) {
///     unsafe {
///         let res = impl_xs_name(::perlmod::Value::from_raw_ref(cv as *mut ::perlmod::ffi::SV));
///         copy_errno
///         match res {
///             success
///             Err(sv) => ::perlmod::ffi::croak(sv),
///         }
///     }
/// }
/// ```
///
/// Where the function takes no `CV`, the parameter is called `_cv` and is not handed on.
pub open spec fn entry_point(
    at: At,
    vis: Seq<Tok>,
    xs_name: IdentView,
    impl_xs_name: IdentView,
    pthx: Seq<Tok>,
    cv_arg: bool,
    copy_errno: Seq<Tok>,
    success: Seq<Tok>,
) -> Seq<Tok> {
    at.attribute("doc"@, "hidden"@) + vis + at.word("extern"@) + at.string("C"@) + at.word("fn"@)
        + ident_token(xs_name) + at.paren(
        pthx + at.word(
            if cv_arg {
                "cv"@
            } else {
                "_cv"@
            },
        ) + at.op(':') + at.op('*') + at.word("mut"@) + at.seg("perlmod"@) + at.seg("ffi"@)
            + at.seg("CV"@),
    ) + at.brace(
        at.word("unsafe"@) + at.brace(
            at.word("let"@) + at.word("res"@) + at.op('=') + ident_token(impl_xs_name) + at.paren(
                if cv_arg {
                    at.seg("perlmod"@) + at.seg("Value"@) + at.seg("from_raw_ref"@) + at.paren(
                        at.word("cv"@) + at.word("as"@) + at.sv_pointer(),
                    )
                } else {
                    seq![]
                },
            ) + at.op(';') + copy_errno + at.word("match"@) + at.word("res"@) + at.brace(
                success + at.word("Err"@) + at.paren(at.word("sv"@)) + at.arrow() + at.seg(
                    "perlmod"@,
                ) + at.seg("ffi"@) + at.seg("croak"@) + at.paren(at.word("sv"@)) + at.op(','),
            ),
        ),
    )
}

fn write_entry_point(
    vis: Writer,
    xs_name: &Ident,
    impl_xs_name: &Ident,
    pthx: &TokenStream,
    cv_arg: bool,
    copy_errno: &TokenStream,
    success: Writer,
) -> (w: Writer)
    ensures
        w.tokens() == entry_point(
            vis.at(),
            vis.tokens(),
            xs_name@,
            impl_xs_name@,
            stream_tokens(*pthx),
            cv_arg,
            stream_tokens(*copy_errno),
            success.tokens(),
        ),
{
    proof {
        lemma_words();
    }
    let mut w = vis.inner();

    let mut parameter = w.inner();
    parameter.splice(pthx);
    if cv_arg {
        parameter.word("cv");
    } else {
        parameter.word("_cv");
    }
    parameter.op(':');
    parameter.op('*');
    parameter.word("mut");
    parameter.seg("perlmod");
    parameter.seg("ffi");
    parameter.seg("CV");

    let mut passed = w.inner();
    if cv_arg {
        let mut pointer = w.inner();
        pointer.word("cv");
        pointer.word("as");
        pointer.sv_pointer();
        passed.seg("perlmod");
        passed.seg("Value");
        passed.seg("from_raw_ref");
        passed.paren(pointer);
    }

    let mut arms = w.inner();
    arms.append(success);
    arms.word("Err");
    arms.paren_word("sv");
    arms.arrow();
    arms.seg("perlmod");
    arms.seg("ffi");
    arms.seg("croak");
    arms.paren_word("sv");
    arms.op(',');

    let mut body = w.inner();
    body.word("let");
    body.word("res");
    body.op('=');
    body.ident(impl_xs_name);
    body.paren(passed);
    body.op(';');
    body.splice(copy_errno);
    body.word("match");
    body.word("res");
    body.brace(arms);

    let mut block = w.inner();
    block.word("unsafe");
    block.brace(body);

    w.attribute("doc", "hidden");
    w.append(vis);
    w.word("extern");
    w.string("C");
    w.word("fn");
    w.ident(xs_name);
    w.paren(parameter);
    w.brace(block);
    w
}

/// The code that calls a function and hands out what it returns.
pub open spec fn return_code(
    at: At,
    call_site: Span,
    ret: Return,
    raw_return: bool,
    name: IdentView,
    passed: Seq<Tok>,
    error_code: Seq<Tok>,
) -> Seq<Tok> {
    match ret.value {
        ReturnValue::Nothing => nothing_code(at, ret.result, name, passed, error_code),
        ReturnValue::Single => bound_result(at, ret.result, name, passed, error_code)
            + returned_single(at, raw_return),
        ReturnValue::Tuple(count) => bound_result(at, ret.result, name, passed, error_code)
            + at.word("Ok"@) + at.paren(
            at.paren(list_values(at, call_site, raw_return, count as nat)),
        ),
    }
}

/// What the entry point does with what the function that it calls hands out: nothing, or put the
/// list on the stack.
pub open spec fn success_arm(at: At, call_site: Span, value: ReturnValue) -> Seq<Tok> {
    match value {
        ReturnValue::Tuple(count) => at.word("Ok"@) + at.paren(at.word("sv"@)) + at.arrow()
            + at.brace(pushed_list(at, call_site, count as nat)) + at.op(','),
        _ => at.word("Ok"@) + at.paren(at.unit()) + at.arrow() + at.unit() + at.op(','),
    }
}

/// What is wrong with what a function returns.
pub open spec fn return_error(ret: Return, raw_return: bool, call_site: Span) -> Option<ErrorView> {
    if ret.value is Nothing && raw_return {
        Some(error_at_span(call_site, ErrorKind::RawReturnWithoutValue))
    } else {
        None
    }
}

/// Writes the code that calls a function and returns to Perl what it returns, and the entry point
/// that Perl calls. `pthx` are the tokens of the interpreter parameter, if the entry point has one,
/// and `call_site` is where the macro was invoked.
pub fn handle_return_kind(
    attr: &FunctionAttrs,
    ret: Return,
    name: &Ident,
    xs_name: &Ident,
    impl_xs_name: &Ident,
    passed_arguments: TokenStream,
    export_public: Option<&Visibility>,
    cv_arg: bool,
    pthx: &TokenStream,
    call_site: Span,
) -> (r: Result<ReturnHandling, Error>)
    requires
        ret.value matches ReturnValue::Tuple(count) ==> count > 0,
    ensures
        match return_error(ret, attr.raw_return, call_site) {
            Some(error) => r is Err && r->Err_0@ == error,
            None => {
                let at = At { span: name@.span };
                &&& r is Ok
                &&& stream_tokens(r->Ok_0.return_type) == ret.value.returned_type(name@.span)
                &&& stream_tokens(r->Ok_0.handle_return) == return_code(
                    at,
                    call_site,
                    ret,
                    attr.raw_return,
                    name@,
                    stream_tokens(passed_arguments),
                    ret.error_code(attr.serialize_error, name@.span),
                )
                &&& stream_tokens(r->Ok_0.wrapper_func) == entry_point(
                    at,
                    entry_visibility(
                        at,
                        match export_public {
                            Some(vis) => Some(*vis),
                            None => None,
                        },
                    ),
                    xs_name@,
                    impl_xs_name@,
                    stream_tokens(*pthx),
                    cv_arg,
                    ret.errno_code(attr.errno, name@.span),
                    success_arm(at, call_site, ret.value),
                )
            },
        },
{
    proof {
        lemma_words();
    }
    let span = name.span();
    let vis = write_entry_visibility(span, export_public);
    let return_error = ret.return_error_code(attr, name);
    let copy_errno = ret.copy_errno(attr, name);
    let return_type = ret.value.returned_type_code(span);

    let mut success = Writer::new(span);
    let handle_return = match ret.value {
        ReturnValue::Nothing => {
            if attr.raw_return {
                return Err(Error::new(call_site, ErrorKind::RawReturnWithoutValue));
            }
            let mut unit = success.inner();
            unit.unit();
            success.word("Ok");
            success.paren(unit);
            success.arrow();
            success.unit();
            success.op(',');
            write_nothing(span, ret.result, name, &passed_arguments, &return_error)
        },
        ReturnValue::Single => {
            let mut unit = success.inner();
            unit.unit();
            success.word("Ok");
            success.paren(unit);
            success.arrow();
            success.unit();
            success.op(',');
            let mut code = write_bound_result(
                span,
                ret.result,
                name,
                &passed_arguments,
                &return_error,
            );
            write_returned_single(&mut code, attr.raw_return);
            code
        },
        ReturnValue::Tuple(count) => {
            success.word("Ok");
            success.paren_word("sv");
            success.arrow();
            success.brace(write_pushed_list(span, call_site, count));
            success.op(',');
            let mut code = write_bound_result(
                span,
                ret.result,
                name,
                &passed_arguments,
                &return_error,
            );
            let mut tuple = code.inner();
            tuple.paren(write_list_values(span, call_site, attr.raw_return, count));
            code.word("Ok");
            code.paren(tuple);
            code
        },
    };
    let wrapper_func = write_entry_point(
        vis,
        xs_name,
        impl_xs_name,
        pthx,
        cv_arg,
        &copy_errno,
        success,
    );
    Ok(
        ReturnHandling {
            return_type,
            handle_return: handle_return.finish(),
            wrapper_func: wrapper_func.finish(),
        },
    )
}

/// The values of a list are handed out in their order: the fields of `result` that the code of a
/// list reads are those from the first to the last, each once.
pub proof fn law_list_is_read_in_order(at: At, call_site: Span, raw_return: bool, count: nat)
    ensures
        numbers(list_values(at, call_site, raw_return, count)) == Seq::new(
            count,
            |i: int| decimal(i as nat),
        ),
    decreases count,
{
    broadcast use crate::reading::group_numbers;

    if count > 0 {
        law_list_is_read_in_order(at, call_site, raw_return, (count - 1) as nat);
        let last = list_value(at, call_site, raw_return, (count - 1) as nat);
        assert(numbers(last) == seq![decimal((count - 1) as nat)]);
    }
    assert(numbers(list_values(at, call_site, raw_return, count)) =~= Seq::new(
        count,
        |i: int| decimal(i as nat),
    ));
}

pub(crate) proof fn lemma_list_values(at: At, call_site: Span, raw_return: bool, count: nat)
    ensures
        list_values(at, call_site, raw_return, count) == joined(
            Seq::new(count, |i: int| list_value(at, call_site, raw_return, i as nat)),
        ),
    decreases count,
{
    let pieces = Seq::new(count, |i: int| list_value(at, call_site, raw_return, i as nat));
    if count > 0 {
        let n = (count - 1) as nat;
        let before = Seq::new(n, |i: int| list_value(at, call_site, raw_return, i as nat));
        lemma_list_values(at, call_site, raw_return, n);
        lemma_joined_push(before, list_value(at, call_site, raw_return, n));
        assert(pieces =~= before.push(list_value(at, call_site, raw_return, n)));
    }
}

pub(crate) proof fn lemma_stacked_values(at: At, call_site: Span, count: nat)
    requires
        count > 0,
    ensures
        stacked_values(at, call_site, count) == joined(
            Seq::new((count - 1) as nat, |i: int| stacked_value(at, call_site, (i + 1) as nat)),
        ),
    decreases count,
{
    let n = (count - 1) as nat;
    let pieces = Seq::new(n, |i: int| stacked_value(at, call_site, (i + 1) as nat));
    if count > 1 {
        let before = Seq::new(
            (n - 1) as nat,
            |i: int| stacked_value(at, call_site, (i + 1) as nat),
        );
        lemma_stacked_values(at, call_site, n);
        lemma_joined_push(before, stacked_value(at, call_site, n));
        assert(pieces =~= before.push(stacked_value(at, call_site, n)));
    }
}

/// The entry point makes room for all values of a list, and starts where the first of them belongs:
/// one place less far from the end than there are values. The values follow from the first to the
/// last, each one place behind the one before it.
pub proof fn law_list_is_stacked_in_order(at: At, call_site: Span, count: nat)
    requires
        count > 0,
    ensures
        numbers(pushed_list(at, call_site, count)) == seq![
            decimal(count),
            decimal((count - 1) as nat),
            decimal(0),
        ] + Seq::new(
            (2 * (count - 1)) as nat,
            |i: int|
                if i % 2 == 0 {
                    decimal(1)
                } else {
                    decimal((i / 2 + 1) as nat)
                },
        ),
{
    broadcast use crate::reading::group_numbers;

    lemma_numbers_of_stacked_values(at, call_site, count);
    assert(numbers(pushed_list(at, call_site, count)) =~= seq![
        decimal(count),
        decimal((count - 1) as nat),
        decimal(0),
    ] + numbers(stacked_values(at, call_site, count)));
}

proof fn lemma_numbers_of_stacked_values(at: At, call_site: Span, count: nat)
    requires
        count > 0,
    ensures
        numbers(stacked_values(at, call_site, count)) == Seq::new(
            (2 * (count - 1)) as nat,
            |i: int|
                if i % 2 == 0 {
                    decimal(1)
                } else {
                    decimal((i / 2 + 1) as nat)
                },
        ),
    decreases count,
{
    broadcast use crate::reading::group_numbers;

    if count > 1 {
        let n = (count - 1) as nat;
        lemma_numbers_of_stacked_values(at, call_site, n);
        assert(numbers(stacked_value(at, call_site, n)) =~= seq![decimal(1), decimal(n)]);
    }
    assert(numbers(stacked_values(at, call_site, count)) =~= Seq::new(
        (2 * (count - 1)) as nat,
        |i: int|
            if i % 2 == 0 {
                decimal(1)
            } else {
                decimal((i / 2 + 1) as nat)
            },
    ));
}

/// What is done about an error depends on nothing but `serialize_error`: not on what the function
/// holds on success. A function that returns no `Result` has no errors.
pub proof fn law_errors_are_treated_alike(a: Return, b: Return, serialize_error: bool, span: Span)
    ensures
        a.result == b.result ==> a.error_code(serialize_error, span) == b.error_code(
            serialize_error,
            span,
        ),
        a.error_code(serialize_error, span).len() > 0 <==> a.result,
        a.result && !serialize_error ==> a.error_code(serialize_error, span) == (At {
            span,
        }).return_error(),
        a.result && serialize_error ==> {
            let at = At { span };
            let code = a.error_code(serialize_error, span);
            let asked = at.word("match"@) + at.seg("perlmod"@) + at.seg("to_value"@) + at.paren(
                at.op('&') + at.word("err"@),
            );
            asked.is_prefix_of(code)
        },
        a.errno_code(serialize_error, span) == b.errno_code(serialize_error, span),
{
}

pub(crate) proof fn lemma_repeated(tokens: Seq<Tok>, pieces: Seq<Seq<Tok>>)
    requires
        forall|i: int| 0 <= i < pieces.len() ==> #[trigger] pieces[i] == tokens,
    ensures
        repeated(tokens, pieces.len()) == joined(pieces),
    decreases pieces.len(),
{
    if pieces.len() > 0 {
        let before = pieces.drop_last();
        assert(forall|i: int| 0 <= i < before.len() ==> #[trigger] before[i] == pieces[i]);
        lemma_repeated(tokens, before);
        lemma_joined_push(before, tokens);
        assert(pieces[pieces.len() - 1] == tokens);
        assert(before.push(tokens) =~= pieces);
    }
}

} // verus!
