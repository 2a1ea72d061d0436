//! What holds of every export, stated of the tokens that are handed out and of the function that is
//! exported.

use crate::attribs::FunctionAttrs;
use crate::decimal::decimal;
use crate::error::{Error, ErrorKind, ErrorView, LocationView};
use crate::function::{
    arguments_name, declared_return, expansion, export_reports, finalization, nameable, outcome,
    prototype_fits, visibility_code, Action, Config, XSub,
};
use crate::ident::{ident_tail, spelling, IdentView};
use crate::parameters::{
    arg_name, arg_reports, cv_parameter, deserializations, extractions, first_arg_error, has_cv,
    has_list, inputs_written, is_cv, is_list, law_accepted_parameters, law_list_leaves_room,
    law_marks_decide, law_names_that_can_be_made_up, marked, passed, trailing_options, typed,
};
use crate::reading::{joined, within};
use crate::return_kind::{
    lemma_list_values, lemma_repeated, lemma_stacked_values, list_value, pushed_list,
    return_code, stacked_value, success_arm,
};
use crate::syntax::{FnArg, ItemFn, ReturnType, Type, Visibility};
use crate::tokens::{ident_token, stream_tokens, At, Tok};
use crate::types::{option_type, result_type, success_type};
use proc_macro2::Span;
use vstd::prelude::*;

verus! {

/// A function that is to be exported, and all that is said about it.
pub struct Request {
    pub attr: FunctionAttrs,
    pub func: ItemFn,
    pub package: Option<Seq<char>>,
    pub export_public: bool,
    pub config: Config,
    /// Where the macro was invoked.
    pub call_site: Span,
}

impl Request {
    /// Whether this is what exporting the function comes to.
    pub open spec fn comes_to(self, r: Result<XSub, Error>) -> bool {
        outcome(
            self.attr,
            self.func,
            self.package,
            self.export_public,
            self.config,
            self.call_site,
            r,
        )
    }

    /// Where generated code stands: where the name of the function does.
    pub open spec fn at(self) -> At {
        At { span: self.func.sig.ident@.span }
    }

    /// The parameters of the function.
    pub open spec fn args(self) -> Seq<FnArg> {
        self.func.sig.inputs@
    }

    /// Whether the function returns a `Result`.
    pub open spec fn fallible(self) -> bool {
        self.func.sig.output matches ReturnType::Type(ty) && result_type(ty) is Some
    }

    /// How many values the function returns as a list: those of a tuple.
    pub open spec fn listed(self) -> Option<nat> {
        match self.func.sig.output {
            ReturnType::Type(ty) => match success_type(ty) {
                Type::Tuple(tuple) => Some(tuple.elems@.len()),
                _ => None,
            },
            ReturnType::Default => Some(0),
        }
    }

    /// `name(passed)`
    pub open spec fn call(self) -> Seq<Tok> {
        let name = IdentView {
            name: self.func.sig.ident@.name,
            raw: false,
            span: self.func.sig.ident@.span,
        };
        ident_token(name) + self.at().paren(passed(self.args(), self.at().span))
    }

    /// What is done about an `err` of the function: Perl gets its text, or its serialized value
    /// where the attribute says so.
    pub open spec fn raised_error(self) -> Seq<Tok> {
        let at = self.at();
        let text = at.word("return"@) + at.raised(at.error_text()) + at.op(';');
        if self.attr.serialize_error {
            at.word("match"@) + at.seg("perlmod"@) + at.seg("to_value"@) + at.paren(
                at.op('&') + at.word("err"@),
            ) + at.brace(
                at.word("Ok"@) + at.paren(at.word("err"@)) + at.arrow() + at.word("return"@)
                    + at.word("Err"@) + at.paren(
                    at.word("err"@) + at.dot("into_mortal"@) + at.unit() + at.dot("into_raw"@)
                        + at.unit(),
                ) + at.op(',') + (at.word("Err"@) + at.paren(at.word("err"@)) + at.arrow()
                    + at.brace(text)),
            )
        } else {
            text
        }
    }

    /// The call, or where the function returns a `Result` what it holds on success.
    pub open spec fn value(self) -> Seq<Tok> {
        let at = self.at();
        if self.fallible() {
            at.word("match"@) + self.call() + at.brace(
                at.word("Ok"@) + at.paren(at.word("output"@)) + at.arrow() + at.word("output"@)
                    + at.op(',') + at.word("Err"@) + at.paren(at.word("err"@)) + at.arrow()
                    + at.brace(self.raised_error()),
            )
        } else {
            self.call()
        }
    }

    /// `let result = value;`
    pub open spec fn binding(self) -> Seq<Tok> {
        let at = self.at();
        at.word("let"@) + at.word("result"@) + at.op('=') + self.value() + at.op(';')
    }

    /// The function as it was written, but for the marks of its parameters.
    pub open spec fn kept(self) -> Seq<Tok> {
        stream_tokens(self.func.before) + (At { span: self.func.sig.paren }).paren(
            inputs_written(self.args()) + stream_tokens(self.func.sig.variadic),
        ) + stream_tokens(self.func.after)
    }

    /// The name of the function that the entry point calls.
    pub open spec fn behind(self) -> IdentView {
        let name = self.func.sig.ident@;
        IdentView {
            name: spelling("impl_xs_"@ + name.name, name.span),
            raw: false,
            span: name.span,
        }
    }

    /// The entry point. It calls the function behind it, with the `CV` pointer where a parameter is
    /// marked so; hands on `errno` where the attribute says so; and raises what the call fails
    /// with. It is public for the linker, and as visible as the function, where it is exported
    /// publicly.
    pub open spec fn entry(self, xs_name: IdentView) -> Seq<Tok> {
        let at = self.at();
        let cv = any_marked(self.args(), "cv"@);
        let visibility = if self.export_public {
            at.attribute("unsafe"@, "no_mangle"@) + (match self.func.vis {
                Visibility::Inherited => Seq::<Tok>::empty(),
                Visibility::Given(tokens) => stream_tokens(tokens),
            })
        } else {
            at.attribute("allow"@, "non_snake_case"@)
        };
        let errno = if self.attr.errno {
            at.seg("perlmod"@) + at.seg("error"@) + at.seg("copy_errno_to_libc"@) + at.unit()
                + at.op(';')
        } else {
            Seq::<Tok>::empty()
        };
        let success = match self.listed() {
            Some(count) if count > 0 => at.word("Ok"@) + at.paren(at.word("sv"@)) + at.arrow()
                + at.brace(pushed_list(at, self.call_site, count)) + at.op(','),
            _ => at.word("Ok"@) + at.paren(at.unit()) + at.arrow() + at.unit() + at.op(','),
        };
        let passed = if cv {
            at.seg("perlmod"@) + at.seg("Value"@) + at.seg("from_raw_ref"@) + at.paren(
                at.word("cv"@) + at.word("as"@) + at.sv_pointer(),
            )
        } else {
            Seq::<Tok>::empty()
        };
        at.attribute("doc"@, "hidden"@) + visibility + at.word("extern"@) + at.string("C"@)
            + at.word("fn"@) + ident_token(xs_name) + at.paren(
            stream_tokens(self.config.pthx) + at.word(
                if cv {
                    "cv"@
                } else {
                    "_cv"@
                },
            ) + at.op(':') + at.op('*') + at.word("mut"@) + at.seg("perlmod"@) + at.seg("ffi"@)
                + at.seg("CV"@),
        ) + at.brace(
            at.word("unsafe"@) + at.brace(
                at.word("let"@) + at.word("res"@) + at.op('=') + ident_token(self.behind())
                    + at.paren(passed) + at.op(';') + errno + at.word("match"@) + at.word("res"@)
                    + at.brace(
                    success + at.word("Err"@) + at.paren(at.word("sv"@)) + at.arrow() + at.seg(
                        "perlmod"@,
                    ) + at.seg("ffi"@) + at.seg("croak"@) + at.paren(at.word("sv"@)) + at.op(','),
                ),
            ),
        )
    }

    /// The head of the function behind the entry point. It takes the `CV` pointer where there is
    /// one, and hands out `values`.
    pub open spec fn head(self, values: Seq<Tok>) -> Seq<Tok> {
        let at = self.at();
        at.attribute("inline"@, "never"@) + at.attribute("allow"@, "non_snake_case"@) + at.word(
            "fn"@,
        ) + ident_token(self.behind()) + at.paren(cv_parameter(self.args(), at.span)) + at.op2(
            '-',
            '>',
        ) + at.word("Result"@) + at.op('<') + at.paren(values) + at.op(',') + at.sv_pointer()
            + at.op('>')
    }

    /// The complaint of a function that is not public, where that is not allowed: a warning or an
    /// error, as is asked for.
    pub open spec fn complaint(self) -> Seq<Tok> {
        let at = self.at();
        let text = at.string("exported function must be public"@);
        match (self.func.vis, self.config.non_pub_exports) {
            (Visibility::Inherited, Action::Warn) => at.brace(
                at.word("non_pub_export"@) + at.unit() + at.op(';') + at.op('#') + at.bracket(
                    at.word("deprecated"@) + at.op('=') + text,
                ) + at.word("fn"@) + at.word("non_pub_export"@) + at.unit() + at.brace(
                    Seq::<Tok>::empty(),
                ),
            ),
            (Visibility::Inherited, Action::Deny) => at.word("compile_error"@) + at.op('!')
                + at.paren(text) + at.op(';'),
            _ => Seq::<Tok>::empty(),
        }
    }

    /// The check that no arguments are left, which tells how many are expected. A `#[list]` leaves
    /// none, and the `#[cv]` is not among them.
    pub open spec fn surplus(self) -> Seq<Tok> {
        let at = self.at();
        let arguments = IdentView { name: "args"@, raw: false, span: at.span };
        let expected = self.args().len() - (if any_marked(self.args(), "cv"@) {
            1int
        } else {
            0int
        });
        if any_marked(self.args(), "list"@) {
            Seq::<Tok>::empty()
        } else {
            at.word("if"@) + ident_token(arguments) + at.dot("next"@) + at.unit() + at.dot(
                "is_some"@,
            ) + at.unit() + at.brace(
                at.word("return"@) + at.raised(
                    (At { span: self.call_site }).string(
                        "too many parameters for function '"@ + self.func.sig.ident@.name
                            + "', (expected "@ + decimal(expected as nat) + ")\n"@,
                    ),
                ) + at.op(';'),
            )
        }
    }
}

/// The call of a function that returns one value is followed by the code which hands `result` to
/// Perl: as it is with `raw_return`, and serialized without it. Nothing else decides that, least of
/// all whether the function returns a `Result`.
pub proof fn law_one_value_is_returned(q: Request, xsub: XSub)
    requires
        q.comes_to(Ok(xsub)),
        q.listed() is None,
    ensures
        ({
            let at = q.at();
            let handed = if q.attr.raw_return {
                at.word("unsafe"@) + at.brace(
                    at.seg("perlmod"@) + at.seg("ffi"@) + at.seg("stack_push_raw"@) + at.paren(
                        at.word("result"@) + at.dot("into_mortal"@) + at.unit() + at.dot(
                            "into_raw"@,
                        ) + at.unit(),
                    ) + at.op(';'),
                ) + at.word("Ok"@) + at.paren(at.unit())
            } else {
                at.word("match"@) + at.seg("perlmod"@) + at.seg("ser"@) + at.seg(
                    "to_return_value"@,
                ) + at.paren(at.op('&') + at.word("result"@)) + at.brace(
                    at.word("Ok"@) + at.paren(at.word("rv"@)) + at.arrow() + at.word("Ok"@)
                        + at.paren(at.word("rv"@) + at.dot("__private_push_to_stack"@) + at.unit())
                        + at.op(',') + at.word("Err"@) + at.paren(at.word("err"@)) + at.arrow()
                        + at.raised(at.error_text()) + at.op(','),
                )
            };
            within(
                stream_tokens(xsub.tokens),
                at.word("move"@) + at.op2('|', '|') + at.brace(q.binding() + handed),
            )
        }),
{
    broadcast use crate::reading::group_within;
}

/// The call of a function that returns nothing hands nothing to Perl.
pub proof fn law_nothing_is_returned(q: Request, xsub: XSub)
    requires
        q.comes_to(Ok(xsub)),
        q.listed() == Some(0nat),
    ensures
        ({
            let at = q.at();
            let called = if q.fallible() {
                at.word("match"@) + q.call() + at.brace(
                    at.word("Ok"@) + at.paren(at.unit()) + at.arrow() + at.unit() + at.op(',')
                        + at.word("Err"@) + at.paren(at.word("err"@)) + at.arrow() + at.brace(
                        q.raised_error(),
                    ),
                )
            } else {
                q.call() + at.op(';')
            };
            within(
                stream_tokens(xsub.tokens),
                at.word("move"@) + at.op2('|', '|') + at.brace(
                    called + at.word("Ok"@) + at.paren(at.unit()),
                ),
            )
        }),
{
    broadcast use crate::reading::group_within;
}

/// The call of a function that returns a tuple is followed by the code which hands out its fields,
/// from the first to the last: as they are with `raw_return`, and serialized without it.
pub proof fn law_list_is_returned(q: Request, xsub: XSub, values: Seq<Seq<Tok>>)
    requires
        q.comes_to(Ok(xsub)),
        q.listed() == Some(values.len()),
        values.len() > 0,
        forall|i: int|
            0 <= i < values.len() ==> #[trigger] values[i] == ({
                let at = q.at();
                let index = (At { span: q.call_site }).integer(i as nat);
                if q.attr.raw_return {
                    at.paren(at.word("result"@) + at.op('.') + index) + at.dot("into_mortal"@)
                        + at.unit() + at.dot("into_raw"@) + at.unit() + at.op(',')
                } else {
                    at.word("match"@) + at.seg("perlmod"@) + at.seg("to_value"@) + at.paren(
                        at.op('&') + at.word("result"@) + at.op('.') + index,
                    ) + at.brace(
                        at.word("Ok"@) + at.paren(at.word("value"@)) + at.arrow() + at.word(
                            "value"@,
                        ) + at.dot("into_mortal"@) + at.unit() + at.dot("into_raw"@) + at.unit()
                            + at.op(',') + at.word("Err"@) + at.paren(at.word("err"@)) + at.arrow()
                            + at.word("return"@) + at.raised(at.error_text()) + at.op(','),
                    ) + at.op(',')
                }
            }),
    ensures
        within(
            stream_tokens(xsub.tokens),
            q.at().word("move"@) + q.at().op2('|', '|') + q.at().brace(
                q.binding() + q.at().word("Ok"@) + q.at().paren(q.at().paren(joined(values))),
            ),
        ),
{
    broadcast use crate::reading::group_within;

    lemma_listed(q);
    let code = Seq::new(
        values.len(),
        |i: int| list_value(q.at(), q.call_site, q.attr.raw_return, i as nat),
    );
    lemma_list_values(q.at(), q.call_site, q.attr.raw_return, values.len());
    assert(values =~= code);
}

/// The entry point of a function that returns a tuple makes room for as many values as there are,
/// and puts them there from the first to the last.
pub proof fn law_list_is_stacked(q: Request, xsub: XSub, count: nat, further: Seq<Seq<Tok>>)
    requires
        q.comes_to(Ok(xsub)),
        q.listed() == Some(count),
        count > 0,
        further.len() == count - 1,
        forall|i: int|
            0 <= i < further.len() ==> #[trigger] further[i] == ({
                let at = q.at();
                at.word("sp"@) + at.op('=') + at.word("sp"@) + at.dot("add"@) + at.paren(
                    at.integer(1),
                ) + at.op(';') + at.op('*') + at.word("sp"@) + at.op('=') + at.word("sv"@) + at.op(
                    '.',
                ) + (At { span: q.call_site }).integer((i + 1) as nat) + at.op(';')
            }),
    ensures
        ({
            let at = q.at();
            let literal = At { span: q.call_site };
            let room = at.seg("perlmod"@) + at.seg("ffi"@) + at.seg("RSPL_stack_resize_by"@)
                + at.paren(literal.integer(count)) + at.op(';') + at.word("let"@) + at.word("mut"@)
                + at.word("sp"@) + at.op('=') + at.seg("perlmod"@) + at.seg("ffi"@) + at.seg(
                "RSPL_stack_sp"@,
            ) + at.unit() + at.dot("sub"@) + at.paren(literal.integer((count - 1) as nat)) + at.op(
                ';',
            );
            let first = room + at.op('*') + at.word("sp"@) + at.op('=') + at.word("sv"@) + at.op(
                '.',
            ) + at.integer(0) + at.op(';');
            within(
                stream_tokens(xsub.tokens),
                at.word("Ok"@) + at.paren(at.word("sv"@)) + at.arrow() + at.brace(
                    first + joined(further),
                ) + at.op(','),
            )
        }),
{
    broadcast use crate::reading::group_within;

    lemma_listed(q);
    let code = Seq::new(
        (count - 1) as nat,
        |i: int| stacked_value(q.at(), q.call_site, (i + 1) as nat),
    );
    lemma_stacked_values(q.at(), q.call_site, count);
    assert(further =~= code);
    lemma_within_arms(
        success_arm(q.at(), q.call_site, declared_return(q.func.sig.output).value),
        q,
    );
}

/// No more values are returned than a machine integer counts.
proof fn lemma_listed(q: Request)
    ensures
        q.listed() matches Some(count) ==> count <= usize::MAX,
{
    if let ReturnType::Type(ty) = q.func.sig.output {
        if let Type::Tuple(tuple) = success_type(ty) {
            assert(tuple.elems.len() == tuple.elems@.len());
        }
    }
}

/// The arms of the entry point start with that for success.
proof fn lemma_within_arms(success: Seq<Tok>, q: Request)
    requires
        success == success_arm(q.at(), q.call_site, declared_return(q.func.sig.output).value),
    ensures
        within(
            expansion(q.attr, q.func, q.package, q.export_public, q.config, q.call_site),
            success,
        ),
{
    broadcast use crate::reading::group_within;

}

/// The error of a function that returns a `Result` is raised in Perl, as its text or, with
/// `serialize_error` and only then, as a serialized value; whatever the function holds on success.
pub proof fn law_errors_are_raised(q: Request, xsub: XSub)
    requires
        q.comes_to(Ok(xsub)),
        q.fallible(),
    ensures
        ({
            let at = q.at();
            let success = if q.listed() == Some(0nat) {
                at.word("Ok"@) + at.paren(at.unit()) + at.arrow() + at.unit()
            } else {
                at.word("Ok"@) + at.paren(at.word("output"@)) + at.arrow() + at.word("output"@)
            };
            within(
                stream_tokens(xsub.tokens),
                at.word("match"@) + q.call() + at.brace(
                    success + at.op(',') + at.word("Err"@) + at.paren(at.word("err"@)) + at.arrow()
                        + at.brace(q.raised_error()),
                ),
            )
        }),
{
    broadcast use crate::reading::group_within;

}

/// Whether a parameter is marked `#[word]`, for some parameter of the function.
pub open spec fn any_marked(args: Seq<FnArg>, word: Seq<char>) -> bool {
    exists|i: int| 0 <= i < args.len() && marked(#[trigger] args[i], word)
}

/// The marks of parameters that nothing is wrong with say which of them is the `CV` pointer and
/// which is a list.
proof fn lemma_marks(q: Request)
    requires
        first_arg_error(q.args()) is None,
    ensures
        has_cv(q.args()) == any_marked(q.args(), "cv"@),
        has_list(q.args()) == any_marked(q.args(), "list"@),
        has_cv(q.args()) ==> q.args().len() > 0,
{
    let args = q.args();
    law_accepted_parameters(args);
    assert forall|i: int| 0 <= i < args.len() implies marked(#[trigger] args[i], "cv"@) == is_cv(
        args[i],
    ) && marked(args[i], "list"@) == is_list(args[i]) by {
        law_marks_decide(args[i], q.at().span);
    }
    if has_cv(args) {
        let i = choose|i: int| 0 <= i < args.len() && is_cv(#[trigger] args[i]);
        assert(marked(args[i], "cv"@));
    }
    if any_marked(args, "cv"@) {
        let i = choose|i: int| 0 <= i < args.len() && marked(#[trigger] args[i], "cv"@);
        assert(is_cv(args[i]));
    }
    if has_list(args) {
        let i = choose|i: int| 0 <= i < args.len() && is_list(#[trigger] args[i]);
        assert(marked(args[i], "list"@));
    }
    if any_marked(args, "list"@) {
        let i = choose|i: int| 0 <= i < args.len() && marked(#[trigger] args[i], "list"@);
        assert(is_list(args[i]));
    }
}

/// An expansion is the function as it was written, its entry point, and the function behind that,
/// which hands out one pointer for each value of a list; and nothing else.
pub proof fn law_parts_of_an_expansion(q: Request, xsub: XSub, values: Seq<Seq<Tok>>)
    requires
        q.comes_to(Ok(xsub)),
        values.len() == (match q.listed() {
            Some(count) => count,
            None => 0,
        }),
        forall|i: int|
            0 <= i < values.len() ==> #[trigger] values[i] == q.at().sv_pointer() + q.at().op(','),
    ensures
        ({
            let code = stream_tokens(xsub.tokens);
            &&& code.len() > 0
            &&& code == q.kept() + q.entry(xsub.xs_name@) + (q.head(joined(values)) + q.at().brace(
                code.last()->inner,
            ))
        }),
{
    lemma_marks(q);
    lemma_listed(q);
    lemma_repeated(q.at().sv_pointer() + q.at().op(','), values);
    assert(values.len() == 0 ==> joined(values) == Seq::<Tok>::empty());
}

/// In the function behind the entry point, whose body ends the expansion, a complaint of a function
/// that is not public comes first. Then all arguments are taken off the stack, then it is seen to
/// that none is left, and only then they are converted and the stack is set back. Last comes the
/// call of the exported function, with panics caught. Nothing else is done in between.
pub proof fn law_steps_of_a_call(q: Request, xsub: XSub)
    requires
        q.comes_to(Ok(xsub)),
    ensures
        ({
            let at = q.at();
            let arguments = IdentView { name: "args"@, raw: false, span: at.span };
            let args = ident_token(arguments);
            let taken = extractions(q.args(), at.span, arguments);
            let converted = deserializations(q.args(), at.span);
            &&& stream_tokens(xsub.tokens).last() is Group
            &&& exists|called: Seq<Tok>|
                stream_tokens(xsub.tokens).last()->inner == q.complaint() + at.word("let"@)
                    + at.word("argmark"@) + at.op('=')
                    + at.word("unsafe"@) + at.brace(
                    at.seg("perlmod"@) + at.seg("ffi"@) + at.seg("pop_arg_mark"@) + at.unit(),
                ) + at.op(';') + at.word("let"@) + at.word("mut"@) + args + at.op('=') + at.word(
                    "argmark"@,
                ) + at.dot("iter"@) + at.unit() + at.op(';') + at.brace(
                    at.word("let"@) + at.word("_"@) + at.op('=') + at.op('&') + at.word("mut"@)
                        + args + at.op(';'),
                ) + taken + q.surplus() + converted + at.word("unsafe"@) + at.brace(
                    at.word("argmark"@) + at.dot("set_stack"@) + at.unit() + at.op(';'),
                ) + at.word("let"@) + at.word("res"@) + at.op('=') + at.word("std"@) + at.seg(
                    "panic"@,
                ) + at.seg("catch_unwind"@) + at.paren(
                    at.word("move"@) + at.op2('|', '|') + #[trigger] at.brace(called),
                ) + at.op(';') + at.word("match"@) + at.word("res"@) + at.brace(
                    at.word("Ok"@) + at.paren(at.word("res"@)) + at.arrow() + at.word("res"@)
                        + at.op(',') + at.word("Err"@) + at.paren(at.word("_panic"@)) + at.arrow()
                        + at.raised(at.string("rust function panicked"@)) + at.op(','),
                )
        }),
{
    lemma_marks(q);
    let at = q.at();
    let ret = declared_return(q.func.sig.output);
    let called = return_code(
        at,
        q.call_site,
        ret,
        q.attr.raw_return,
        q.func.sig.ident@.unraw(),
        passed(q.args(), at.span),
        ret.error_code(q.attr.serialize_error, at.span),
    );
    assert(finalization(q.args(), q.func.sig.ident@.unraw(), q.call_site) == q.surplus());
    assert(visibility_code(q.func.vis, q.config.non_pub_exports, at.span) == q.complaint());
    let block = at.brace(called);
}

/// An exported function keeps its name, with the raw prefix taken off; Perl knows it by the name
/// that is given; and its entry point has the name that is given or else one that is made of the
/// name of the function and that of the package.
pub proof fn law_names_of_an_export(q: Request, xsub: XSub)
    requires
        q.comes_to(Ok(xsub)),
    ensures
        ({
            let name = q.func.sig.ident@;
            let text = match q.package {
                None => "xs_"@ + name.name,
                Some(package) => "xs_"@ + package + "_"@ + name.name,
            };
            &&& xsub.rust_name@ == (IdentView { name: name.name, raw: false, span: name.span })
            &&& xsub.perl_name == q.attr.perl_name
            &&& match q.attr.xs_name {
                Some(given) => xsub.xs_name@ == given@,
                None => xsub.xs_name@ == (IdentView {
                    name: spelling(text, name.span),
                    raw: false,
                    span: name.span,
                }),
            }
        }),
{
}

/// The prototype of an export is the one that is given. Where none is, it has a dollar sign for
/// each parameter that has to be given, and behind a semicolon one for each that may be left out
/// and an `@` for the list.
pub proof fn law_prototype_of_an_export(q: Request, xsub: XSub, i: int)
    requires
        q.comes_to(Ok(xsub)),
        prototype_fits(q.attr, q.func),
    ensures
        ({
            let proto = xsub.prototype->0@;
            let list = any_marked(q.args(), "list"@);
            let optional = trailing_options(q.args()) as int;
            let required = q.args().len() - optional - (if list {
                1int
            } else {
                0int
            });
            &&& xsub.prototype is Some
            &&& q.attr.prototype is Some ==> proto == q.attr.prototype->0@
            &&& q.attr.prototype is None ==> {
                &&& proto.len() == q.args().len() + (if optional > 0 || list {
                    1int
                } else {
                    0int
                })
                &&& 0 <= i < proto.len() ==> proto[i] == (if i == required {
                    ';'
                } else if i == proto.len() - 1 && list {
                    '@'
                } else {
                    '$'
                })
            }
        }),
{
    lemma_marks(q);
}

/// A function is refused where it is generic, else where it is `async`, else where a parameter is
/// wrong, else where `raw_return` is asked for and it returns nothing; and in no other case.
pub proof fn law_refusals(q: Request, r: Result<XSub, Error>)
    requires
        q.comes_to(r),
    ensures
        ({
            let sig = q.func.sig;
            &&& sig.generics.has_params ==> r is Err && r->Err_0@ == (ErrorView {
                at: LocationView::Tokens(stream_tokens(sig.generics.tokens)),
                kind: ErrorKind::GenericFunction,
            })
            &&& !sig.generics.has_params && sig.asyncness is Some ==> r is Err && r->Err_0@ == (
            ErrorView {
                at: LocationView::Tokens(stream_tokens(sig.asyncness->0)),
                kind: ErrorKind::AsyncFunction,
            })
            &&& !sig.generics.has_params && sig.asyncness is None ==> match first_arg_error(
                q.args(),
            ) {
                Some(error) => r is Err && r->Err_0@ == error,
                None => if q.attr.raw_return && q.listed() == Some(0nat) {
                    r is Err && r->Err_0@ == (ErrorView {
                        at: LocationView::Place(q.call_site),
                        kind: ErrorKind::RawReturnWithoutValue,
                    })
                } else {
                    r is Ok
                },
            }
        }),
{
    lemma_listed(q);
}

/// A function whose head and parameters are right can be exported with a derived prototype, unless
/// a `#[list]` is an `Option` and no other parameter makes up for its being counted twice; and with
/// names that are made up, unless a parameter other than the `#[cv]` has a raw name or the package
/// has one that no identifier can hold.
pub proof fn law_what_can_be_exported(q: Request)
    requires
        first_arg_error(q.args()) is None,
        !q.func.sig.generics.has_params,
        q.func.sig.asyncness is None,
    ensures
        nameable(q.attr, q.func, q.package) <==> {
            &&& q.attr.xs_name is Some || q.package is None || ident_tail(q.package->0)
            &&& forall|i: int|
                0 <= i < q.args().len() ==> marked(#[trigger] q.args()[i], "cv"@) || !arg_name(
                    q.args()[i],
                ).raw
        },
        q.attr.prototype is Some ==> prototype_fits(q.attr, q.func),
        q.attr.prototype is None && !(q.attr.raw_return && q.listed() == Some(0nat)) ==> (
        prototype_fits(q.attr, q.func) <==> trailing_options(q.args()) + (if any_marked(
            q.args(),
            "list"@,
        ) {
            1int
        } else {
            0int
        }) <= q.args().len()),
        (forall|i: int|
            0 <= i < q.args().len() && marked(#[trigger] q.args()[i], "list"@) ==> option_type(
                typed(q.args()[i]).ty,
            ) is None) ==> prototype_fits(q.attr, q.func),
{
    let args = q.args();
    law_names_that_can_be_made_up(args, q.at().span);
    lemma_marks(q);
    lemma_listed(q);
    law_accepted_parameters(args);
    if forall|i: int|
        0 <= i < args.len() && marked(#[trigger] args[i], "list"@) ==> option_type(
            typed(args[i]).ty,
        ) is None {
        assert forall|i: int| 0 <= i < args.len() && is_list(#[trigger] args[i]) implies option_type(
            typed(args[i]).ty,
        ) is None by {
            law_marks_decide(args[i], q.at().span);
        }
        law_list_leaves_room(args);
    }
}

/// Nothing but wrong attributes of a parameter is reported besides the reason why a function is
/// refused, and nothing at all where its head is wrong.
pub proof fn law_reports_besides(q: Request)
    ensures
        q.func.sig.generics.has_params || q.func.sig.asyncness is Some ==> export_reports(
            q.func,
        ).len() == 0,
        !q.func.sig.generics.has_params && q.func.sig.asyncness is None ==> export_reports(q.func)
            == arg_reports(q.args()),
{
}

} // verus!
