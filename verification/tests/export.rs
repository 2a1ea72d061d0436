use perlmod_export::attribs::FunctionAttrs;
use perlmod_export::error::{Error, Location};
use perlmod_export::function::{
    check_visibility, expand_function, handle_function, try_handle_function, Action, Config, XSub,
};
use perlmod_export::ident::Ident;
use perlmod_export::syntax::{
    Attribute, FnArg, GenericArgument, Generics, ItemFn, Meta, Pat, PatIdent, PatType, Path,
    PathArguments, PathSegment, ReturnType, Signature, Type, TypePath, TypeTuple, Visibility,
};
use proc_macro2::{Span, TokenStream};
use quote::{ToTokens, TokenStreamExt};
use syn::spanned::Spanned;

/// An identifier of parsed code, which is always a valid one.
fn ident(ident: &syn::Ident) -> Ident {
    let text = ident.to_string();
    let converted = match text.strip_prefix("r#") {
        Some(name) => Ident::new_raw(name, ident.span()),
        None => Ident::new(&text, ident.span()),
    };
    match converted {
        Some(ident) => ident,
        None => panic!("{text:?} is not a valid identifier"),
    }
}

fn generic_argument(argument: &syn::GenericArgument) -> GenericArgument {
    match argument {
        syn::GenericArgument::Type(ty) => GenericArgument::Type(self::ty(ty)),
        _ => GenericArgument::Other,
    }
}

fn path_segment(segment: &syn::PathSegment) -> PathSegment {
    PathSegment {
        ident: ident(&segment.ident),
        arguments: match &segment.arguments {
            syn::PathArguments::None => PathArguments::Absent,
            syn::PathArguments::AngleBracketed(generic) => {
                PathArguments::AngleBracketed(generic.args.iter().map(generic_argument).collect())
            }
            syn::PathArguments::Parenthesized(_) => PathArguments::Parenthesized,
        },
    }
}

fn path(path: &syn::Path) -> Path {
    Path {
        leading_colon: path.leading_colon.is_some(),
        segments: path.segments.iter().map(path_segment).collect(),
        span: path.span(),
    }
}

fn ty(ty: &syn::Type) -> Type {
    match ty {
        syn::Type::Path(p) => Type::Path(TypePath {
            qself: p.qself.is_some(),
            path: path(&p.path),
            tokens: ty.to_token_stream(),
        }),
        syn::Type::Tuple(tuple) => Type::Tuple(TypeTuple {
            elems: tuple.elems.iter().map(self::ty).collect(),
            tokens: ty.to_token_stream(),
        }),
        _ => Type::Other(ty.to_token_stream()),
    }
}

fn attribute(attr: &syn::Attribute) -> Attribute {
    Attribute {
        meta: match &attr.meta {
            syn::Meta::Path(p) => Meta::Path(path(p)),
            syn::Meta::List(list) => Meta::List(path(&list.path)),
            syn::Meta::NameValue(value) => Meta::NameValue(path(&value.path)),
        },
        meta_tokens: attr.meta.to_token_stream(),
        tokens: attr.to_token_stream(),
    }
}

fn pat(pat: &syn::Pat) -> Pat {
    match pat {
        syn::Pat::Ident(p) => Pat::Ident(PatIdent {
            by_ref: p.by_ref.is_some(),
            ident: ident(&p.ident),
            subpat: p.subpat.is_some(),
            tokens: pat.to_token_stream(),
        }),
        _ => Pat::Other(pat.to_token_stream()),
    }
}

fn fn_arg(pair: syn::punctuated::Pair<&syn::FnArg, &syn::token::Comma>) -> FnArg {
    let comma = pair.punct().map(|comma| comma.span());
    match pair.into_value() {
        syn::FnArg::Receiver(receiver) => FnArg::Receiver(receiver.to_token_stream()),
        syn::FnArg::Typed(typed) => FnArg::Typed(PatType {
            attrs: typed.attrs.iter().map(attribute).collect(),
            pat: pat(&typed.pat),
            colon: typed.colon_token.span(),
            ty: ty(&typed.ty),
            span: typed.span(),
            comma,
        }),
    }
}

fn variadic(sig: &syn::Signature) -> TokenStream {
    let mut tokens = TokenStream::new();
    if let Some(variadic) = &sig.variadic {
        if !sig.inputs.empty_or_trailing() {
            syn::token::Comma::default().to_tokens(&mut tokens);
        }
        variadic.to_tokens(&mut tokens);
    }
    tokens
}

fn is_outer(attr: &&syn::Attribute) -> bool {
    matches!(attr.style, syn::AttrStyle::Outer)
}

fn before_inputs(func: &syn::ItemFn) -> TokenStream {
    let sig = &func.sig;
    let mut tokens = TokenStream::new();
    tokens.append_all(func.attrs.iter().filter(is_outer));
    func.vis.to_tokens(&mut tokens);
    sig.constness.to_tokens(&mut tokens);
    sig.asyncness.to_tokens(&mut tokens);
    sig.unsafety.to_tokens(&mut tokens);
    sig.abi.to_tokens(&mut tokens);
    sig.fn_token.to_tokens(&mut tokens);
    sig.ident.to_tokens(&mut tokens);
    sig.generics.to_tokens(&mut tokens);
    tokens
}

fn behind_inputs(func: &syn::ItemFn) -> TokenStream {
    let mut tokens = TokenStream::new();
    func.sig.output.to_tokens(&mut tokens);
    func.sig.generics.where_clause.to_tokens(&mut tokens);
    func.block.brace_token.surround(&mut tokens, |tokens| {
        tokens.append_all(func.attrs.iter().filter(|attr| !is_outer(attr)));
        tokens.append_all(&func.block.stmts);
    });
    tokens
}

fn item_fn(func: &syn::ItemFn) -> ItemFn {
    ItemFn {
        vis: match &func.vis {
            syn::Visibility::Inherited => Visibility::Inherited,
            vis => Visibility::Given(vis.to_token_stream()),
        },
        sig: Signature {
            asyncness: func.sig.asyncness.map(|token| token.to_token_stream()),
            ident: ident(&func.sig.ident),
            generics: Generics {
                has_params: !func.sig.generics.params.is_empty(),
                tokens: func.sig.generics.to_token_stream(),
            },
            paren: func.sig.paren_token.span.join(),
            inputs: func.sig.inputs.pairs().map(fn_arg).collect(),
            variadic: variadic(&func.sig),
            output: match &func.sig.output {
                syn::ReturnType::Default => ReturnType::Default,
                syn::ReturnType::Type(_arrow, ty) => ReturnType::Type(self::ty(ty)),
            },
        },
        before: before_inputs(func),
        after: behind_inputs(func),
    }
}

fn tokens(text: &str) -> TokenStream {
    text.parse().unwrap()
}

/// A function as `syn` prints it.
fn printed(source: &str) -> String {
    syn::parse_str::<syn::ItemFn>(source).unwrap().to_token_stream().to_string()
}

fn attrs() -> FunctionAttrs {
    FunctionAttrs {
        perl_name: None,
        xs_name: None,
        raw_return: false,
        prototype: None,
        errno: false,
        serialize_error: false,
    }
}

fn config() -> Config {
    Config {
        pthx: TokenStream::new(),
        non_pub_exports: Action::Allow,
    }
}

fn parsed(source: &str) -> ItemFn {
    item_fn(&syn::parse_str::<syn::ItemFn>(source).unwrap())
}

fn export(attr: FunctionAttrs, source: &str) -> XSub {
    let mut errors: Vec<Error> = Vec::new();
    let handled = handle_function(attr, parsed(source), None, false, &config(), &mut errors);
    assert!(errors.is_empty());
    match handled {
        Ok(xsub) => xsub,
        Err(error) => panic!("{}", error.message()),
    }
}

fn located(error: &Error) -> String {
    match &error.at {
        Location::Place(_) => format!("{}", error.message()),
        Location::Tokens(tokens) => format!("{}: {}", tokens, error.message()),
    }
}

/// The report that ends the expansion, behind all those before it.
fn refused(attr: FunctionAttrs, source: &str) -> Vec<String> {
    let mut errors: Vec<Error> = Vec::new();
    let handled =
        try_handle_function(attr, parsed(source), None, false, &config(), &mut errors).unwrap();
    let mut messages: Vec<String> = errors.iter().map(located).collect();
    match handled {
        Ok(_) => panic!("unexpected success"),
        Err(error) => messages.push(located(&error)),
    }
    messages
}

fn prototype_of(source: &str) -> String {
    export(attrs(), source).prototype.unwrap()
}

const FAILED: &str = "Err(::perlmod::Value::new_string(&format!(\"{err:#}\\n\"))\
    .into_mortal().into_raw())";

fn missing(name: &str) -> String {
    format!(
        "{{ return Err(::perlmod::Value::new_string(\"missing required parameter: '{}'\\n\")\
            .into_mortal().into_raw()); }}",
        name
    )
}

fn extract(name: &str, none: &str) -> String {
    format!(
        "let extracted_arg_{}: ::perlmod::Value = match args.next() {{
            Some(arg) => ::perlmod::Value::from(arg),
            None => {}
        }};",
        name, none
    )
}

fn deserialize(name: &str, ty: &str) -> String {
    format!(
        "let deserialized_arg_{}: {} = match ::perlmod::from_ref_value(&extracted_arg_{}) {{
            Ok(data) => data,
            Err(err) => {{ return {}; }}
        }};",
        name, ty, name, FAILED
    )
}

fn too_many(name: &str, expected: usize) -> String {
    format!(
        "if args.next().is_some() {{
            return Err(::perlmod::Value::new_string(\"too many parameters for function '{}', \
                (expected {})\\n\").into_mortal().into_raw());
        }}",
        name, expected
    )
}

fn entry(vis: &str, xs: &str, imp: &str, cv: &str, passed: &str, errno: &str, arm: &str) -> String {
    format!(
        "#[doc(hidden)]
        {} extern \"C\" fn {}({}: *mut ::perlmod::ffi::CV) {{
            unsafe {{
                let res = {}({});
                {}
                match res {{
                    {}
                    Err(sv) => ::perlmod::ffi::croak(sv),
                }}
            }}
        }}",
        vis, xs, cv, imp, passed, errno, arm
    )
}

fn implementation(imp: &str, cv: &str, ret: &str, before: &str, args: &str, call: &str) -> String {
    format!(
        "#[inline(never)]
        #[allow(non_snake_case)]
        fn {}({}) -> Result<{}, *mut ::perlmod::ffi::SV> {{
            {}
            let argmark = unsafe {{ ::perlmod::ffi::pop_arg_mark() }};
            let mut args = argmark.iter();
            {{ let _ = &mut args; }}
            {}
            unsafe {{ argmark.set_stack(); }}
            let res = std::panic::catch_unwind(move || {{ {} }});
            match res {{
                Ok(res) => res,
                Err(_panic) => Err(::perlmod::Value::new_string(\"rust function panicked\")
                    .into_mortal()
                    .into_raw()),
            }}
        }}",
        imp, cv, ret, before, args, call
    )
}

const HIDDEN: &str = "#[allow(non_snake_case)]";
const DONE: &str = "Ok(()) => (),";

fn returned(call: &str) -> String {
    format!(
        "let result = {};
        match ::perlmod::ser::to_return_value(&result) {{
            Ok(rv) => Ok(rv.__private_push_to_stack()),
            Err(err) => {},
        }}",
        call, FAILED
    )
}

fn assert_tokens(got: &TokenStream, expected: &[String]) {
    assert_eq!(got.to_string(), tokens(&expected.join(" ")).to_string());
}

#[test]
fn function_without_parameters_or_value() {
    let xsub = export(attrs(), "pub fn nop() { work(); }");
    assert_eq!(xsub.rust_name.text(), "nop");
    assert!(xsub.perl_name.is_none());
    assert_eq!(xsub.xs_name.text(), "xs_nop");
    assert_eq!(xsub.prototype.as_deref(), Some(""));
    assert_tokens(
        &xsub.tokens,
        &[
            "pub fn nop() { work(); }".to_string(),
            entry(HIDDEN, "xs_nop", "impl_xs_nop", "_cv", "", "", DONE),
            implementation("impl_xs_nop", "", "()", "", &too_many("nop", 0), "nop(); Ok(())"),
        ],
    );
}

#[test]
fn function_with_required_and_optional_parameters() {
    let source = "pub fn greet(name: String, mut title: Option<String>,) -> String { body }";
    let xsub = export(attrs(), source);
    assert_eq!(xsub.prototype.as_deref(), Some("$;$"));
    let args = [
        extract("name", &missing("name")),
        extract("title", "::perlmod::Value::new_undef(),"),
        too_many("greet", 2),
        deserialize("name", "String"),
        deserialize("title", "Option<String>"),
    ];
    assert_tokens(
        &xsub.tokens,
        &[
            printed(source),
            entry(HIDDEN, "xs_greet", "impl_xs_greet", "_cv", "", "", DONE),
            implementation(
                "impl_xs_greet",
                "",
                "()",
                "",
                &args.join(" "),
                &returned("greet(deserialized_arg_name, deserialized_arg_title)"),
            ),
        ],
    );
}

#[test]
fn attributes_decide_how_parameters_are_passed() {
    let xsub = export(
        attrs(),
        "fn f(#[raw] a: Value, #[cfg(x)] #[try_from_ref] b: &Foo, #[cv] c: Value, \
            #[list] rest: Vec<u8>) -> Result<(), Error> { body }",
    );
    assert_eq!(xsub.prototype.as_deref(), Some("$$$;@"));
    let args = [
        extract("a", &missing("a")),
        extract("b", &missing("b")),
        "let extracted_arg_rest = args.map(::perlmod::Value::from);".to_string(),
        "let deserialized_arg_a = extracted_arg_a;".to_string(),
        format!(
            "let deserialized_arg_b: &Foo =
                match ::std::convert::TryFrom::try_from(&extracted_arg_b) {{
                    Ok(arg) => arg,
                    Err(err) => {{ return {}; }}
                }};",
            FAILED
        ),
        format!(
            "let deserialized_arg_rest = {{
                let _guard = ::perlmod::__private__::InParameterDeserialization::guard();
                match extracted_arg_rest
                    .map(|value| ::perlmod::from_ref_value(&value))
                    .collect:: <Result<Vec<u8> , _>>()
                {{
                    Ok(arg) => arg,
                    Err(err) => {{ return {}; }}
                }}
            }};",
            FAILED
        ),
    ];
    assert_tokens(
        &xsub.tokens,
        &[
            "fn f(a: Value, #[cfg(x)] b: &Foo, c: Value, rest: Vec<u8>) -> Result<(), Error> \
                { body }"
                .to_string(),
            entry(
                HIDDEN,
                "xs_f",
                "impl_xs_f",
                "cv",
                "::perlmod::Value::from_raw_ref(cv as *mut ::perlmod::ffi::SV)",
                "",
                DONE,
            ),
            implementation(
                "impl_xs_f",
                "c: Value",
                "()",
                "",
                &args.join(" "),
                &format!(
                    "match f(deserialized_arg_a, deserialized_arg_b, c, deserialized_arg_rest) {{
                        Ok(()) => (),
                        Err(err) => {{ return {}; }}
                    }}
                    Ok(())",
                    FAILED
                ),
            ),
        ],
    );
}

#[test]
fn cv_is_not_among_the_expected_arguments() {
    let xsub = export(attrs(), "fn f(#[cv] c: Value, a: u8) {}");
    assert_eq!(xsub.prototype.as_deref(), Some("$$"));
    let text = xsub.tokens.to_string();
    assert!(text.contains("too many parameters for function 'f', (expected 1)"));
    assert!(text.contains("f (c , deserialized_arg_a)"));
}

#[test]
fn list_takes_any_number_of_arguments() {
    let xsub = export(attrs(), "fn f(#[list] all: Vec<u8>) {}");
    assert!(!xsub.tokens.to_string().contains("too many parameters"));
}

#[test]
fn result_with_serialized_error_and_errno() {
    let mut attr = attrs();
    attr.serialize_error = true;
    attr.errno = true;
    let xsub = export(attr, "fn f() -> Result<u32, Error> { body }");
    let call = format!(
        "match f() {{
            Ok(output) => output,
            Err(err) => {{
                match ::perlmod::to_value(&err) {{
                    Ok(err) => return Err(err.into_mortal().into_raw()),
                    Err(err) => {{ return {}; }}
                }}
            }}
        }}",
        FAILED
    );
    assert_tokens(
        &xsub.tokens,
        &[
            "fn f() -> Result<u32, Error> { body }".to_string(),
            entry(
                HIDDEN,
                "xs_f",
                "impl_xs_f",
                "_cv",
                "",
                "::perlmod::error::copy_errno_to_libc();",
                DONE,
            ),
            implementation("impl_xs_f", "", "()", "", &too_many("f", 0), &returned(&call)),
        ],
    );
}

#[test]
fn raw_value_is_pushed_as_it_is() {
    let mut attr = attrs();
    attr.raw_return = true;
    let xsub = export(attr, "fn f() -> Value { body }");
    assert_tokens(
        &xsub.tokens,
        &[
            "fn f() -> Value { body }".to_string(),
            entry(HIDDEN, "xs_f", "impl_xs_f", "_cv", "", "", DONE),
            implementation(
                "impl_xs_f",
                "",
                "()",
                "",
                &too_many("f", 0),
                "let result = f();
                unsafe {
                    ::perlmod::ffi::stack_push_raw(result.into_mortal().into_raw());
                }
                Ok(())",
            ),
        ],
    );
}

const SV: &str = "*mut ::perlmod::ffi::SV,";

fn pushed(count: usize) -> String {
    let mut push = format!(
        "::perlmod::ffi::RSPL_stack_resize_by({});
        let mut sp = ::perlmod::ffi::RSPL_stack_sp().sub({});
        *sp = sv.0;",
        count,
        count - 1
    );
    for i in 1..count {
        push.push_str(&format!("sp = sp.add(1); *sp = sv.{};", i));
    }
    format!("Ok(sv) => {{ {} }},", push)
}

#[test]
fn tuple_is_returned_as_a_list() {
    let xsub = export(attrs(), "fn f() -> Result<(A, B), E> { body }");
    let value = |i: usize| {
        format!(
            "match ::perlmod::to_value(&result.{}) {{
                Ok(value) => value.into_mortal().into_raw(),
                Err(err) => return {},
            }},",
            i, FAILED
        )
    };
    assert_tokens(
        &xsub.tokens,
        &[
            "fn f() -> Result<(A, B), E> { body }".to_string(),
            entry(HIDDEN, "xs_f", "impl_xs_f", "_cv", "", "", &pushed(2)),
            implementation(
                "impl_xs_f",
                "",
                &format!("({} {})", SV, SV),
                "",
                &too_many("f", 0),
                &format!(
                    "let result = match f() {{
                        Ok(output) => output,
                        Err(err) => {{ return {}; }}
                    }};
                    Ok(({} {}))",
                    FAILED,
                    value(0),
                    value(1)
                ),
            ),
        ],
    );
}

#[test]
fn raw_tuple_of_one_and_of_many_values() {
    let mut attr = attrs();
    attr.raw_return = true;
    let xsub = export(attr, "fn f() -> (Value,) { body }");
    assert_tokens(
        &xsub.tokens,
        &[
            "fn f() -> (Value,) { body }".to_string(),
            entry(HIDDEN, "xs_f", "impl_xs_f", "_cv", "", "", &pushed(1)),
            implementation(
                "impl_xs_f",
                "",
                &format!("({})", SV),
                "",
                &too_many("f", 0),
                "let result = f(); Ok(((result.0).into_mortal().into_raw(),))",
            ),
        ],
    );
    let mut attr = attrs();
    attr.raw_return = true;
    let many = vec!["Value"; 11].join(", ");
    let text = export(attr, &format!("fn f() -> ({}) {{ body }}", many)).tokens.to_string();
    assert!(text.contains(&tokens("(result.10).into_mortal().into_raw(),").to_string()));
    assert!(text.contains(&tokens(&pushed(11)).to_string()));
}

#[test]
fn unit_values_are_nothing() {
    for source in ["fn f() {}", "fn f() -> () {}"] {
        assert!(export(attrs(), source).tokens.to_string().contains("f () ; Ok (())"));
    }
    let text = export(attrs(), "fn f() -> Result<()> {}").tokens.to_string();
    assert!(text.contains("match f () { Ok (()) => ()"));
}

#[test]
fn names_of_entry_points() {
    let mut errors: Vec<Error> = Vec::new();
    let xsub = handle_function(
        attrs(),
        parsed("pub(crate) fn r#type() {}"),
        Some("Foo__Bar"),
        true,
        &config(),
        &mut errors,
    );
    let xsub = xsub.ok().unwrap();
    assert_eq!(xsub.rust_name.text(), "type");
    assert_eq!(xsub.xs_name.text(), "xs_Foo__Bar_type");
    assert_tokens(
        &xsub.tokens,
        &[
            "pub(crate) fn r#type() {}".to_string(),
            entry(
                "#[unsafe(no_mangle)] pub(crate)",
                "xs_Foo__Bar_type",
                "impl_xs_type",
                "_cv",
                "",
                "",
                DONE,
            ),
            implementation("impl_xs_type", "", "()", "", &too_many("type", 0), "type(); Ok(())"),
        ],
    );
    let mut attr = attrs();
    attr.xs_name = Ident::new("entry", Span::call_site());
    attr.perl_name = Ident::new("perl", Span::call_site());
    attr.prototype = Some("\\@$".to_string());
    let xsub = export(attr, "fn f(a: u8) {}");
    assert_eq!(xsub.xs_name.text(), "entry");
    assert_eq!(xsub.perl_name.unwrap().text(), "perl");
    assert_eq!(xsub.prototype.as_deref(), Some("\\@$"));
    assert!(xsub.tokens.to_string().contains("fn impl_xs_f"));
}

#[test]
fn interpreter_parameter_comes_first() {
    let config = Config {
        pthx: tokens("my_perl: *const u8,"),
        non_pub_exports: Action::Allow,
    };
    let mut errors: Vec<Error> = Vec::new();
    let xsub = handle_function(attrs(), parsed("fn f() {}"), None, true, &config, &mut errors);
    let text = xsub.ok().unwrap().tokens.to_string();
    let entry = "#[unsafe(no_mangle)] extern \"C\" fn xs_f(my_perl: *const u8, \
        _cv: *mut ::perlmod::ffi::CV)";
    assert!(text.contains(&tokens(entry).to_string()));
}

#[test]
fn names_beyond_ascii_are_spelled_as_the_token_library_spells_them() {
    // Both spellings of the letter, as one character and as two.
    let names = [
        ("Caf\u{e9}", "gr\u{f6}\u{df}e"),
        ("Cafe\u{301}", "\u{540d}\u{524d}"),
    ];
    for (package, function) in names {
        let mut errors: Vec<Error> = Vec::new();
        let source = format!("pub fn {}(\u{e9}: u8) {{}}", function);
        let handled = handle_function(
            attrs(),
            parsed(&source),
            Some(package),
            false,
            &config(),
            &mut errors,
        );
        let xsub = handled.ok().unwrap();
        let expected = proc_macro2::Ident::new(
            &format!("xs_{}_{}", package, function),
            proc_macro2::Span::call_site(),
        );
        assert_eq!(xsub.xs_name.text(), expected.to_string());
        assert_eq!(xsub.rust_name.text(), function);
        let text = xsub.tokens.to_string();
        assert!(text.contains(&format!("fn {} (", expected)));
        assert!(text.contains(&format!("fn impl_xs_{} (", function)));
        assert!(text.contains("let extracted_arg_\u{e9} :"));
        assert!(text.contains("let deserialized_arg_\u{e9} :"));
        assert!(text.contains("missing required parameter: '\u{e9}'"));
    }
}

#[test]
fn entry_points_are_distinct_within_a_package() {
    let name = |source: &str| {
        let mut errors: Vec<Error> = Vec::new();
        handle_function(attrs(), parsed(source), Some("P"), false, &config(), &mut errors)
            .ok()
            .unwrap()
            .xs_name
            .text()
    };
    assert_eq!(name("fn a() {}"), "xs_P_a");
    assert_ne!(name("fn a() {}"), name("fn b() {}"));
    assert_ne!(name("fn a() {}"), "impl_xs_a");
}

#[test]
fn prototypes_of_parameter_lists() {
    assert_eq!(prototype_of("fn f(a: u8, b: u8) {}"), "$$");
    assert_eq!(prototype_of("fn f(a: Option<u8>, b: u8) {}"), "$$");
    assert_eq!(prototype_of("fn f(a: u8, b: Option<u8>, c: std::option::Option<u8>) {}"), "$;$$");
    assert_eq!(prototype_of("fn f(a: Option<u8>, #[cv] c: Value, b: Option<u8>) {}"), "$;$$");
    assert_eq!(prototype_of("fn f(a: Option<u8>, #[list] b: Vec<u8>) {}"), ";$@");
    assert_eq!(prototype_of("fn f(#[list] b: Vec<u8>, a: u8, c: Option<u8>) {}"), "$;$@");
    assert_eq!(prototype_of("fn f(a: u8, #[list] b: Option<Vec<u8>>) {}"), ";$@");
}

#[test]
fn what_would_panic_has_no_result() {
    let tried = |attr: FunctionAttrs, source: &str, package: Option<&str>| {
        let mut errors: Vec<Error> = Vec::new();
        let handled =
            try_handle_function(attr, parsed(source), package, false, &config(), &mut errors);
        assert!(handled.is_some() || errors.is_empty());
        handled.is_some()
    };
    assert!(!tried(attrs(), "fn f() {}", Some("Foo::Bar")));
    assert!(tried(attrs(), "fn f<T>() {}", Some("Foo::Bar")));
    let mut attr = attrs();
    attr.xs_name = Ident::new("entry", Span::call_site());
    assert!(tried(attr, "fn f() {}", Some("Foo::Bar")));

    assert!(!tried(attrs(), "fn f(r#type: u8) {}", None));
    assert!(tried(attrs(), "fn f(#[cv] r#type: Value) {}", None));
    assert!(tried(attrs(), "fn f(ref x: u8, r#type: u8) {}", None));
    assert!(!tried(attrs(), "fn f(r#type: u8, ref x: u8) {}", None));

    assert!(!tried(attrs(), "fn f(#[list] all: Option<Vec<u8>>) {}", None));
    assert!(tried(attrs(), "fn f(a: u8, #[list] all: Option<Vec<u8>>) {}", None));
    let mut attr = attrs();
    attr.prototype = Some("@".to_string());
    assert!(tried(attr, "fn f(#[list] all: Option<Vec<u8>>) {}", None));
    let mut attr = attrs();
    attr.raw_return = true;
    assert!(tried(attr, "fn f(#[list] all: Option<Vec<u8>>) {}", None));
}

#[test]
fn functions_that_cannot_be_exported() {
    assert_eq!(
        refused(attrs(), "fn f<T>(self) {}"),
        ["< T >: generic functions cannot be exported as xsubs"]
    );
    assert_eq!(
        refused(attrs(), "async fn f(self) {}"),
        ["async: async fns cannot be exported as xsubs"]
    );
    assert_eq!(
        refused(attrs(), "fn f(&self) {}"),
        ["& self: cannot export self-taking methods as xsubs"]
    );
    let mut attr = attrs();
    attr.raw_return = true;
    assert_eq!(
        refused(attr, "fn f() -> Result<(), E> {}"),
        ["raw_return attribute is illegal without a return value"]
    );
}

#[test]
fn patterns_that_are_not_plain_names() {
    assert_eq!(
        refused(attrs(), "fn f(ref x: u8) {}"),
        ["ref x: xsub does not support by-ref parameters"]
    );
    assert_eq!(
        refused(attrs(), "fn f(x @ 1: u8) {}"),
        ["x @ 1: xsub does not support sub-patterns on parameters"]
    );
    assert_eq!(
        refused(attrs(), "fn f((a, b): (u8, u8)) {}"),
        ["(a , b): xsub does not support this kind of parameter"]
    );
    assert_eq!(
        refused(attrs(), "fn f(_: u8) {}"),
        ["_: xsub does not support this kind of parameter"]
    );
}

#[test]
fn second_list_and_second_cv() {
    assert_eq!(
        refused(attrs(), "fn f(#[list] a: A, #[list] ref b: B) {}"),
        ["only 1 #[list] parameter allowed"]
    );
    assert_eq!(
        refused(attrs(), "fn f(#[cv] a: A, #[cv] b: B) {}"),
        ["only 1 'cv' parameter allowed"]
    );
    assert_eq!(
        refused(attrs(), "fn f(#[cv] a: A, #[cv] ref b: B) {}"),
        ["ref b: xsub does not support by-ref parameters"]
    );
}

#[test]
fn attributes_that_contradict_each_other() {
    let undetermined = "failed to determine argument attribute";
    let exclusive = "`raw`, `try_from_ref`, `cv`, and `list` attributes are mutually exclusive";
    assert_eq!(
        refused(attrs(), "fn f(#[raw] #[raw] a: A) {}"),
        ["duplicate attribute 'raw'", undetermined]
    );
    assert_eq!(
        refused(attrs(), "fn f(#[cv] #[list] #[cv] a: A) {}"),
        [exclusive, "duplicate attribute 'cv'", undetermined]
    );
    assert_eq!(
        refused(attrs(), "fn f(#[raw(1)] #[try_from_ref] #[list = 2] ref a: A, #[raw] #[cv] b: B) {}"),
        [
            "raw (1): attribute does not take any value or parameter",
            "list = 2: attribute does not take any value or parameter",
            undetermined
        ]
    );
}

#[test]
fn other_attributes_stay() {
    let source = "fn f(#[raw::x] #[::cv] #[list2] #[doc = \"raw\"] a: A,) {}";
    let text = export(attrs(), source).tokens.to_string();
    assert!(text.starts_with(&printed(source)));
}

#[test]
fn non_public_functions() {
    let complaint = |source: &str, action: Action| {
        check_visibility(&parsed(source), action).to_string()
    };
    for action in [Action::Allow, Action::Warn, Action::Deny] {
        assert_eq!(complaint("pub fn f() {}", action), "");
        assert_eq!(complaint("pub(crate) fn f() {}", action), "");
    }
    assert_eq!(complaint("fn f() {}", Action::Allow), "");
    let warning = "{
        non_pub_export();
        #[deprecated = \"exported function must be public\"]
        fn non_pub_export() {}
    }";
    assert_eq!(complaint("fn f() {}", Action::Warn), tokens(warning).to_string());
    let error = "compile_error!(\"exported function must be public\");";
    assert_eq!(complaint("fn f() {}", Action::Deny), tokens(error).to_string());

    let config = Config {
        pthx: TokenStream::new(),
        non_pub_exports: Action::Warn,
    };
    let mut errors: Vec<Error> = Vec::new();
    let xsub = expand_function(
        attrs(),
        parsed("fn f() {}"),
        None,
        false,
        &config,
        Span::call_site(),
        &mut errors,
    );
    assert_tokens(
        &xsub.ok().unwrap().tokens,
        &[
            "fn f() {}".to_string(),
            entry(HIDDEN, "xs_f", "impl_xs_f", "_cv", "", "", DONE),
            implementation("impl_xs_f", "", "()", warning, &too_many("f", 0), "f(); Ok(())"),
        ],
    );
}

#[test]
fn function_is_kept_as_it_is_written() {
    let source = "#[inline] pub const unsafe extern \"C\" fn f(a: u8, ...) -> u8 where u8: Copy {
        #![allow(unused)]
        a
    }";
    let text = export(attrs(), source).tokens.to_string();
    assert!(text.starts_with(&printed(source)));
}

#[test]
fn reports_are_added_to_those_before() {
    let mut errors: Vec<Error> = Vec::new();
    for _ in 0..2 {
        let handled = handle_function(
            attrs(),
            parsed("fn f(#[raw] #[raw] a: A) {}"),
            None,
            false,
            &config(),
            &mut errors,
        );
        assert!(handled.is_err());
    }
    assert_eq!(errors.len(), 2);
}

/// The columns at which the tokens of a stream stand, each with the text of a token there.
fn columns(stream: TokenStream, found: &mut Vec<(usize, String)>) {
    for token in stream {
        if let proc_macro2::TokenTree::Group(group) = &token {
            found.push((group.span().start().column, "group".to_string()));
            columns(group.stream(), found);
        } else {
            found.push((token.span().start().column, token.to_string()));
        }
    }
}

#[test]
fn tokens_stand_where_the_function_does() {
    let source = "fn    name(first: u8) -> (A, B) {}";
    let xsub = export(attrs(), source);
    let item = tokens(source).into_iter().count();
    let generated: TokenStream = xsub.tokens.into_iter().skip(item).collect();
    let mut found = Vec::new();
    columns(generated, &mut found);
    let call_site = Span::call_site().start().column;
    for (column, text) in &found {
        if text.contains("_arg_first") || text.contains("missing required parameter") {
            assert_eq!(*column, 11, "{}", text);
        } else if text == "u8" {
            assert_eq!(*column, 18, "{}", text);
        } else if text.contains("too many parameters") {
            assert_eq!(*column, call_site, "{}", text);
        } else if text == "0" || text == "1" || text == "2" {
            assert!(*column == call_site || *column == 6, "{}", text);
        } else {
            assert_eq!(*column, 6, "{}", text);
        }
    }
    // `result.0`, `result.1`, the size, the offset and `sv.1` are numbers of the macro itself; `sv.0`
    // and `add(1)` are not.
    let numbers = |column: usize| {
        found
            .iter()
            .filter(|(at, text)| *at == column && text.len() == 1 && "012".contains(text.as_str()))
            .count()
    };
    assert_eq!(numbers(call_site), 5);
    assert_eq!(numbers(6), 2);
}

#[test]
fn reports_stand_where_the_parameter_does() {
    let mut errors: Vec<Error> = Vec::new();
    let source = "fn f(a: u8, #[raw] #[cv] b: u8) {}";
    let handled = handle_function(attrs(), parsed(source), None, false, &config(), &mut errors);
    let column = |error: &Error| match &error.at {
        Location::Place(span) => span.start().column,
        Location::Tokens(_) => panic!("a place was expected"),
    };
    assert_eq!(column(&errors[0]), 12);
    assert_eq!(column(&handled.err().unwrap()), 12);

    let mut errors: Vec<Error> = Vec::new();
    let source = "fn f(#[cv] a: u8, #[cv] b: u8) {}";
    let handled = handle_function(attrs(), parsed(source), None, false, &config(), &mut errors);
    assert_eq!(column(&handled.err().unwrap()), 20);
}
