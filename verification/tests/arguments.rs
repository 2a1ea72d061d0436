use perlmod_export::argument::{
    deserialized_argument_code, extract_argument_code, ArgumentAttr, ArgumentAttrType,
};
use perlmod_export::error::Error;
use perlmod_export::ident::Ident;
use perlmod_export::parameters::Parameters;
use perlmod_export::syntax::{
    Attribute, FnArg, Meta, Pat, PatIdent, PatType, Path, PathArguments, PathSegment, Type,
};
use proc_macro2::{Span, TokenStream};

fn tokens(text: &str) -> TokenStream {
    text.parse().unwrap()
}

fn name(text: &str) -> Ident {
    Ident::new(text, Span::call_site()).unwrap()
}

fn path(text: &str) -> Path {
    Path {
        leading_colon: false,
        segments: vec![PathSegment {
            ident: name(text),
            arguments: PathArguments::Absent,
        }],
        span: Span::call_site(),
    }
}

fn attribute(text: &str) -> Attribute {
    Attribute {
        meta: Meta::Path(path(text)),
        meta_tokens: tokens(text),
        tokens: tokens(&format!("#[{}]", text)),
    }
}

fn parameter(attrs: Vec<Attribute>, text: &str) -> PatType {
    PatType {
        attrs,
        pat: Pat::Ident(PatIdent {
            by_ref: false,
            ident: name(text),
            subpat: false,
            tokens: tokens(text),
        }),
        colon: Span::call_site(),
        ty: Type::Other(tokens("&str")),
        span: Span::call_site(),
        comma: None,
    }
}

const ALL: [ArgumentAttrType; 2] = [ArgumentAttrType::Raw, ArgumentAttrType::TryFromRef];

fn all() -> Vec<ArgumentAttrType> {
    let mut all = ALL.to_vec();
    all.push(ArgumentAttrType::CVPtr(Span::call_site()));
    all.push(ArgumentAttrType::TrailingList(Span::call_site()));
    all
}

#[test]
fn attributes_are_known_by_their_names() {
    let names: Vec<&str> = all().iter().map(|attr_type| attr_type.as_str()).collect();
    assert_eq!(names, ["raw", "try_from_ref", "cv", "list"]);
    for attr_type in all() {
        let found = ArgumentAttrType::from_path(&path(attr_type.as_str())).unwrap();
        assert!(found.is_same_variant_as(&attr_type));
        assert_eq!(found.as_str(), attr_type.as_str());
        for other in all() {
            assert_eq!(
                attr_type.is_same_variant_as(&other),
                attr_type.as_str() == other.as_str()
            );
        }
    }
}

#[test]
fn other_paths_are_no_attributes() {
    assert!(ArgumentAttrType::from_path(&path("Raw")).is_none());
    let mut global = path("raw");
    global.leading_colon = true;
    assert!(ArgumentAttrType::from_path(&global).is_none());
    let mut long = path("raw");
    long.segments.push(PathSegment {
        ident: name("raw"),
        arguments: PathArguments::Absent,
    });
    assert!(ArgumentAttrType::from_path(&long).is_none());
    let mut generic = path("raw");
    generic.segments[0].arguments = PathArguments::AngleBracketed(Vec::new());
    assert!(ArgumentAttrType::from_path(&generic).is_none());
    let mut raw = path("raw");
    raw.segments[0].ident = Ident::new_raw("raw", Span::call_site()).unwrap();
    assert!(ArgumentAttrType::from_path(&raw).is_none());
    assert!(ArgumentAttrType::from_attr(&attribute("cfg")).is_none());
}

fn texts(arg: &FnArg) -> Vec<String> {
    match arg {
        FnArg::Typed(pat_type) => {
            pat_type.attrs.iter().map(|attr| attr.tokens.to_string()).collect()
        }
        FnArg::Receiver(_) => panic!("expected a parameter with a type"),
    }
}

#[test]
fn attributes_are_taken_off_once() {
    let mut errors: Vec<Error> = Vec::new();
    let attrs = vec![attribute("cfg"), attribute("list"), attribute("doc")];
    let mut arg = FnArg::Typed(parameter(attrs, "a"));
    let taken = ArgumentAttr::new_from_fn_arg(&mut arg, &mut errors).ok().unwrap();
    assert!(matches!(taken.attr_type, Some(ArgumentAttrType::TrailingList(_))));
    assert_eq!(taken.pat_type.attrs.len(), 2);
    assert_eq!(texts(&arg), ["# [cfg]", "# [doc]"]);
    let again = ArgumentAttr::new_from_fn_arg(&mut arg, &mut errors).ok().unwrap();
    assert!(again.attr_type.is_none());
    assert_eq!(texts(&arg), ["# [cfg]", "# [doc]"]);
    assert!(errors.is_empty());
}

#[test]
fn wrong_attributes_are_taken_off_too() {
    let mut errors: Vec<Error> = Vec::new();
    let attrs = vec![attribute("raw"), attribute("doc"), attribute("cv"), attribute("cfg")];
    let mut arg = FnArg::Typed(parameter(attrs, "a"));
    let refused = ArgumentAttr::new_from_fn_arg(&mut arg, &mut errors);
    assert_eq!(
        refused.err().unwrap().message(),
        "failed to determine argument attribute"
    );
    assert_eq!(errors.len(), 1);
    assert_eq!(texts(&arg), ["# [doc]", "# [cfg]"]);
    match &arg {
        FnArg::Typed(pat_type) => assert_eq!(pat_type.ty.tokens().to_string(), "& str"),
        FnArg::Receiver(_) => panic!("expected a parameter with a type"),
    }
}

#[test]
fn receiver_is_refused() {
    let mut errors: Vec<Error> = Vec::new();
    let mut arg = FnArg::Receiver(tokens("&self"));
    let refused = ArgumentAttr::new_from_fn_arg(&mut arg, &mut errors);
    assert_eq!(
        refused.err().unwrap().message(),
        "cannot export self-taking methods as xsubs"
    );
    assert!(errors.is_empty());
    match &arg {
        FnArg::Receiver(left) => assert_eq!(left.to_string(), "& self"),
        FnArg::Typed(_) => panic!("expected a receiver"),
    }
}

#[test]
fn code_of_one_argument() {
    let pat_type = parameter(Vec::new(), "a");
    let arg_attr = ArgumentAttr {
        attr_type: Some(ArgumentAttrType::Raw),
        pat_type: &pat_type,
    };
    let code = extract_argument_code(
        &arg_attr,
        Span::call_site(),
        &name("rest"),
        &name("x"),
        tokens("{ missing }"),
    );
    let expected = "let x: ::perlmod::Value = match rest.next() {
        Some(arg) => ::perlmod::Value::from(arg),
        None => { missing }
    };";
    assert_eq!(code.to_string(), tokens(expected).to_string());
    let code = deserialized_argument_code(
        &arg_attr,
        Span::call_site(),
        &arg_attr.pat_type.ty,
        &name("y"),
        name("x"),
    );
    assert_eq!(code.to_string(), tokens("let y = x;").to_string());
}

#[test]
fn values_of_a_list_are_deserialized_one_by_one() {
    let pat_type = parameter(Vec::new(), "a");
    let arg_attr = ArgumentAttr {
        attr_type: Some(ArgumentAttrType::TrailingList(Span::call_site())),
        pat_type: &pat_type,
    };
    let code = deserialized_argument_code(
        &arg_attr,
        Span::call_site(),
        &arg_attr.pat_type.ty,
        &name("y"),
        name("x"),
    );
    let expected = "let y = {
        let _guard = ::perlmod::__private__::InParameterDeserialization::guard();
        match x.map(|value| ::perlmod::from_ref_value(&value)).collect:: <Result< &str, _>>() {
            Ok(arg) => arg,
            Err(err) => {
                return Err(::perlmod::Value::new_string(&format!(\"{err:#}\\n\"))
                    .into_mortal()
                    .into_raw());
            }
        }
    };";
    assert_eq!(code.to_string(), tokens(expected).to_string());
}

#[test]
fn parameters_are_passed_in_order() {
    let mut errors: Vec<Error> = Vec::new();
    let inputs = vec![
        FnArg::Typed(parameter(Vec::new(), "a")),
        FnArg::Typed(parameter(vec![attribute("cv")], "b")),
        FnArg::Typed(parameter(vec![attribute("list")], "c")),
    ];
    let parameters = Parameters::from_inputs(inputs, Span::call_site(), &name("args"), &mut errors);
    let parameters = parameters.ok().unwrap();
    assert_eq!(parameters.count, 3);
    assert_eq!(parameters.trailing_options, 0);
    assert!(parameters.had_list_param);
    assert_eq!(
        parameters.passed_arguments.to_string(),
        "deserialized_arg_a , b , deserialized_arg_c"
    );
    assert_eq!(parameters.cv_arg_param.to_string(), "b : & str");
    let text = parameters.deserialized_arguments.to_string();
    assert!(text.starts_with("let deserialized_arg_a :"));
    assert!(text.contains("let deserialized_arg_c ="));
    assert!(!text.contains("arg_b"));
}
