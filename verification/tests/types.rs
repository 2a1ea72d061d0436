use perlmod_export::ident::Ident;
use perlmod_export::syntax::{
    GenericArgument, Path, PathArguments, PathSegment, Type, TypePath, TypeTuple,
};
use perlmod_export::types::{get_result_type, is_option_type, is_result_type};
use proc_macro2::{Span, TokenStream};

fn tokens(text: &str) -> TokenStream {
    text.parse().unwrap()
}

fn segment(name: &str, arguments: PathArguments) -> PathSegment {
    let ident = match name.strip_prefix("r#") {
        Some(name) => Ident::new_raw(name, Span::call_site()).unwrap(),
        None => Ident::new(name, Span::call_site()).unwrap(),
    };
    PathSegment { ident, arguments }
}

fn path_type(qself: bool, segments: Vec<PathSegment>, text: &str) -> Type {
    Type::Path(TypePath {
        qself,
        path: Path {
            leading_colon: false,
            segments,
            span: Span::call_site(),
        },
        tokens: tokens(text),
    })
}

fn simple(name: &str) -> Type {
    path_type(false, vec![segment(name, PathArguments::Absent)], name)
}

fn args(arguments: Vec<GenericArgument>) -> PathArguments {
    PathArguments::AngleBracketed(arguments)
}

fn generic(name: &str, inner: Vec<Type>) -> Type {
    let arguments = inner.into_iter().map(GenericArgument::Type).collect();
    path_type(false, vec![segment(name, args(arguments))], name)
}

fn qualified(module: &str, name: &str, inner: Vec<Type>) -> Type {
    let arguments = inner.into_iter().map(GenericArgument::Type).collect();
    path_type(
        false,
        vec![
            segment("std", PathArguments::Absent),
            segment(module, PathArguments::Absent),
            segment(name, args(arguments)),
        ],
        name,
    )
}

fn shown(ty: Option<&Type>) -> Option<String> {
    ty.map(|ty| ty.tokens().to_string())
}

#[test]
fn results_are_recognised() {
    let ty = generic("Result", vec![simple("u8"), simple("Error")]);
    assert_eq!(shown(is_result_type(&ty)), Some("u8".to_string()));
    // an alias with an implicit error type
    let ty = generic("Result", vec![simple("u8")]);
    assert_eq!(shown(is_result_type(&ty)), Some("u8".to_string()));
    let ty = qualified("result", "Result", vec![simple("u8"), simple("Error")]);
    assert_eq!(shown(is_result_type(&ty)), Some("u8".to_string()));
}

#[test]
fn other_types_are_no_results() {
    let refused = vec![
        simple("Result"),
        simple("u8"),
        generic("Option", vec![simple("u8")]),
        generic("r#Result", vec![simple("u8")]),
        generic("Result", vec![]),
        generic("Result", vec![simple("a"), simple("b"), simple("c")]),
        qualified("option", "Result", vec![simple("u8")]),
        path_type(
            true,
            vec![segment("Result", args(vec![GenericArgument::Type(simple("u8"))]))],
            "Result",
        ),
        path_type(
            false,
            vec![segment("Result", args(vec![GenericArgument::Other]))],
            "Result",
        ),
        path_type(
            false,
            vec![
                segment("result", PathArguments::Absent),
                segment("Result", args(vec![GenericArgument::Type(simple("u8"))])),
            ],
            "Result",
        ),
        path_type(false, vec![segment("Result", PathArguments::Parenthesized)], "Result"),
        path_type(false, Vec::new(), ""),
        Type::Other(tokens("&str")),
        Type::Tuple(TypeTuple {
            elems: vec![simple("u8")],
            tokens: tokens("(u8,)"),
        }),
    ];
    for ty in &refused {
        assert!(is_result_type(ty).is_none(), "{}", ty.tokens());
        let (same, result) = get_result_type(ty);
        assert!(!result);
        assert_eq!(same.tokens().to_string(), ty.tokens().to_string());
    }
}

#[test]
fn options_are_recognised() {
    let ty = generic("Option", vec![simple("String")]);
    assert_eq!(shown(is_option_type(&ty)), Some("String".to_string()));
    let ty = qualified("option", "Option", vec![simple("String")]);
    assert_eq!(shown(is_option_type(&ty)), Some("String".to_string()));
    for ty in [
        simple("Option"),
        generic("Option", vec![simple("a"), simple("b")]),
        generic("Option", vec![]),
        qualified("result", "Option", vec![simple("a")]),
        generic("Result", vec![simple("a")]),
    ] {
        assert!(is_option_type(&ty).is_none());
    }
}

#[test]
fn only_one_result_is_taken_off() {
    let ty = generic("Result", vec![generic("Result", vec![simple("u8")])]);
    let (inner, result) = get_result_type(&ty);
    assert!(result);
    assert_eq!(shown(is_result_type(inner)), Some("u8".to_string()));
}

#[test]
fn no_type_is_both_result_and_option() {
    for name in ["Result", "Option"] {
        let ty = generic(name, vec![simple("u8")]);
        assert!(is_result_type(&ty).is_none() != is_option_type(&ty).is_none());
    }
}
