use perlmod_export::decimal::decimal_text;
use perlmod_export::ident::{is_ident_tail, is_ident_text, Ident};
use proc_macro2::Span;

#[test]
fn identifiers_are_recognised() {
    for text in ["a", "_", "_x1", "fn", "Größe", "名前", "é"] {
        assert!(is_ident_text(text), "{}", text);
        assert!(Ident::new(text, Span::call_site()).is_some());
    }
    for text in ["", "1a", "a-b", "r#fn", "a b", "::", "\u{301}a"] {
        assert!(!is_ident_text(text), "{}", text);
        assert!(Ident::new(text, Span::call_site()).is_none());
    }
}

#[test]
fn accepted_identifiers_are_those_of_the_token_library() {
    for text in ["a", "_", "_x1", "fn", "Größe", "名前", "Self"] {
        assert_eq!(proc_macro2::Ident::new(text, Span::call_site()).to_string(), text);
    }
}

#[test]
fn identifiers_are_spelled_as_those_of_the_token_library() {
    for text in ["a", "_x1", "Gr\u{f6}\u{df}e", "\u{e9}", "e\u{301}", "\u{212a}"] {
        let spelled = proc_macro2::Ident::new(text, Span::call_site()).to_string();
        let ident = Ident::new(text, Span::call_site()).unwrap();
        assert_eq!(ident.name(), spelled);
        assert_eq!(ident.text(), spelled);
        let again = Ident::new(ident.name(), Span::call_site()).unwrap();
        assert_eq!(again.name(), ident.name());
        let raw = Ident::new_raw(text, Span::call_site()).unwrap();
        assert_eq!(raw.name(), spelled);
        assert_eq!(raw.text(), format!("r#{}", spelled));
    }
}

#[test]
fn tails_may_start_with_digits() {
    assert!(is_ident_tail(""));
    assert!(is_ident_tail("1Foo__Bar"));
    assert!(is_ident_tail("a\u{301}"));
    assert!(!is_ident_tail("Foo::Bar"));
    assert!(!is_ident_tail("a b"));
}

#[test]
fn raw_identifiers() {
    let raw = Ident::new_raw("type", Span::call_site()).unwrap();
    assert!(raw.is_raw());
    assert_eq!(raw.name(), "type");
    assert_eq!(raw.text(), "r#type");
    assert!(raw.is("r#type"));
    assert!(!raw.is("type"));
    let plain = raw.unraw();
    assert!(!plain.is_raw());
    assert_eq!(plain.text(), "type");
    assert_eq!(raw.clone().text(), "r#type");
    for text in ["_", "super", "self", "Self", "crate", "", "1"] {
        assert!(Ident::new_raw(text, Span::call_site()).is_none(), "{}", text);
    }
}

#[test]
fn numbers_are_written_in_decimal() {
    for n in [0usize, 7, 10, 99, 100, 12345, usize::MAX] {
        assert_eq!(decimal_text(n), n.to_string());
    }
}
