use perlmod_export::list::{maybe_struct, reading, ListError, Reading, TestStruct, Value};

fn text(value: &str) -> Value {
    Value {
        text: Ok(value.to_string()),
        record: Err("not a hash".to_string()),
    }
}

fn record(first: &str, second: &str, third: &str) -> Value {
    Value {
        text: Err("not a scalar".to_string()),
        record: Ok(TestStruct {
            first: first.to_string(),
            second: second.to_string(),
            third: third.to_string(),
        }),
    }
}

fn message(all: Vec<Value>) -> String {
    match maybe_struct(&all) {
        Ok(shown) => panic!("unexpected success: {}", shown),
        Err(error) => error.message(),
    }
}

#[test]
fn record_is_shown() {
    assert_eq!(
        maybe_struct(&vec![record("one", "two", "three")]).unwrap(),
        "[one] [two] [three]"
    );
}

#[test]
fn record_and_its_texts_are_shown_alike() {
    let one = maybe_struct(&vec![record("a", "", "c d")]).unwrap();
    let three = maybe_struct(&vec![text("a"), text(""), text("c d")]).unwrap();
    assert_eq!(one, "[a] [] [c d]");
    assert_eq!(one, three);
}

#[test]
fn empty_list_is_refused() {
    assert!(matches!(maybe_struct(&Vec::new()), Err(ListError::Empty)));
    assert_eq!(message(Vec::new()), "empty list");
}

#[test]
fn other_counts_are_refused() {
    assert_eq!(
        message(vec![text("a"), text("b")]),
        "expected 1 or 3 parameters, got 2"
    );
    let mut many = Vec::new();
    for _ in 0..12 {
        many.push(text("x"));
    }
    assert!(matches!(maybe_struct(&many), Err(ListError::Count(12))));
    assert_eq!(message(many), "expected 1 or 3 parameters, got 12");
}

#[test]
fn first_unreadable_value_decides() {
    assert_eq!(message(vec![text("a")]), "not a hash");
    let bad = |message: &str| Value {
        text: Err(message.to_string()),
        record: Err("unused".to_string()),
    };
    assert_eq!(message(vec![text("a"), bad("second"), bad("third")]), "second");
    assert_eq!(message(vec![bad("first"), text("b"), bad("third")]), "first");
    assert_eq!(message(vec![text("a"), text("b"), bad("third")]), "third");
}

#[test]
fn count_decides_how_values_are_read() {
    assert!(matches!(reading(0), Err(ListError::Empty)));
    assert!(matches!(reading(1), Ok(Reading::Record)));
    assert!(matches!(reading(2), Err(ListError::Count(2))));
    assert!(matches!(reading(3), Ok(Reading::Texts)));
    assert!(matches!(reading(4), Err(ListError::Count(4))));
}

#[test]
fn other_readings_do_not_count() {
    let both = |value: &str| Value {
        text: Ok(value.to_string()),
        record: Ok(TestStruct {
            first: "x".to_string(),
            second: "y".to_string(),
            third: "z".to_string(),
        }),
    };
    let mixed = maybe_struct(&vec![both("a"), both("b"), both("c")]).unwrap();
    let plain = maybe_struct(&vec![text("a"), text("b"), text("c")]).unwrap();
    assert_eq!(mixed, "[a] [b] [c]");
    assert_eq!(mixed, plain);
    assert_eq!(maybe_struct(&vec![both("a")]).unwrap(), "[x] [y] [z]");
}
