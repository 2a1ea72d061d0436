use perlmod_export::prototype::gen_prototype;

#[test]
fn prototype_of_required_parameters() {
    assert_eq!(gen_prototype(0, 0, false), "");
    assert_eq!(gen_prototype(1, 0, false), "$");
    assert_eq!(gen_prototype(3, 0, false), "$$$");
}

#[test]
fn prototype_of_optional_parameters() {
    assert_eq!(gen_prototype(1, 1, false), ";$");
    assert_eq!(gen_prototype(3, 2, false), "$;$$");
}

#[test]
fn prototype_of_list_parameter() {
    assert_eq!(gen_prototype(1, 0, true), ";@");
    assert_eq!(gen_prototype(3, 0, true), "$$;@");
    assert_eq!(gen_prototype(4, 2, true), "$;$$@");
}

#[test]
fn prototype_has_one_dollar_per_scalar() {
    for (count, options, list) in [(5usize, 2usize, true), (5, 0, false), (2, 1, true)] {
        let proto = gen_prototype(count, options, list);
        assert_eq!(proto.matches('$').count(), count - list as usize);
        assert_eq!(proto.contains(';'), options > 0 || list);
        assert_eq!(proto.ends_with('@'), list);
    }
}

#[test]
fn prototype_is_unambiguous() {
    let all = [
        gen_prototype(2, 0, false),
        gen_prototype(2, 1, false),
        gen_prototype(2, 2, false),
        gen_prototype(2, 0, true),
        gen_prototype(2, 1, true),
        gen_prototype(3, 0, false),
    ];
    for i in 0..all.len() {
        for j in 0..i {
            assert_ne!(all[i], all[j]);
        }
    }
}
