//! Recognition of the types that exporting a function treats in a way of its own. Types are known
//! by their names alone, so one that was imported under another name is not recognised.

use crate::syntax::{GenericArgument, Path, PathArguments, PathSegment, Type};
use vstd::prelude::*;

verus! {

/// Whether a path is `name` or `std::module::name`, with or without `::` before it.
pub open spec fn names(path: Path, module: Seq<char>, name: Seq<char>) -> bool {
    let segs = path.segments@;
    ||| segs.len() == 1 && segs[0].ident@.text() == name
    ||| segs.len() == 3 && segs[0].ident@.text() == "std"@ && segs[1].ident@.text() == module
        && segs[2].ident@.text() == name
}

/// The first generic argument of a path segment, where it is a type and there are from one to `max`
/// arguments.
pub open spec fn first_type_argument(segment: PathSegment, max: nat) -> Option<Type> {
    match segment.arguments {
        PathArguments::AngleBracketed(args) => if 1 <= args@.len() <= max {
            match args@[0] {
                GenericArgument::Type(ty) => Some(ty),
                GenericArgument::Other => None,
            }
        } else {
            None
        },
        _ => None,
    }
}

/// The type that a `Result` holds on success. The error type may be left to an alias of `Result`.
pub open spec fn result_type(ty: Type) -> Option<Type> {
    match ty {
        Type::Path(p) => if !p.qself && names(p.path, "result"@, "Result"@) {
            first_type_argument(p.path.segments@.last(), 2)
        } else {
            None
        },
        _ => None,
    }
}

/// The type that an `Option` may hold.
pub open spec fn option_type(ty: Type) -> Option<Type> {
    match ty {
        Type::Path(p) => if !p.qself && names(p.path, "option"@, "Option"@) {
            first_type_argument(p.path.segments@.last(), 1)
        } else {
            None
        },
        _ => None,
    }
}

/// What a function of a return type hands out on success: what a `Result` holds, and any other type
/// itself.
pub open spec fn success_type(ty: Type) -> Type {
    match result_type(ty) {
        Some(inner) => inner,
        None => ty,
    }
}

/// The reference to an optional value.
pub open spec fn as_reference<'a, T>(value: Option<T>) -> Option<&'a T> {
    match value {
        Some(inner) => Some(&inner),
        None => None,
    }
}

/// The type that a `Result` holds on success, if `ty` is a `Result`.
///
/// Note that renamed imports are not handled at all.
pub fn is_result_type(ty: &Type) -> (r: Option<&Type>)
    ensures
        r == as_reference(result_type(*ty)),
{
    if let Type::Path(p) = ty {
        if p.qself {
            return None;
        }
        let segs = &p.path.segments;
        let is_result = match segs.len() {
            1 => segs[0].ident.is("Result"),
            3 => segs[0].ident.is("std") && segs[1].ident.is("result") && segs[2].ident.is(
                "Result",
            ),
            _ => false,
        };
        if !is_result {
            return None;
        }
        if let PathArguments::AngleBracketed(args) = &segs[segs.len() - 1].arguments {
            // An alias of `Result` may leave the error type implicit.
            if args.len() != 1 && args.len() != 2 {
                return None;
            }
            if let GenericArgument::Type(ty) = &args[0] {
                return Some(ty);
            }
        }
    }
    None
}

/// If the type is a `Result`, the contained success type, otherwise the type itself; and whether it
/// was a `Result`.
pub fn get_result_type(ty: &Type) -> (r: (&Type, bool))
    ensures
        *r.0 == success_type(*ty),
        r.1 == (result_type(*ty) is Some),
{
    match is_result_type(ty) {
        Some(ty) => (ty, true),
        None => (ty, false),
    }
}

/// The type that an `Option` may hold, if `ty` is an `Option`.
///
/// Note that renamed imports are not handled at all.
pub fn is_option_type(ty: &Type) -> (r: Option<&Type>)
    ensures
        r == as_reference(option_type(*ty)),
{
    if let Type::Path(p) = ty {
        if p.qself {
            return None;
        }
        let segs = &p.path.segments;
        let is_option = match segs.len() {
            1 => segs[0].ident.is("Option"),
            3 => segs[0].ident.is("std") && segs[1].ident.is("option") && segs[2].ident.is(
                "Option",
            ),
            _ => false,
        };
        if !is_option {
            return None;
        }
        if let PathArguments::AngleBracketed(args) = &segs[segs.len() - 1].arguments {
            if args.len() != 1 {
                return None;
            }
            if let GenericArgument::Type(ty) = &args[0] {
                return Some(ty);
            }
        }
    }
    None
}

/// No type is both a `Result` and an `Option`.
pub proof fn law_result_is_no_option(ty: Type)
    ensures
        !(result_type(ty) is Some && option_type(ty) is Some),
{
    reveal_strlit("Result");
    reveal_strlit("Option");
    assert("Result"@[0] == 'R');
    assert("Option"@[0] == 'O');
}

/// The names in a path, from the first to the last.
pub open spec fn path_texts(path: Path) -> Seq<Seq<char>> {
    path.segments@.map_values(|segment: PathSegment| segment.ident@.text())
}

/// A type is a `Result` of `inner` exactly where it is written `Result<inner>`, `Result<inner, ..>`
/// or one of these behind `std::result::`; what else is in its path, or in the second argument,
/// does not matter.
pub proof fn law_result_is_known_by_its_name(ty: Type, inner: Type)
    ensures
        result_type(ty) == Some(inner) <==> {
            &&& ty is Path
            &&& !ty->Path_0.qself
            &&& {
                let names = path_texts(ty->Path_0.path);
                names == seq!["Result"@] || names == seq!["std"@, "result"@, "Result"@]
            }
            &&& ty->Path_0.path.segments@.last().arguments matches PathArguments::AngleBracketed(
                args,
            )
            &&& args@.len() == 1 || args@.len() == 2
            &&& args@[0] == GenericArgument::Type(inner)
        },
{
    if let Type::Path(p) = ty {
        lemma_path_texts(p.path, "result"@, "Result"@);
    }
}

/// A type is an `Option` of `inner` exactly where it is written `Option<inner>` or
/// `std::option::Option<inner>`.
pub proof fn law_option_is_known_by_its_name(ty: Type, inner: Type)
    ensures
        option_type(ty) == Some(inner) <==> {
            &&& ty is Path
            &&& !ty->Path_0.qself
            &&& {
                let names = path_texts(ty->Path_0.path);
                names == seq!["Option"@] || names == seq!["std"@, "option"@, "Option"@]
            }
            &&& ty->Path_0.path.segments@.last().arguments matches PathArguments::AngleBracketed(
                args,
            )
            &&& args@.len() == 1
            &&& args@[0] == GenericArgument::Type(inner)
        },
{
    if let Type::Path(p) = ty {
        lemma_path_texts(p.path, "option"@, "Option"@);
    }
}

proof fn lemma_path_texts(path: Path, module: Seq<char>, name: Seq<char>)
    ensures
        names(path, module, name) <==> path_texts(path) == seq![name] || path_texts(path) == seq![
            "std"@,
            module,
            name,
        ],
{
    let texts = path_texts(path);
    let segs = path.segments@;
    assert(texts.len() == segs.len());
    assert(forall|i: int|
        #![trigger texts[i]]
        #![trigger segs[i]]
        0 <= i < segs.len() ==> texts[i] == segs[i].ident@.text());
    if segs.len() == 1 && segs[0].ident@.text() == name {
        assert(texts =~= seq![name]);
    } else if names(path, module, name) {
        assert(texts =~= seq!["std"@, module, name]);
    }
    if texts == seq![name] {
        assert(texts.len() == 1 && texts[0] == name);
        assert(segs[0].ident@.text() == name);
    }
    if texts == seq!["std"@, module, name] {
        assert(texts.len() == 3);
        assert(texts[0] == "std"@ && texts[1] == module && texts[2] == name);
        assert(segs[0].ident@.text() == "std"@ && segs[1].ident@.text() == module
            && segs[2].ident@.text() == name);
    }
}

/// What a function hands out on success is what its `Result` holds, and any other type is handed
/// out itself.
pub proof fn law_success_type(ty: Type)
    ensures
        result_type(ty) is Some ==> result_type(ty) == Some(success_type(ty)),
        result_type(ty) is None ==> success_type(ty) == ty,
{
}

/// A path is nothing but a word exactly where that word is all that is written: without `::` before
/// it, and without arguments or anything else behind it.
pub proof fn law_paths_of_one_word(path: Path, text: Seq<char>)
    ensures
        path.is_word(text) <==> {
            &&& !path.leading_colon
            &&& path_texts(path) == seq![text]
            &&& path.segments@.last().arguments is Absent
        },
{
    let texts = path_texts(path);
    assert(texts.len() == path.segments@.len());
    if path.segments@.len() == 1 {
        assert(texts[0] == path.segments@[0].ident@.text());
    }
    if path.is_word(text) {
        assert(texts =~= seq![text]);
    }
    if texts == seq![text] {
        assert(texts.len() == 1 && texts[0] == text);
    }
}

} // verus!
