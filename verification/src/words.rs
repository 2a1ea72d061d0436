//! The words that generated code is written with.

use crate::ident::word_text;
use vstd::prelude::*;

verus! {

/// The words that generated code is written with are identifiers or keywords within ASCII.
pub(crate) proof fn lemma_words()
    ensures
        word_text("_"@),
        word_text("__private__"@),
        word_text("__private_push_to_stack"@),
        word_text("_cv"@),
        word_text("_guard"@),
        word_text("_panic"@),
        word_text("add"@),
        word_text("allow"@),
        word_text("arg"@),
        word_text("argmark"@),
        word_text("args"@),
        word_text("as"@),
        word_text("catch_unwind"@),
        word_text("collect"@),
        word_text("compile_error"@),
        word_text("convert"@),
        word_text("copy_errno_to_libc"@),
        word_text("croak"@),
        word_text("CV"@),
        word_text("cv"@),
        word_text("data"@),
        word_text("deprecated"@),
        word_text("deserialized_arg_"@),
        word_text("doc"@),
        word_text("Err"@),
        word_text("err"@),
        word_text("error"@),
        word_text("extern"@),
        word_text("extracted_arg_"@),
        word_text("ffi"@),
        word_text("fn"@),
        word_text("format"@),
        word_text("from"@),
        word_text("from_raw_ref"@),
        word_text("from_ref_value"@),
        word_text("guard"@),
        word_text("hidden"@),
        word_text("if"@),
        word_text("impl_xs_"@),
        word_text("inline"@),
        word_text("InParameterDeserialization"@),
        word_text("into_mortal"@),
        word_text("into_raw"@),
        word_text("is_some"@),
        word_text("iter"@),
        word_text("let"@),
        word_text("map"@),
        word_text("match"@),
        word_text("move"@),
        word_text("mut"@),
        word_text("never"@),
        word_text("new_string"@),
        word_text("new_undef"@),
        word_text("next"@),
        word_text("no_mangle"@),
        word_text("non_pub_export"@),
        word_text("non_snake_case"@),
        word_text("None"@),
        word_text("Ok"@),
        word_text("output"@),
        word_text("panic"@),
        word_text("perlmod"@),
        word_text("pop_arg_mark"@),
        word_text("res"@),
        word_text("Result"@),
        word_text("result"@),
        word_text("return"@),
        word_text("RSPL_stack_resize_by"@),
        word_text("RSPL_stack_sp"@),
        word_text("rv"@),
        word_text("ser"@),
        word_text("set_stack"@),
        word_text("Some"@),
        word_text("sp"@),
        word_text("stack_push_raw"@),
        word_text("std"@),
        word_text("sub"@),
        word_text("SV"@),
        word_text("sv"@),
        word_text("to_return_value"@),
        word_text("to_value"@),
        word_text("try_from"@),
        word_text("TryFrom"@),
        word_text("unsafe"@),
        word_text("Value"@),
        word_text("value"@),
        word_text("xs_"@),
{
    reveal_strlit("_");
    reveal_strlit("__private__");
    reveal_strlit("__private_push_to_stack");
    reveal_strlit("_cv");
    reveal_strlit("_guard");
    reveal_strlit("_panic");
    reveal_strlit("add");
    reveal_strlit("allow");
    reveal_strlit("arg");
    reveal_strlit("argmark");
    reveal_strlit("args");
    reveal_strlit("as");
    reveal_strlit("catch_unwind");
    reveal_strlit("collect");
    reveal_strlit("compile_error");
    reveal_strlit("convert");
    reveal_strlit("copy_errno_to_libc");
    reveal_strlit("croak");
    reveal_strlit("CV");
    reveal_strlit("cv");
    reveal_strlit("data");
    reveal_strlit("deprecated");
    reveal_strlit("deserialized_arg_");
    reveal_strlit("doc");
    reveal_strlit("Err");
    reveal_strlit("err");
    reveal_strlit("error");
    reveal_strlit("extern");
    reveal_strlit("extracted_arg_");
    reveal_strlit("ffi");
    reveal_strlit("fn");
    reveal_strlit("format");
    reveal_strlit("from");
    reveal_strlit("from_raw_ref");
    reveal_strlit("from_ref_value");
    reveal_strlit("guard");
    reveal_strlit("hidden");
    reveal_strlit("if");
    reveal_strlit("impl_xs_");
    reveal_strlit("inline");
    reveal_strlit("InParameterDeserialization");
    reveal_strlit("into_mortal");
    reveal_strlit("into_raw");
    reveal_strlit("is_some");
    reveal_strlit("iter");
    reveal_strlit("let");
    reveal_strlit("map");
    reveal_strlit("match");
    reveal_strlit("move");
    reveal_strlit("mut");
    reveal_strlit("never");
    reveal_strlit("new_string");
    reveal_strlit("new_undef");
    reveal_strlit("next");
    reveal_strlit("no_mangle");
    reveal_strlit("non_pub_export");
    reveal_strlit("non_snake_case");
    reveal_strlit("None");
    reveal_strlit("Ok");
    reveal_strlit("output");
    reveal_strlit("panic");
    reveal_strlit("perlmod");
    reveal_strlit("pop_arg_mark");
    reveal_strlit("res");
    reveal_strlit("Result");
    reveal_strlit("result");
    reveal_strlit("return");
    reveal_strlit("RSPL_stack_resize_by");
    reveal_strlit("RSPL_stack_sp");
    reveal_strlit("rv");
    reveal_strlit("ser");
    reveal_strlit("set_stack");
    reveal_strlit("Some");
    reveal_strlit("sp");
    reveal_strlit("stack_push_raw");
    reveal_strlit("std");
    reveal_strlit("sub");
    reveal_strlit("SV");
    reveal_strlit("sv");
    reveal_strlit("to_return_value");
    reveal_strlit("to_value");
    reveal_strlit("try_from");
    reveal_strlit("TryFrom");
    reveal_strlit("unsafe");
    reveal_strlit("Value");
    reveal_strlit("value");
    reveal_strlit("xs_");
}

} // verus!
