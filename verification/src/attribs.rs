//! What is said in the attribute that exports a function.

use crate::ident::Ident;
use vstd::prelude::*;

verus! {

pub struct FunctionAttrs {
    /// The name that Perl knows the function by, if it is another one.
    pub perl_name: Option<Ident>,
    /// The name of the generated entry point, if it is not the usual one.
    pub xs_name: Option<Ident>,
    /// Whether the function returns Perl values as they are, without serializing them.
    pub raw_return: bool,
    /// The Perl prototype, if it is not to be derived from the parameters.
    pub prototype: Option<String>,
    /// Whether `errno` is handed on to Perl.
    pub errno: bool,
    /// Whether errors are serialized in place of being shown as texts.
    pub serialize_error: bool,
}

} // verus!
