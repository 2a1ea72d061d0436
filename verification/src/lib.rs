//! Expansion of functions that are exported from Rust to Perl.

pub mod argument;
pub mod attribs;
pub mod decimal;
pub mod error;
pub mod fragments;
pub mod function;
pub mod guarantees;
pub mod ident;
pub mod list;
pub mod parameters;
pub mod prototype;
pub mod reading;
pub mod return_kind;
pub mod syntax;
pub mod tokens;
pub mod types;
pub mod words;
