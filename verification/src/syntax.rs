//! The parts of a function's syntax that exporting it reads, and the tokens that it carries along.

use crate::ident::Ident;
use crate::tokens::{extend, lemma_empty_add, stream_tokens, At, Tok, Writer};
use proc_macro2::{Span, TokenStream};
use vstd::prelude::*;

verus! {

/// One segment of a path, such as `Vec<u8>` in `std::vec::Vec<u8>`.
pub struct PathSegment {
    pub ident: Ident,
    pub arguments: PathArguments,
}

/// What follows the name of a path segment.
pub enum PathArguments {
    /// Nothing.
    Absent,
    /// Generic arguments in angle brackets.
    AngleBracketed(Vec<GenericArgument>),
    /// Parameter types in parentheses, as in `Fn(u8) -> u8`.
    Parenthesized,
}

/// A generic argument.
pub enum GenericArgument {
    Type(Type),
    /// A lifetime, a constant or a constraint.
    Other,
}

/// A path.
pub struct Path {
    /// Whether the path starts with `::`.
    pub leading_colon: bool,
    pub segments: Vec<PathSegment>,
    pub span: Span,
}

/// A type that is named by a path.
pub struct TypePath {
    /// Whether the path is qualified by a type, as in `<T as Trait>::Output`.
    pub qself: bool,
    pub path: Path,
    pub tokens: TokenStream,
}

/// A tuple type.
pub struct TypeTuple {
    pub elems: Vec<Type>,
    pub tokens: TokenStream,
}

/// A type, with the tokens that it is written with.
pub enum Type {
    Path(TypePath),
    Tuple(TypeTuple),
    /// A reference, a slice, a function pointer, or any other kind of type.
    Other(TokenStream),
}

impl Type {
    pub open spec fn token_stream(self) -> TokenStream {
        match self {
            Type::Path(path) => path.tokens,
            Type::Tuple(tuple) => tuple.tokens,
            Type::Other(tokens) => tokens,
        }
    }

    /// The tokens that the type is written with.
    pub open spec fn written(self) -> Seq<Tok> {
        stream_tokens(self.token_stream())
    }

    /// The tokens that the type is written with.
    pub fn tokens(&self) -> (r: &TokenStream)
        ensures
            *r == self.token_stream(),
    {
        match self {
            Type::Path(path) => &path.tokens,
            Type::Tuple(tuple) => &tuple.tokens,
            Type::Other(tokens) => tokens,
        }
    }
}

/// The content of an attribute.
pub enum Meta {
    /// A path alone, as in `#[raw]`.
    Path(Path),
    /// A path with arguments in brackets, as in `#[raw(x)]`.
    List(Path),
    /// A path with a value, as in `#[raw = x]`.
    NameValue(Path),
}

/// An outer attribute.
pub struct Attribute {
    pub meta: Meta,
    /// The tokens of `meta`.
    pub meta_tokens: TokenStream,
    /// The tokens of the whole attribute.
    pub tokens: TokenStream,
}

impl Attribute {
    pub open spec fn meta_path(self) -> Path {
        match self.meta {
            Meta::Path(path) => path,
            Meta::List(path) => path,
            Meta::NameValue(path) => path,
        }
    }

    /// The path of the attribute.
    pub fn path(&self) -> (r: &Path)
        ensures
            *r == self.meta_path(),
    {
        match &self.meta {
            Meta::Path(path) => path,
            Meta::List(path) => path,
            Meta::NameValue(path) => path,
        }
    }
}

impl Path {
    /// Whether the path is nothing but the identifier that is written as `text`.
    pub open spec fn is_word(self, text: Seq<char>) -> bool {
        &&& !self.leading_colon
        &&& self.segments@.len() == 1
        &&& self.segments@[0].arguments is Absent
        &&& self.segments@[0].ident@.text() == text
    }

    /// Whether the path is nothing but the identifier that is written as `text`.
    pub fn is_ident(&self, text: &str) -> (r: bool)
        ensures
            r == self.is_word(text@),
    {
        if self.leading_colon || self.segments.len() != 1 {
            return false;
        }
        let segment = &self.segments[0];
        match segment.arguments {
            PathArguments::Absent => segment.ident.is(text),
            _ => false,
        }
    }
}

/// A pattern that is an identifier.
pub struct PatIdent {
    /// Whether the identifier is bound by `ref`.
    pub by_ref: bool,
    pub ident: Ident,
    /// Whether a pattern follows behind `@`.
    pub subpat: bool,
    pub tokens: TokenStream,
}

/// The pattern of a parameter.
pub enum Pat {
    Ident(PatIdent),
    /// A tuple, a struct, a wildcard, or any other kind of pattern.
    Other(TokenStream),
}

impl Pat {
    pub open spec fn token_stream(self) -> TokenStream {
        match self {
            Pat::Ident(ident) => ident.tokens,
            Pat::Other(tokens) => tokens,
        }
    }

    /// The tokens that the pattern is written with.
    pub fn tokens(&self) -> (r: &TokenStream)
        ensures
            *r == self.token_stream(),
    {
        match self {
            Pat::Ident(ident) => &ident.tokens,
            Pat::Other(tokens) => tokens,
        }
    }
}

/// A parameter with a type.
pub struct PatType {
    pub attrs: Vec<Attribute>,
    pub pat: Pat,
    pub colon: Span,
    pub ty: Type,
    /// Where the whole parameter stands.
    pub span: Span,
    /// The comma behind the parameter, if there is one.
    pub comma: Option<Span>,
}

/// A parameter.
pub enum FnArg {
    /// `self` in any form, with its tokens.
    Receiver(TokenStream),
    Typed(PatType),
}

/// The tokens of a list of attributes.
pub open spec fn attributes_written(attrs: Seq<Attribute>) -> Seq<Tok>
    decreases attrs.len(),
{
    if attrs.len() == 0 {
        seq![]
    } else {
        attributes_written(attrs.drop_last()) + stream_tokens(attrs.last().tokens)
    }
}

impl PatType {
    /// The tokens of the parameter with `attrs` for its attributes, and of the comma behind it.
    pub open spec fn written_with(self, attrs: Seq<Attribute>) -> Seq<Tok> {
        attributes_written(attrs) + stream_tokens(self.pat.token_stream()) + (At {
            span: self.colon,
        }).op(':') + self.ty.written() + (match self.comma {
            Some(span) => (At { span }).op(','),
            None => seq![],
        })
    }

    /// Writes the parameter and the comma behind it.
    pub(crate) fn write(&self, stream: &mut TokenStream)
        ensures
            stream_tokens(*final(stream)) == stream_tokens(*old(stream)) + self.written_with(
                self.attrs@,
            ),
    {
        broadcast use lemma_empty_add;

        let mut w = Writer::new(self.colon);
        let mut i: usize = 0;
        while i < self.attrs.len()
            invariant
                i <= self.attrs@.len(),
                w.at() == (At { span: self.colon }),
                w.tokens() == attributes_written(self.attrs@.take(i as int)),
            decreases self.attrs@.len() - i,
        {
            w.splice(&self.attrs[i].tokens);
            i += 1;
            assert(self.attrs@.take(i as int).drop_last() =~= self.attrs@.take(i - 1));
        }
        assert(self.attrs@.take(i as int) =~= self.attrs@);
        w.splice(self.pat.tokens());
        w.op(':');
        w.splice(self.ty.tokens());
        let ghost before = w.tokens();
        match self.comma {
            Some(span) => {
                let mut comma = Writer::new(span);
                comma.op(',');
                w.append(comma);
            },
            None => {
                assert(before =~= before + Seq::<Tok>::empty());
            },
        }
        extend(stream, w.finish());
    }
}

/// Who may use a function.
pub enum Visibility {
    /// Nothing is written: only the module itself.
    Inherited,
    /// What is written, such as `pub`.
    Given(TokenStream),
}

impl Visibility {
    /// The tokens that the visibility is written with.
    pub open spec fn written(self) -> Seq<Tok> {
        match self {
            Visibility::Inherited => seq![],
            Visibility::Given(tokens) => stream_tokens(tokens),
        }
    }
}

/// What a function returns.
pub enum ReturnType {
    /// Nothing is written.
    Default,
    Type(Type),
}

/// The generic parameters of a function.
pub struct Generics {
    /// Whether there is any parameter.
    pub has_params: bool,
    pub tokens: TokenStream,
}

/// The head of a function.
pub struct Signature {
    /// The keyword `async`, where it is written.
    pub asyncness: Option<TokenStream>,
    pub ident: Ident,
    pub generics: Generics,
    /// Where the parentheses around the parameters stand.
    pub paren: Span,
    pub inputs: Vec<FnArg>,
    /// What stands in the parentheses behind the parameters: `...` of a variadic function.
    pub variadic: TokenStream,
    pub output: ReturnType,
}

/// A function.
pub struct ItemFn {
    pub vis: Visibility,
    pub sig: Signature,
    /// All that is written before the parameters: attributes, visibility, qualifiers, name and
    /// generic parameters.
    pub before: TokenStream,
    /// All that is written behind the parameters: return type, conditions and body.
    pub after: TokenStream,
}

/// Attributes are written one by one, in their order.
pub proof fn law_attributes_are_written_in_order(a: Seq<Attribute>, b: Seq<Attribute>)
    ensures
        attributes_written(a + b) == attributes_written(a) + attributes_written(b),
        a.len() == 1 ==> attributes_written(a) == stream_tokens(a[0].tokens),
    decreases b.len(),
{
    if a.len() == 1 {
        assert(a.drop_last() =~= Seq::empty());
        assert(attributes_written(Seq::empty()) =~= seq![]);
        assert(attributes_written(a) =~= stream_tokens(a[0].tokens));
    }
    if b.len() == 0 {
        assert(a + b =~= a);
        assert(attributes_written(a) =~= attributes_written(a) + attributes_written(b));
    } else {
        law_attributes_are_written_in_order(a, b.drop_last());
        assert((a + b).drop_last() =~= a + b.drop_last());
        assert((a + b).last() == b.last());
        assert(attributes_written(a + b) =~= attributes_written(a) + attributes_written(b));
    }
}

/// A parameter is written with its attributes, its pattern, its type and the comma behind it, in
/// this order; other attributes change nothing but what is written of them.
pub proof fn law_parameter_is_written_behind_its_attributes(p: PatType, attrs: Seq<Attribute>)
    ensures
        p.written_with(attrs) == attributes_written(attrs) + p.written_with(Seq::empty()),
        p.written_with(Seq::empty()) == stream_tokens(p.pat.token_stream()) + (At {
            span: p.colon,
        }).op(':') + p.ty.written() + (if p.comma is Some {
            (At { span: p.comma->0 }).op(',')
        } else {
            seq![]
        }),
{
    broadcast use lemma_empty_add;

    assert(attributes_written(Seq::empty()) =~= seq![]);
    assert(p.written_with(attrs) =~= attributes_written(attrs) + p.written_with(Seq::empty()));
}

} // verus!
