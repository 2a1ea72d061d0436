//! Token streams, what they hold, and a writer for tokens at one place in the source text.

use crate::decimal::{decimal, decimal_text, law_decimal_is_digits};
use crate::ident::{can_be_raw, ident_text, spelled, word_text, Ident, IdentView};
use proc_macro2::{Span, TokenStream};
use quote::{ToTokens, TokenStreamExt};
use vstd::prelude::*;

verus! {

/// A sequence of tokens. What one holds is `stream_tokens`.
#[verifier::external_type_specification]
#[verifier::external_body]
pub struct ExTokenStream(proc_macro2::TokenStream);

/// The brackets around a group of tokens.
#[derive(Clone, Copy, PartialEq, Eq, Structural)]
pub enum Delimiter {
    Parenthesis,
    Brace,
    Bracket,
    /// No brackets at all.
    Invisible,
}

/// Whether a punctuation character and the one after it are read as one operator.
#[derive(Clone, Copy, PartialEq, Eq, Structural)]
pub enum Spacing {
    Alone,
    Joint,
}

/// One token of a stream.
pub enum Tok {
    /// An identifier or a keyword.
    Ident(IdentView),
    /// A punctuation character.
    Punct { ch: char, spacing: Spacing, span: Span },
    /// A string literal in plain quotes and without a suffix, by its value.
    Str { value: Seq<char>, span: Span },
    /// Any other literal, as it is written.
    Literal { text: Seq<char>, span: Span },
    /// Tokens between two brackets.
    Group { delimiter: Delimiter, inner: Seq<Tok>, span: Span },
}

/// The tokens of a stream, from the first to the last.
pub uninterp spec fn stream_tokens(stream: TokenStream) -> Seq<Tok>;

/// `TokenStream::new` makes a stream without tokens.
pub assume_specification[ proc_macro2::TokenStream::new ]() -> (r: TokenStream)
    ensures
        stream_tokens(r) == Seq::<Tok>::empty(),
;

/// `TokenStream::is_empty` tells whether a stream has no tokens.
pub assume_specification[ proc_macro2::TokenStream::is_empty ](stream: &TokenStream) -> (r: bool)
    ensures
        r == (stream_tokens(*stream).len() == 0),
;

/// Cloning a `TokenStream` gives a stream of the same tokens.
pub assume_specification[ <proc_macro2::TokenStream as Clone>::clone ](
    stream: &TokenStream,
) -> (r: TokenStream)
    ensures
        stream_tokens(r) == stream_tokens(*stream),
;

/// `Span::call_site` is the place where the running macro was invoked. Which place that is depends
/// on the compiler, so nothing is claimed of it.
pub assume_specification[ proc_macro2::Span::call_site ]() -> Span
;

/// `TokenStream::extend` puts the tokens of another stream behind those of this one.
#[verifier::external_body]
pub(crate) fn extend(stream: &mut TokenStream, more: TokenStream)
    ensures
        stream_tokens(*final(stream)) == stream_tokens(*old(stream)) + stream_tokens(more),
{
    stream.extend(more);
}

/// `Ident::new` makes an identifier, which `TokenStreamExt::append` puts at the end of the stream.
/// Its name is the text that it is made of where that text is spelled as the identifier is.
/// `Ident::new` panics on a text that is not an identifier. It is left unsaid that a compiler with
/// older Unicode tables than those of `unicode_ident` also panics on letters that it does not know
/// yet.
#[verifier::external_body]
fn append_ident(stream: &mut TokenStream, name: &str, span: Span)
    requires
        ident_text(name@),
        spelled(name@, span),
    ensures
        stream_tokens(*final(stream)) == stream_tokens(*old(stream)) + seq![
            Tok::Ident(IdentView { name: name@, raw: false, span }),
        ],
{
    stream.append(proc_macro2::Ident::new(name, span));
}

/// `Ident::new_raw` makes a raw identifier, which `TokenStreamExt::append` puts at the end of the
/// stream. Its name is spelled as that of `Ident::new`. `Ident::new_raw` panics on a text that is
/// not an identifier and on the few identifiers that have no raw form. It is left unsaid that a
/// compiler with older Unicode tables than those of `unicode_ident` also panics on letters that it
/// does not know yet.
#[verifier::external_body]
fn append_raw_ident(stream: &mut TokenStream, name: &str, span: Span)
    requires
        ident_text(name@),
        spelled(name@, span),
        can_be_raw(name@),
    ensures
        stream_tokens(*final(stream)) == stream_tokens(*old(stream)) + seq![
            Tok::Ident(IdentView { name: name@, raw: true, span }),
        ],
{
    stream.append(proc_macro2::Ident::new_raw(name, span));
}

/// The characters that `Punct::new` accepts.
pub open spec fn punct_char(ch: char) -> bool {
    ||| ch == '!' || ch == '#' || ch == '$' || ch == '%' || ch == '&' || ch == '\'' || ch == '*'
    ||| ch == '+' || ch == ',' || ch == '-' || ch == '.' || ch == '/' || ch == ':' || ch == ';'
    ||| ch == '<' || ch == '=' || ch == '>' || ch == '?' || ch == '@' || ch == '^' || ch == '|'
    ||| ch == '~'
}

/// `Punct::new` makes a punctuation token, which `TokenStreamExt::append` puts at the end of the
/// stream. `Punct::new` panics on a character that is no punctuation.
#[verifier::external_body]
fn append_punct(stream: &mut TokenStream, ch: char, spacing: Spacing, span: Span)
    requires
        punct_char(ch),
    ensures
        stream_tokens(*final(stream)) == stream_tokens(*old(stream)) + seq![
            Tok::Punct { ch, spacing, span },
        ],
{
    let mut punct = proc_macro2::Punct::new(
        ch,
        match spacing {
            Spacing::Alone => proc_macro2::Spacing::Alone,
            Spacing::Joint => proc_macro2::Spacing::Joint,
        },
    );
    punct.set_span(span);
    stream.append(punct);
}

/// `Group::new` puts brackets around a stream, and `TokenStreamExt::append` puts the group at the
/// end of another.
#[verifier::external_body]
fn append_group(stream: &mut TokenStream, delimiter: Delimiter, inner: TokenStream, span: Span)
    ensures
        stream_tokens(*final(stream)) == stream_tokens(*old(stream)) + seq![
            Tok::Group { delimiter, inner: stream_tokens(inner), span },
        ],
{
    let bracket = match delimiter {
        Delimiter::Parenthesis => proc_macro2::Delimiter::Parenthesis,
        Delimiter::Brace => proc_macro2::Delimiter::Brace,
        Delimiter::Bracket => proc_macro2::Delimiter::Bracket,
        Delimiter::Invisible => proc_macro2::Delimiter::None,
    };
    let mut group = proc_macro2::Group::new(bracket, inner);
    group.set_span(span);
    stream.append(group);
}

/// `LitStr::new` makes the string literal with a value, which its `to_tokens` puts at the end of
/// the stream.
#[verifier::external_body]
fn append_str(stream: &mut TokenStream, value: &str, span: Span)
    ensures
        stream_tokens(*final(stream)) == stream_tokens(*old(stream)) + seq![
            Tok::Str { value: value@, span },
        ],
{
    syn::LitStr::new(value, span).to_tokens(stream);
}

/// `LitInt::new` makes the integer literal that is written as the given digits, which its
/// `to_tokens` puts at the end of the stream. `LitInt::new` panics on a text that is not an integer
/// literal.
#[verifier::external_body]
fn append_int(stream: &mut TokenStream, digits: &str, span: Span)
    requires
        digits@.len() > 0,
        forall|i: int| 0 <= i < digits@.len() ==> '0' <= #[trigger] digits@[i] <= '9',
    ensures
        stream_tokens(*final(stream)) == stream_tokens(*old(stream)) + seq![
            Tok::Literal { text: digits@, span },
        ],
{
    syn::LitInt::new(digits, span).to_tokens(stream);
}

/// The one token of an identifier.
pub open spec fn ident_token(ident: IdentView) -> Seq<Tok> {
    seq![Tok::Ident(ident)]
}

/// Tokens that all stand at one place in the source text.
pub struct At {
    pub span: Span,
}

impl At {
    /// An identifier or keyword.
    pub open spec fn word(self, text: Seq<char>) -> Seq<Tok> {
        ident_token(IdentView { name: text, raw: false, span: self.span })
    }

    /// An operator of one character.
    pub open spec fn op(self, ch: char) -> Seq<Tok> {
        seq![Tok::Punct { ch, spacing: Spacing::Alone, span: self.span }]
    }

    /// An operator of two characters.
    pub open spec fn op2(self, first: char, second: char) -> Seq<Tok> {
        seq![
            Tok::Punct { ch: first, spacing: Spacing::Joint, span: self.span },
            Tok::Punct { ch: second, spacing: Spacing::Alone, span: self.span },
        ]
    }

    /// A string literal.
    pub open spec fn string(self, value: Seq<char>) -> Seq<Tok> {
        seq![Tok::Str { value, span: self.span }]
    }

    /// An integer literal without a suffix.
    pub open spec fn integer(self, n: nat) -> Seq<Tok> {
        seq![Tok::Literal { text: decimal(n), span: self.span }]
    }

    pub open spec fn group(self, delimiter: Delimiter, inner: Seq<Tok>) -> Seq<Tok> {
        seq![Tok::Group { delimiter, inner, span: self.span }]
    }

    /// `( inner )`
    pub open spec fn paren(self, inner: Seq<Tok>) -> Seq<Tok> {
        self.group(Delimiter::Parenthesis, inner)
    }

    /// `{ inner }`
    pub open spec fn brace(self, inner: Seq<Tok>) -> Seq<Tok> {
        self.group(Delimiter::Brace, inner)
    }

    /// `[ inner ]`
    pub open spec fn bracket(self, inner: Seq<Tok>) -> Seq<Tok> {
        self.group(Delimiter::Bracket, inner)
    }

    /// `()`
    pub open spec fn unit(self) -> Seq<Tok> {
        self.paren(seq![])
    }

    /// `::text`
    pub open spec fn seg(self, text: Seq<char>) -> Seq<Tok> {
        self.op2(':', ':') + self.word(text)
    }

    /// `.text`
    pub open spec fn dot(self, text: Seq<char>) -> Seq<Tok> {
        self.op('.') + self.word(text)
    }

    /// `=>`
    pub open spec fn arrow(self) -> Seq<Tok> {
        self.op2('=', '>')
    }
}

/// Collects tokens that all stand at one place in the source text.
pub(crate) struct Writer {
    stream: TokenStream,
    span: Span,
}

pub(crate) broadcast proof fn lemma_empty_add(tokens: Seq<Tok>)
    ensures
        #[trigger] (Seq::<Tok>::empty() + tokens) == tokens,
{
    assert(Seq::<Tok>::empty() + tokens =~= tokens);
}

impl Writer {
    pub(crate) closed spec fn tokens(&self) -> Seq<Tok> {
        stream_tokens(self.stream)
    }

    pub(crate) closed spec fn at(&self) -> At {
        At { span: self.span }
    }

    pub(crate) fn new(span: Span) -> (w: Writer)
        ensures
            w.tokens() == Seq::<Tok>::empty(),
            w.at() == (At { span }),
    {
        Writer { stream: TokenStream::new(), span }
    }

    /// A writer at the same place.
    pub(crate) fn inner(&self) -> (w: Writer)
        ensures
            w.tokens() == Seq::<Tok>::empty(),
            w.at() == self.at(),
    {
        Writer::new(self.span)
    }

    pub(crate) fn finish(self) -> (stream: TokenStream)
        ensures
            stream_tokens(stream) == self.tokens(),
    {
        self.stream
    }

    pub(crate) fn word(&mut self, text: &str)
        requires
            word_text(text@),
        ensures
            final(self).tokens() == old(self).tokens() + old(self).at().word(text@),
            final(self).at() == old(self).at(),
    {
        append_ident(&mut self.stream, text, self.span);
    }

    pub(crate) fn op(&mut self, ch: char)
        requires
            punct_char(ch),
        ensures
            final(self).tokens() == old(self).tokens() + old(self).at().op(ch),
            final(self).at() == old(self).at(),
    {
        append_punct(&mut self.stream, ch, Spacing::Alone, self.span);
    }

    pub(crate) fn op2(&mut self, first: char, second: char)
        requires
            punct_char(first),
            punct_char(second),
        ensures
            final(self).tokens() == old(self).tokens() + old(self).at().op2(first, second),
            final(self).at() == old(self).at(),
    {
        append_punct(&mut self.stream, first, Spacing::Joint, self.span);
        append_punct(&mut self.stream, second, Spacing::Alone, self.span);
        assert(self.tokens() =~= old(self).tokens() + old(self).at().op2(first, second));
    }

    pub(crate) fn string(&mut self, value: &str)
        ensures
            final(self).tokens() == old(self).tokens() + old(self).at().string(value@),
            final(self).at() == old(self).at(),
    {
        append_str(&mut self.stream, value, self.span);
    }

    pub(crate) fn integer(&mut self, n: usize)
        ensures
            final(self).tokens() == old(self).tokens() + old(self).at().integer(n as nat),
            final(self).at() == old(self).at(),
    {
        proof {
            law_decimal_is_digits(n as nat);
        }
        append_int(&mut self.stream, decimal_text(n).as_str(), self.span);
    }

    /// An integer literal at another place.
    pub(crate) fn integer_at(&mut self, n: usize, span: Span)
        ensures
            final(self).tokens() == old(self).tokens() + (At { span }).integer(n as nat),
            final(self).at() == old(self).at(),
    {
        proof {
            law_decimal_is_digits(n as nat);
        }
        append_int(&mut self.stream, decimal_text(n).as_str(), span);
    }

    /// A string literal at another place.
    pub(crate) fn string_at(&mut self, value: &str, span: Span)
        ensures
            final(self).tokens() == old(self).tokens() + (At { span }).string(value@),
            final(self).at() == old(self).at(),
    {
        append_str(&mut self.stream, value, span);
    }

    pub(crate) fn paren(&mut self, inner: Writer)
        ensures
            final(self).tokens() == old(self).tokens() + old(self).at().paren(inner.tokens()),
            final(self).at() == old(self).at(),
    {
        append_group(&mut self.stream, Delimiter::Parenthesis, inner.stream, self.span);
    }

    pub(crate) fn brace(&mut self, inner: Writer)
        ensures
            final(self).tokens() == old(self).tokens() + old(self).at().brace(inner.tokens()),
            final(self).at() == old(self).at(),
    {
        append_group(&mut self.stream, Delimiter::Brace, inner.stream, self.span);
    }

    pub(crate) fn bracket(&mut self, inner: Writer)
        ensures
            final(self).tokens() == old(self).tokens() + old(self).at().bracket(inner.tokens()),
            final(self).at() == old(self).at(),
    {
        append_group(&mut self.stream, Delimiter::Bracket, inner.stream, self.span);
    }

    pub(crate) fn unit(&mut self)
        ensures
            final(self).tokens() == old(self).tokens() + old(self).at().unit(),
            final(self).at() == old(self).at(),
    {
        let inner = self.inner();
        self.paren(inner);
    }

    pub(crate) fn seg(&mut self, text: &str)
        requires
            word_text(text@),
        ensures
            final(self).tokens() == old(self).tokens() + old(self).at().seg(text@),
            final(self).at() == old(self).at(),
    {
        self.op2(':', ':');
        self.word(text);
        assert(self.tokens() =~= old(self).tokens() + old(self).at().seg(text@));
    }

    pub(crate) fn dot(&mut self, text: &str)
        requires
            word_text(text@),
        ensures
            final(self).tokens() == old(self).tokens() + old(self).at().dot(text@),
            final(self).at() == old(self).at(),
    {
        self.op('.');
        self.word(text);
        assert(self.tokens() =~= old(self).tokens() + old(self).at().dot(text@));
    }

    pub(crate) fn arrow(&mut self)
        ensures
            final(self).tokens() == old(self).tokens() + old(self).at().arrow(),
            final(self).at() == old(self).at(),
    {
        self.op2('=', '>');
    }

    /// An identifier, at its own place.
    pub(crate) fn ident(&mut self, ident: &Ident)
        ensures
            final(self).tokens() == old(self).tokens() + ident_token(ident@),
            final(self).at() == old(self).at(),
    {
        push_ident(&mut self.stream, ident);
    }

    /// Tokens that are written already, each at its own place.
    pub(crate) fn splice(&mut self, tokens: &TokenStream)
        ensures
            final(self).tokens() == old(self).tokens() + stream_tokens(*tokens),
            final(self).at() == old(self).at(),
    {
        extend(&mut self.stream, tokens.clone());
    }

    /// What another writer has collected.
    pub(crate) fn append(&mut self, other: Writer)
        ensures
            final(self).tokens() == old(self).tokens() + other.tokens(),
            final(self).at() == old(self).at(),
    {
        extend(&mut self.stream, other.stream);
    }
}

/// Puts an identifier at the end of a stream.
pub(crate) fn push_ident(stream: &mut TokenStream, ident: &Ident)
    ensures
        stream_tokens(*final(stream)) == stream_tokens(*old(stream)) + ident_token(ident@),
{
    let name = ident.name();
    if ident.is_raw() {
        append_raw_ident(stream, name, ident.span());
    } else {
        append_ident(stream, name, ident.span());
    }
}

} // verus!
