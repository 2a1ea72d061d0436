//! Identifiers.

use proc_macro2::Span;
use vstd::prelude::*;
use vstd::string::StringExecFns;

verus! {

/// A place in the source text, as the compiler tracks it. Nothing here looks inside one: spans
/// are only handed on.
#[verifier::external_type_specification]
#[verifier::external_body]
pub struct ExSpan(proc_macro2::Span);

/// Whether a character beyond ASCII has the Unicode property `XID_Start`.
pub uninterp spec fn xid_start(c: char) -> bool;

/// Whether a character beyond ASCII has the Unicode property `XID_Continue`.
pub uninterp spec fn xid_continue(c: char) -> bool;

pub open spec fn ascii_letter(c: char) -> bool {
    'a' <= c <= 'z' || 'A' <= c <= 'Z'
}

/// The characters that `unicode_ident::is_xid_start` accepts: letters within ASCII, and what
/// `xid_start` names beyond it.
pub open spec fn start_char(c: char) -> bool {
    if (c as u32) < 128 {
        ascii_letter(c)
    } else {
        xid_start(c)
    }
}

/// The characters that `unicode_ident::is_xid_continue` accepts: letters, digits and the
/// underscore within ASCII, and what `xid_continue` names beyond it.
pub open spec fn continue_char(c: char) -> bool {
    if (c as u32) < 128 {
        ascii_letter(c) || '0' <= c <= '9' || c == '_'
    } else {
        xid_continue(c)
    }
}

/// `unicode_ident::is_xid_start` tells ASCII letters from the rest of ASCII; beyond ASCII it is a
/// lookup in the Unicode tables, which `xid_start` names.
pub assume_specification[ unicode_ident::is_xid_start ](ch: char) -> (r: bool)
    ensures
        r == (if (ch as u32) < 128 {
            ascii_letter(ch)
        } else {
            xid_start(ch)
        }),
;

/// `unicode_ident::is_xid_continue` accepts ASCII letters, ASCII digits and the underscore; beyond
/// ASCII it is a lookup in the Unicode tables, which `xid_continue` names.
pub assume_specification[ unicode_ident::is_xid_continue ](ch: char) -> (r: bool)
    ensures
        r == (if (ch as u32) < 128 {
            ascii_letter(ch) || '0' <= ch <= '9' || ch == '_'
        } else {
            xid_continue(ch)
        }),
;

/// Whether every character of a text may stand inside an identifier.
pub open spec fn ident_tail(text: Seq<char>) -> bool {
    forall|i: int| 0 <= i < text.len() ==> continue_char(#[trigger] text[i])
}

/// Whether a text is an identifier or a keyword, without a raw prefix.
pub open spec fn ident_text(text: Seq<char>) -> bool {
    &&& text.len() > 0
    &&& start_char(text[0]) || text[0] == '_'
    &&& ident_tail(text)
}

/// Whether a text has no characters beyond ASCII.
pub open spec fn ascii_text(text: Seq<char>) -> bool {
    forall|i: int| 0 <= i < text.len() ==> (#[trigger] text[i] as u32) < 128
}

/// Whether a text is an identifier or a keyword and has no characters beyond ASCII.
pub open spec fn word_text(text: Seq<char>) -> bool {
    &&& ident_text(text)
    &&& ascii_text(text)
}

/// How an identifier with characters beyond ASCII is spelled when it is made of `name` at `span`.
pub uninterp spec fn ident_spelling(name: Seq<char>, span: Span) -> Seq<char>;

/// How an identifier is spelled when it is made of `name` at `span`: ASCII stays as it is.
pub open spec fn spelling(name: Seq<char>, span: Span) -> Seq<char> {
    if ascii_text(name) {
        name
    } else {
        ident_spelling(name, span)
    }
}

/// Whether the identifier that is made of `name` at `span` is spelled like `name`.
pub open spec fn spelled(name: Seq<char>, span: Span) -> bool {
    spelling(name, span) == name
}

/// `Ident::new` makes an identifier, and its `to_string` spells it. Inside a macro the compiler
/// makes the identifier and brings its name into the Unicode normal form NFC, which leaves ASCII as
/// it is; elsewhere the name is kept. What is spelled so is an identifier again, and `Ident::new`
/// makes the same identifier of it. `Ident::new` panics on a text that is not an identifier. It is
/// left unsaid that a compiler with older Unicode tables than those of `unicode_ident` also panics
/// on letters that it does not know yet.
#[verifier::external_body]
fn spell(name: &str, span: Span) -> (r: String)
    requires
        ident_text(name@),
    ensures
        r@ == (if ascii_text(name@) {
            name@
        } else {
            ident_spelling(name@, span)
        }),
        ident_text(r@),
        spelled(r@, span),
{
    proc_macro2::Ident::new(name, span).to_string()
}

/// Whether an identifier can be written with the raw prefix `r#`.
pub open spec fn can_be_raw(name: Seq<char>) -> bool {
    &&& name != "_"@
    &&& name != "super"@
    &&& name != "self"@
    &&& name != "Self"@
    &&& name != "crate"@
}

/// What an identifier is: its name without the raw prefix, whether it has that prefix, and where
/// it stands.
pub struct IdentView {
    pub name: Seq<char>,
    pub raw: bool,
    pub span: Span,
}

impl IdentView {
    pub open spec fn wf(self) -> bool {
        &&& ident_text(self.name)
        &&& spelled(self.name, self.span)
        &&& self.raw ==> can_be_raw(self.name)
    }

    /// The identifier as it is written.
    pub open spec fn text(self) -> Seq<char> {
        if self.raw {
            "r#"@ + self.name
        } else {
            self.name
        }
    }

    /// The identifier without the raw prefix.
    pub open spec fn unraw(self) -> IdentView {
        IdentView { name: self.name, raw: false, span: self.span }
    }

    /// The identifier that is made of `prefix` followed by the name of this one.
    pub open spec fn prefixed(self, prefix: Seq<char>) -> IdentView {
        IdentView { name: spelling(prefix + self.name, self.span), raw: false, span: self.span }
    }
}

/// An identifier or keyword at a place in the source text.
pub struct Ident {
    name: String,
    raw: bool,
    span: Span,
}

impl View for Ident {
    type V = IdentView;

    closed spec fn view(&self) -> IdentView {
        IdentView { name: self.name@, raw: self.raw, span: self.span }
    }
}

/// Whether every character of `text` may stand inside an identifier.
pub fn is_ident_tail(text: &str) -> (r: bool)
    ensures
        r == ident_tail(text@),
{
    for c in it: text.chars()
        invariant
            it.seq() == text@,
            forall|i: int| 0 <= i < it.index() ==> continue_char(#[trigger] text@[i]),
    {
        if !unicode_ident::is_xid_continue(c) {
            return false;
        }
    }
    true
}

/// Whether `text` is an identifier or a keyword, without a raw prefix.
pub fn is_ident_text(text: &str) -> (r: bool)
    ensures
        r == ident_text(text@),
{
    let first = text.chars().next();
    match first {
        None => false,
        Some(c) => (unicode_ident::is_xid_start(c) || c == '_') && is_ident_tail(text),
    }
}

/// Whether two texts are the same.
pub(crate) fn same_text(a: &str, b: &str) -> (r: bool)
    ensures
        r == (a@ == b@),
{
    a.to_owned() == b.to_owned()
}

impl Ident {
    #[verifier::type_invariant]
    spec fn inv(self) -> bool {
        self@.wf()
    }

    /// The identifier without a raw prefix that is made of `name`; none where `name` is not one.
    pub fn new(name: &str, span: Span) -> (r: Option<Ident>)
        ensures
            match r {
                Some(ident) => ident_text(name@) && ident@ == (IdentView {
                    name: spelling(name@, span),
                    raw: false,
                    span,
                }),
                None => !ident_text(name@),
            },
    {
        if is_ident_text(name) {
            Some(Ident { name: spell(name, span), raw: false, span })
        } else {
            None
        }
    }

    /// The raw identifier that is made of `name`; none where `name` is not an identifier or cannot
    /// be raw.
    pub fn new_raw(name: &str, span: Span) -> (r: Option<Ident>)
        ensures
            match r {
                Some(ident) => {
                    &&& ident_text(name@)
                    &&& can_be_raw(spelling(name@, span))
                    &&& ident@ == (IdentView { name: spelling(name@, span), raw: true, span })
                },
                None => !(ident_text(name@) && can_be_raw(spelling(name@, span))),
            },
    {
        if !is_ident_text(name) {
            return None;
        }
        let name = spell(name, span);
        let text = name.as_str();
        if same_text(text, "_") || same_text(text, "super") || same_text(text, "self") || same_text(
            text,
            "Self",
        ) || same_text(text, "crate") {
            None
        } else {
            Some(Ident { name, raw: true, span })
        }
    }

    /// An identifier without a raw prefix and without characters beyond ASCII.
    pub(crate) fn word(name: &str, span: Span) -> (r: Ident)
        requires
            word_text(name@),
        ensures
            r@ == (IdentView { name: name@, raw: false, span }),
    {
        Ident { name: name.to_owned(), raw: false, span }
    }

    /// Where the identifier stands.
    pub fn span(&self) -> (r: Span)
        ensures
            r == self@.span,
    {
        self.span
    }

    /// Whether the identifier has the raw prefix.
    pub fn is_raw(&self) -> (r: bool)
        ensures
            r == self@.raw,
    {
        self.raw
    }

    /// The name without the raw prefix.
    pub fn name(&self) -> (r: &str)
        ensures
            r@ == self@.name,
            self@.wf(),
    {
        proof {
            use_type_invariant(self);
        }
        self.name.as_str()
    }

    /// The identifier as it is written.
    pub fn text(&self) -> (r: String)
        ensures
            r@ == self@.text(),
    {
        if self.raw {
            let mut text = "r#".to_owned();
            text.append(self.name.as_str());
            text
        } else {
            self.name.clone()
        }
    }

    /// Whether the identifier is written as `text`.
    pub fn is(&self, text: &str) -> (r: bool)
        ensures
            r == (self@.text() == text@),
    {
        self.text() == text.to_owned()
    }

    /// The identifier without the raw prefix.
    pub fn unraw(&self) -> (r: Ident)
        ensures
            r@ == self@.unraw(),
    {
        proof {
            use_type_invariant(self);
        }
        Ident { name: self.name.clone(), raw: false, span: self.span }
    }

    /// The identifier that is made of `prefix` followed by the name of this one.
    pub(crate) fn prefixed(&self, prefix: &str) -> (r: Ident)
        requires
            ident_text(prefix@),
        ensures
            r@ == self@.prefixed(prefix@),
    {
        proof {
            use_type_invariant(self);
        }
        let mut name = prefix.to_owned();
        name.append(self.name.as_str());
        Ident { name: spell(name.as_str(), self.span), raw: false, span: self.span }
    }
}

impl Clone for Ident {
    fn clone(&self) -> (r: Ident)
        ensures
            r@ == self@,
    {
        proof {
            use_type_invariant(self);
        }
        Ident { name: self.name.clone(), raw: self.raw, span: self.span }
    }
}

/// Different names stay different behind the same prefix.
pub(crate) proof fn lemma_prefix_is_injective(prefix: Seq<char>, a: Seq<char>, b: Seq<char>)
    ensures
        prefix + a == prefix + b ==> a == b,
{
    if prefix + a == prefix + b {
        assert((prefix + a).skip(prefix.len() as int) =~= a);
        assert((prefix + b).skip(prefix.len() as int) =~= b);
    }
}

/// What may stand inside an identifier may follow one; and an identifier that is cut in two is an
/// identifier and something that may follow it.
pub proof fn law_identifiers_can_be_extended(a: Seq<char>, b: Seq<char>)
    requires
        a.len() > 0,
    ensures
        ident_text(a + b) <==> ident_text(a) && ident_tail(b),
        ident_tail(a + b) <==> ident_tail(a) && ident_tail(b),
{
    let c = a + b;
    assert(c[0] == a[0]);
    if ident_tail(c) {
        assert forall|i: int| 0 <= i < a.len() implies continue_char(#[trigger] a[i]) by {
            assert(c[i] == a[i]);
        }
        assert forall|i: int| 0 <= i < b.len() implies continue_char(#[trigger] b[i]) by {
            assert(c[a.len() + i] == b[i]);
        }
    }
}

/// The raw prefix alone tells a raw identifier from one that is not.
pub proof fn law_raw_identifiers_are_prefixed(ident: IdentView)
    ensures
        ident.unraw().text() == ident.name,
        ident.raw ==> ident.text().len() == ident.name.len() + 2 && ident.text()[0] == 'r'
            && ident.text()[1] == '#' && ident.text().skip(2) == ident.name,
        !ident.raw ==> ident.text() == ident.name,
{
    reveal_strlit("r#");
    assert(("r#"@ + ident.name).skip(2) =~= ident.name);
}

/// A single character is an identifier where it may start one, and may stand inside one where it
/// may continue one.
pub proof fn law_identifiers_of_one_character(c: char)
    ensures
        ident_tail(seq![c]) <==> continue_char(c),
        ident_text(seq![c]) <==> (start_char(c) || c == '_') && continue_char(c),
        ident_tail(Seq::empty()),
        !ident_text(Seq::empty()),
{
    assert(seq![c][0] == c);
}

} // verus!
