//! Pieces of generated code that occur in several places.

use crate::ident::word_text;
use crate::tokens::{lemma_empty_add, At, Tok, Writer};
use crate::words::lemma_words;
use vstd::prelude::*;

verus! {

broadcast use lemma_empty_add;

impl At {
    /// `Err(::perlmod::Value::new_string(text).into_mortal().into_raw())`
    pub open spec fn raised(self, text: Seq<Tok>) -> Seq<Tok> {
        self.word("Err"@) + self.paren(
            self.seg("perlmod"@) + self.seg("Value"@) + self.seg("new_string"@) + self.paren(text)
                + self.dot("into_mortal"@) + self.unit() + self.dot("into_raw"@) + self.unit(),
        )
    }

    /// `&format!("{err:#}\n")`
    pub open spec fn error_text(self) -> Seq<Tok> {
        self.op('&') + self.word("format"@) + self.op('!') + self.paren(
            self.string("{err:#}\n"@),
        )
    }

    /// `return` with an `err` that is shown to Perl.
    pub open spec fn return_error(self) -> Seq<Tok> {
        self.word("return"@) + self.raised(self.error_text()) + self.op(';')
    }

    /// `Err(err) => { .. }`, which returns the error.
    pub open spec fn error_arm(self) -> Seq<Tok> {
        self.word("Err"@) + self.paren(self.word("err"@)) + self.arrow() + self.brace(
            self.return_error(),
        )
    }

    /// `*mut ::perlmod::ffi::SV`
    pub open spec fn sv_pointer(self) -> Seq<Tok> {
        self.op('*') + self.word("mut"@) + self.seg("perlmod"@) + self.seg("ffi"@) + self.seg(
            "SV"@,
        )
    }

    /// `#[name(argument)]`
    pub open spec fn attribute(self, name: Seq<char>, argument: Seq<char>) -> Seq<Tok> {
        self.op('#') + self.bracket(self.word(name) + self.paren(self.word(argument)))
    }
}

impl Writer {
    pub(crate) fn raised(&mut self, text: Writer)
        ensures
            final(self).tokens() == old(self).tokens() + old(self).at().raised(text.tokens()),
            final(self).at() == old(self).at(),
    {
        proof {
            lemma_words();
        }
        let mut inner = self.inner();
        inner.seg("perlmod");
        inner.seg("Value");
        inner.seg("new_string");
        inner.paren(text);
        inner.dot("into_mortal");
        inner.unit();
        inner.dot("into_raw");
        inner.unit();
        let mut w = self.inner();
        w.word("Err");
        w.paren(inner);
        self.append(w);
    }

    pub(crate) fn error_text(&mut self)
        ensures
            final(self).tokens() == old(self).tokens() + old(self).at().error_text(),
            final(self).at() == old(self).at(),
    {
        proof {
            lemma_words();
        }
        let mut format = self.inner();
        format.string("{err:#}\n");
        let mut w = self.inner();
        w.op('&');
        w.word("format");
        w.op('!');
        w.paren(format);
        self.append(w);
    }

    pub(crate) fn return_error(&mut self)
        ensures
            final(self).tokens() == old(self).tokens() + old(self).at().return_error(),
            final(self).at() == old(self).at(),
    {
        proof {
            lemma_words();
        }
        let mut text = self.inner();
        text.error_text();
        let mut w = self.inner();
        w.word("return");
        w.raised(text);
        w.op(';');
        self.append(w);
    }

    pub(crate) fn error_arm(&mut self)
        ensures
            final(self).tokens() == old(self).tokens() + old(self).at().error_arm(),
            final(self).at() == old(self).at(),
    {
        proof {
            lemma_words();
        }
        let mut body = self.inner();
        body.return_error();
        let mut w = self.inner();
        w.word("Err");
        w.paren_word("err");
        w.arrow();
        w.brace(body);
        self.append(w);
    }

    pub(crate) fn sv_pointer(&mut self)
        ensures
            final(self).tokens() == old(self).tokens() + old(self).at().sv_pointer(),
            final(self).at() == old(self).at(),
    {
        proof {
            lemma_words();
        }
        let mut w = self.inner();
        w.op('*');
        w.word("mut");
        w.seg("perlmod");
        w.seg("ffi");
        w.seg("SV");
        self.append(w);
    }

    pub(crate) fn attribute(&mut self, name: &str, argument: &str)
        requires
            word_text(name@),
            word_text(argument@),
        ensures
            final(self).tokens() == old(self).tokens() + old(self).at().attribute(
                name@,
                argument@,
            ),
            final(self).at() == old(self).at(),
    {
        let mut content = self.inner();
        content.word(name);
        content.paren_word(argument);
        let mut w = self.inner();
        w.op('#');
        w.bracket(content);
        self.append(w);
    }

    /// `(word)`
    pub(crate) fn paren_word(&mut self, text: &str)
        requires
            word_text(text@),
        ensures
            final(self).tokens() == old(self).tokens() + old(self).at().paren(
                old(self).at().word(text@),
            ),
            final(self).at() == old(self).at(),
    {
        let mut inner = self.inner();
        inner.word(text);
        self.paren(inner);
    }
}

} // verus!
