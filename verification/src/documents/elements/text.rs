//! A span of text inside a run.

use crate::markup::{balanced, lemma_balanced_element, lemma_balanced_leaf, BuildXML, Token};
use crate::xml_builder::{text_tokens, XMLBuilder};
use vstd::prelude::*;

verus! {

/// A span of text. The text is written as given, without escaping.
#[derive(Debug, PartialEq)]
pub struct Text {
    pub text: String,
    pub preserve_space: bool,
}

/// A span of text as a value: its characters, and whether a reader keeps the
/// white space at their ends.
pub struct TextView {
    pub text: Seq<char>,
    pub preserve_space: bool,
}

impl View for Text {
    type V = TextView;

    open spec fn view(&self) -> TextView {
        TextView { text: self.text@, preserve_space: self.preserve_space }
    }
}

impl TextView {
    /// The markup of the span: a text element around the characters.
    pub open spec fn tokens(self) -> Seq<Token> {
        text_tokens(self.text, self.preserve_space)
    }

    /// The markup of a span of text is balanced.
    pub proof fn lemma_balanced(self)
        ensures
            balanced(self.tokens()),
    {
        let start = self.tokens()[0];
        let inner = seq![Token::Chars { text: self.text }];
        lemma_balanced_leaf(inner[0]);
        lemma_balanced_element("w:t"@, start->Start_attrs, inner);
        assert(self.tokens() =~= seq![start] + inner + seq![Token::End { name: "w:t"@ }]);
    }
}

impl Text {
    /// A span that holds `text` and keeps the white space at its ends.
    pub fn new(text: &str) -> (t: Text)
        ensures
            t@ == (TextView { text: text@, preserve_space: true }),
    {
        Text { text: text.to_owned(), preserve_space: true }
    }
}

impl Clone for Text {
    fn clone(&self) -> (t: Text)
        ensures
            t == *self,
    {
        Text { text: self.text.clone(), preserve_space: self.preserve_space }
    }
}

impl BuildXML for Text {
    open spec fn tokens(&self) -> Seq<Token> {
        self@.tokens()
    }

    proof fn lemma_balanced(&self) {
        self@.lemma_balanced();
    }

    fn build(&self) -> (bytes: Vec<u8>) {
        let b = XMLBuilder::new().text(self.text.as_str(), self.preserve_space);
        proof {
            assert(b@.tokens =~= self.tokens());
        }
        b.build()
    }
}

} // verus!
