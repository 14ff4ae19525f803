//! The style that a paragraph refers to.

use crate::markup::{lemma_balanced_leaf, Attr, BuildXML, Token};
use crate::xml_builder::XMLBuilder;
use vstd::prelude::*;

verus! {

/// A reference to a paragraph style by its identifier.
#[derive(Debug, PartialEq)]
pub struct ParagraphStyle {
    pub val: String,
}

/// A reference to a paragraph style, as a value.
pub struct ParagraphStyleView {
    pub val: Seq<char>,
}

impl View for ParagraphStyle {
    type V = ParagraphStyleView;

    open spec fn view(&self) -> ParagraphStyleView {
        ParagraphStyleView { val: self.val@ }
    }
}

impl ParagraphStyleView {
    /// The one token of the reference.
    pub open spec fn token(self) -> Token {
        Token::Empty { name: "w:pStyle"@, attrs: seq![Attr { name: "w:val"@, value: self.val }] }
    }

    /// The markup of the reference.
    pub open spec fn tokens(self) -> Seq<Token> {
        seq![self.token()]
    }
}

impl ParagraphStyle {
    /// A reference to the style with the identifier `val`.
    pub fn new(val: &str) -> (s: ParagraphStyle)
        ensures
            s@ == (ParagraphStyleView { val: val@ }),
    {
        ParagraphStyle { val: val.to_owned() }
    }
}

impl Clone for ParagraphStyle {
    fn clone(&self) -> (s: ParagraphStyle)
        ensures
            s == *self,
    {
        ParagraphStyle { val: self.val.clone() }
    }
}

impl BuildXML for ParagraphStyle {
    open spec fn tokens(&self) -> Seq<Token> {
        self@.tokens()
    }

    proof fn lemma_balanced(&self) {
        lemma_balanced_leaf(self@.token());
    }

    fn build(&self) -> (bytes: Vec<u8>) {
        let b = XMLBuilder::new().open("w:pStyle").attribute("w:val", self.val.as_str()).close();
        proof {
            assert(Seq::<Attr>::empty().push(Attr { name: "w:val"@, value: self.val@ })
                =~= self@.token()->Empty_attrs);
            assert(b@.tokens =~= self.tokens());
        }
        b.build()
    }
}

} // verus!
