//! The alignment of a paragraph's lines.

use crate::markup::{lemma_balanced_leaf, Attr, BuildXML, Token};
use crate::types::AlignmentType;
use crate::xml_builder::XMLBuilder;
use vstd::prelude::*;

verus! {

/// The alignment of a paragraph's lines, as an element of the paragraph's properties.
#[derive(Clone, Copy, Debug, PartialEq, Eq, Structural)]
pub struct Justification {
    pub val: AlignmentType,
}

impl Justification {
    /// The element for the alignment `val`.
    pub fn new(val: AlignmentType) -> (j: Justification)
        ensures
            j == (Justification { val }),
    {
        Justification { val }
    }

    /// The one token of the element.
    pub open spec fn token(self) -> Token {
        Token::Empty { name: "w:jc"@, attrs: seq![Attr { name: "w:val"@, value: self.val.text() }] }
    }
}

impl BuildXML for Justification {
    open spec fn tokens(&self) -> Seq<Token> {
        seq![self.token()]
    }

    proof fn lemma_balanced(&self) {
        lemma_balanced_leaf(self.token());
    }

    fn build(&self) -> (bytes: Vec<u8>) {
        let b = XMLBuilder::new().open("w:jc").attribute("w:val", self.val.as_str()).close();
        proof {
            assert(Seq::<Attr>::empty().push(Attr { name: "w:val"@, value: self.val.text() })
                =~= self.token()->Empty_attrs);
            assert(b@.tokens =~= self.tokens());
        }
        b.build()
    }
}

} // verus!
