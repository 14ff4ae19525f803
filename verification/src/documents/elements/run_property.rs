//! The property object of a run.

use crate::markup::{lemma_property_balanced, BuildXML, Token};
use crate::xml_builder::XMLBuilder;
use vstd::prelude::*;

verus! {

/// The properties of a run. A run always has one, and it is always rendered:
/// as a start tag and an end tag where nothing is set, never as an element
/// that closes itself.
#[derive(Clone, Copy, Debug, PartialEq, Eq, Structural)]
pub struct RunProperty {}

impl RunProperty {
    /// The properties with nothing set.
    pub fn new() -> (p: RunProperty)
        ensures
            p == (RunProperty {  }),
    {
        RunProperty {  }
    }
}

impl Default for RunProperty {
    fn default() -> (p: RunProperty)
        ensures
            p == (RunProperty {  }),
    {
        RunProperty {  }
    }
}

impl BuildXML for RunProperty {
    open spec fn tokens(&self) -> Seq<Token> {
        seq![Token::Start { name: "w:rPr"@, attrs: Seq::empty() }, Token::End { name: "w:rPr"@ }]
    }

    proof fn lemma_balanced(&self) {
        lemma_property_balanced("w:rPr"@, Seq::empty());
    }

    fn build(&self) -> (bytes: Vec<u8>) {
        let b = XMLBuilder::new().open("w:rPr").close_property();
        proof {
            assert(b@.tokens =~= self.tokens());
        }
        b.build()
    }
}

} // verus!
