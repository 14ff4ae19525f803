//! The property object of a structured tag.

use crate::documents::elements::run_property::RunProperty;
use crate::markup::{lemma_balanced_element, BuildXML, Token};
use crate::xml_builder::XMLBuilder;
use vstd::prelude::*;

verus! {

/// The properties of a structured tag: those of the runs inside it.
#[derive(Clone, Copy, Debug, PartialEq, Eq, Structural)]
pub struct StructuredDataTagProperty {
    pub run_property: RunProperty,
}

impl StructuredDataTagProperty {
    /// The properties with nothing set.
    pub fn new() -> (p: StructuredDataTagProperty)
        ensures
            p == (StructuredDataTagProperty { run_property: RunProperty {  } }),
    {
        StructuredDataTagProperty { run_property: RunProperty::new() }
    }
}

impl Default for StructuredDataTagProperty {
    fn default() -> (p: StructuredDataTagProperty)
        ensures
            p == (StructuredDataTagProperty { run_property: RunProperty {  } }),
    {
        StructuredDataTagProperty::new()
    }
}

impl BuildXML for StructuredDataTagProperty {
    open spec fn tokens(&self) -> Seq<Token> {
        seq![Token::Start { name: "w:sdtPr"@, attrs: Seq::empty() }] + self.run_property.tokens()
            + seq![Token::End { name: "w:sdtPr"@ }]
    }

    proof fn lemma_balanced(&self) {
        self.run_property.lemma_balanced();
        lemma_balanced_element("w:sdtPr"@, Seq::empty(), self.run_property.tokens());
    }

    fn build(&self) -> (bytes: Vec<u8>) {
        let b = XMLBuilder::new().open("w:sdtPr").add_child(
            &self.run_property,
        ).close_property();
        proof {
            assert(b@.tokens =~= self.tokens());
        }
        b.build()
    }
}

} // verus!
