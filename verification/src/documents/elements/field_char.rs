//! The markers that delimit a field inside a run.

use crate::markup::{lemma_balanced_leaf, Attr, BuildXML, Token};
use crate::types::{bool_str, bool_text, FieldCharType};
use crate::xml_builder::XMLBuilder;
use vstd::prelude::*;

verus! {

/// One marker of a field: which of the three it is, and whether the value
/// that the document holds for the field is out of date.
#[derive(Clone, Copy, Debug, PartialEq, Eq, Structural)]
pub struct FieldChar {
    pub field_char_type: FieldCharType,
    pub dirty: bool,
}

impl FieldChar {
    /// A marker of the given kind that is not dirty.
    pub fn new(t: FieldCharType) -> (c: FieldChar)
        ensures
            c == (FieldChar { field_char_type: t, dirty: false }),
    {
        FieldChar { field_char_type: t, dirty: false }
    }

    /// The marker, marked as dirty.
    pub fn dirty(self) -> (c: FieldChar)
        ensures
            c == (FieldChar { dirty: true, ..self }),
    {
        FieldChar { field_char_type: self.field_char_type, dirty: true }
    }

    /// The one token of the marker.
    pub open spec fn token(self) -> Token {
        Token::Empty {
            name: "w:fldChar"@,
            attrs: seq![
                Attr { name: "w:fldCharType"@, value: self.field_char_type.text() },
                Attr { name: "w:dirty"@, value: bool_text(self.dirty) },
            ],
        }
    }
}

impl BuildXML for FieldChar {
    open spec fn tokens(&self) -> Seq<Token> {
        seq![self.token()]
    }

    proof fn lemma_balanced(&self) {
        lemma_balanced_leaf(self.token());
    }

    fn build(&self) -> (bytes: Vec<u8>) {
        let b = XMLBuilder::new().open("w:fldChar").attribute(
            "w:fldCharType",
            self.field_char_type.as_str(),
        ).attribute("w:dirty", bool_str(self.dirty)).close();
        proof {
            assert(Seq::<Attr>::empty().push(
                Attr { name: "w:fldCharType"@, value: self.field_char_type.text() },
            ).push(Attr { name: "w:dirty"@, value: bool_text(self.dirty) })
                =~= self.token()->Empty_attrs);
            assert(b@.tokens =~= self.tokens());
        }
        b.build()
    }
}

} // verus!
