//! The instruction of a field: the code that tells a viewer which value to compute.

use crate::markup::{lemma_balanced_element, lemma_balanced_leaf, BuildXML, Token};
use crate::xml_builder::XMLBuilder;
use vstd::prelude::*;

verus! {

/// The instruction of the field that shows the number of the current page.
#[derive(Clone, Copy, Debug, PartialEq, Eq, Structural)]
pub struct InstrPAGE {}

/// The instruction of the field that shows the number of pages of the document.
#[derive(Clone, Copy, Debug, PartialEq, Eq, Structural)]
pub struct InstrNUMPAGES {}

/// The instruction of a field, one variant for each kind of field.
#[derive(Clone, Copy, Debug, PartialEq, Eq, Structural)]
pub enum InstrText {
    PAGE(InstrPAGE),
    NUMPAGES(InstrNUMPAGES),
}

impl InstrPAGE {
    /// The instruction.
    pub fn new() -> (i: InstrPAGE)
        ensures
            i == (InstrPAGE {  }),
    {
        InstrPAGE {  }
    }
}

impl InstrNUMPAGES {
    /// The instruction.
    pub fn new() -> (i: InstrNUMPAGES)
        ensures
            i == (InstrNUMPAGES {  }),
    {
        InstrNUMPAGES {  }
    }
}

impl BuildXML for InstrPAGE {
    open spec fn tokens(&self) -> Seq<Token> {
        seq![Token::Chars { text: "PAGE"@ }]
    }

    proof fn lemma_balanced(&self) {
        lemma_balanced_leaf(Token::Chars { text: "PAGE"@ });
    }

    fn build(&self) -> (bytes: Vec<u8>) {
        let b = XMLBuilder::new().plain_text("PAGE");
        proof {
            assert(b@.tokens =~= self.tokens());
        }
        b.build()
    }
}

impl BuildXML for InstrNUMPAGES {
    open spec fn tokens(&self) -> Seq<Token> {
        seq![Token::Chars { text: "NUMPAGES"@ }]
    }

    proof fn lemma_balanced(&self) {
        lemma_balanced_leaf(Token::Chars { text: "NUMPAGES"@ });
    }

    fn build(&self) -> (bytes: Vec<u8>) {
        let b = XMLBuilder::new().plain_text("NUMPAGES");
        proof {
            assert(b@.tokens =~= self.tokens());
        }
        b.build()
    }
}

impl InstrText {
    /// The code of the field, as the instruction spells it.
    pub open spec fn code(self) -> Seq<char> {
        match self {
            InstrText::PAGE(_) => "PAGE"@,
            InstrText::NUMPAGES(_) => "NUMPAGES"@,
        }
    }

    /// The two kinds of field differ in their code.
    pub proof fn lemma_codes_differ()
        ensures
            InstrText::PAGE(InstrPAGE {  }).code() != InstrText::NUMPAGES(InstrNUMPAGES {  }).code(),
    {
        reveal_strlit("PAGE");
        reveal_strlit("NUMPAGES");
        assert("PAGE"@.len() != "NUMPAGES"@.len());
    }
}

impl BuildXML for InstrText {
    open spec fn tokens(&self) -> Seq<Token> {
        seq![
            Token::Start { name: "w:instrText"@, attrs: Seq::empty() },
            Token::Chars { text: self.code() },
            Token::End { name: "w:instrText"@ },
        ]
    }

    proof fn lemma_balanced(&self) {
        let inner = seq![Token::Chars { text: self.code() }];
        lemma_balanced_leaf(inner[0]);
        lemma_balanced_element("w:instrText"@, Seq::empty(), inner);
        assert(self.tokens() =~= seq![Token::Start { name: "w:instrText"@, attrs: Seq::empty() }]
            + inner + seq![Token::End { name: "w:instrText"@ }]);
    }

    fn build(&self) -> (bytes: Vec<u8>) {
        let b = XMLBuilder::new().open("w:instrText");
        let b = match self {
            InstrText::PAGE(page) => b.add_child(page),
            InstrText::NUMPAGES(pages) => b.add_child(pages),
        };
        let b = b.close();
        proof {
            assert(b@.tokens =~= self.tokens());
        }
        b.build()
    }
}

} // verus!
