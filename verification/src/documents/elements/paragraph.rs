//! A paragraph: its properties and its runs.

use crate::documents::elements::frame_property::text_view;
use crate::documents::elements::paragraph_property::{
    ParagraphField, ParagraphProperty, ParagraphPropertyView,
};
use crate::documents::elements::run::{Run, RunView};
use crate::markup::{
    balanced, children_tokens, flatten, lemma_balanced_concat, lemma_balanced_element,
    lemma_flatten_balanced, Attr, BuildXML, Token,
};
use crate::types::AlignmentType;
use crate::xml_builder::XMLBuilder;
use vstd::prelude::*;

verus! {

/// A paragraph. It always has a property object; its runs are kept in the
/// order in which they were added.
#[derive(Debug, PartialEq)]
pub struct Paragraph {
    pub id: Option<String>,
    pub property: ParagraphProperty,
    pub children: Vec<Run>,
}

/// A paragraph as a value.
pub struct ParagraphView {
    pub id: Option<Seq<char>>,
    pub property: ParagraphPropertyView,
    pub children: Seq<RunView>,
}

impl View for Paragraph {
    type V = ParagraphView;

    open spec fn view(&self) -> ParagraphView {
        ParagraphView {
            id: text_view(self.id),
            property: self.property@,
            children: self.children@.map_values(|r: Run| r@),
        }
    }
}

impl ParagraphView {
    /// A paragraph as it is made: without identifier and without runs, in the style `Normal`.
    pub open spec fn initial() -> ParagraphView {
        ParagraphView {
            id: None,
            property: ParagraphPropertyView::empty().with(ParagraphField::Style("Normal"@)),
            children: Seq::empty(),
        }
    }

    /// The attributes of the paragraph's start tag: its identifier, where it has one.
    pub open spec fn attrs(self) -> Seq<Attr> {
        match self.id {
            Some(id) => seq![Attr { name: "w14:paraId"@, value: id }],
            None => Seq::empty(),
        }
    }

    /// The markup of each run, in their order.
    pub open spec fn parts(self) -> Seq<Seq<Token>> {
        Seq::new(self.children.len(), |i: int| self.children[i].tokens())
    }

    /// The markup of the paragraph: its tag around its properties, which come
    /// first and are there even where nothing is set, and its runs.
    pub open spec fn tokens(self) -> Seq<Token> {
        seq![Token::Start { name: "w:p"@, attrs: self.attrs() }] + (self.property.tokens()
            + flatten(self.parts())) + seq![Token::End { name: "w:p"@ }]
    }

    /// The markup of a paragraph is balanced.
    pub proof fn lemma_balanced(self)
        ensures
            balanced(self.tokens()),
    {
        assert forall|i: int| 0 <= i < self.parts().len() implies balanced(
            #[trigger] self.parts()[i],
        ) by {
            self.children[i].lemma_balanced();
        }
        lemma_flatten_balanced(self.parts());
        self.property.lemma_balanced();
        lemma_balanced_concat(self.property.tokens(), flatten(self.parts()));
        lemma_balanced_element(
            "w:p"@,
            self.attrs(),
            self.property.tokens() + flatten(self.parts()),
        );
    }
}

impl Paragraph {
    /// A paragraph without runs, in the style `Normal`.
    pub fn new() -> (p: Paragraph)
        ensures
            p@ == ParagraphView::initial(),
    {
        let p = Paragraph {
            id: None,
            property: ParagraphProperty::new().style("Normal"),
            children: Vec::new(),
        };
        proof {
            assert(p@.children =~= Seq::empty());
        }
        p
    }

    /// Gives the paragraph an identifier.
    pub fn id(self, id: &str) -> (p: Paragraph)
        ensures
            p@ == (ParagraphView { id: Some(id@), ..self@ }),
    {
        Paragraph { id: Some(id.to_owned()), ..self }
    }

    /// Replaces the paragraph's properties as a whole.
    pub fn property(self, property: ParagraphProperty) -> (p: Paragraph)
        ensures
            p@ == (ParagraphView { property: property@, ..self@ }),
    {
        Paragraph { property, ..self }
    }

    /// Adds a run at the end of the paragraph.
    pub fn add_run(self, run: Run) -> (p: Paragraph)
        ensures
            p@ == (ParagraphView { children: self@.children.push(run@), ..self@ }),
    {
        let Paragraph { id, property, mut children } = self;
        children.push(run);
        let p = Paragraph { id, property, children };
        proof {
            assert(p@.children =~= self@.children.push(run@));
        }
        p
    }

    /// Sets the alignment; the other properties stay as they are.
    pub fn align(self, alignment_type: AlignmentType) -> (p: Paragraph)
        ensures
            p@ == (ParagraphView {
                property: self@.property.with(ParagraphField::Alignment(alignment_type)),
                ..self@
            }),
    {
        let Paragraph { id, property, children } = self;
        Paragraph { id, property: property.align(alignment_type), children }
    }

    /// Sets the style; the other properties stay as they are.
    pub fn style(self, style_id: &str) -> (p: Paragraph)
        ensures
            p@ == (ParagraphView {
                property: self@.property.with(ParagraphField::Style(style_id@)),
                ..self@
            }),
    {
        let Paragraph { id, property, children } = self;
        Paragraph { id, property: property.style(style_id), children }
    }
}

impl Default for Paragraph {
    fn default() -> (p: Paragraph)
        ensures
            p@ == ParagraphView::initial(),
    {
        Paragraph::new()
    }
}

impl Clone for Paragraph {
    fn clone(&self) -> (p: Paragraph)
        ensures
            p@ == self@,
    {
        let p = Paragraph {
            id: match &self.id {
                Some(id) => Some(id.clone()),
                None => None,
            },
            property: self.property.clone(),
            children: self.children.clone(),
        };
        proof {
            assert(p@.children =~= self@.children);
        }
        p
    }
}

impl BuildXML for Paragraph {
    open spec fn tokens(&self) -> Seq<Token> {
        self@.tokens()
    }

    proof fn lemma_balanced(&self) {
        self@.lemma_balanced();
    }

    fn build(&self) -> (bytes: Vec<u8>) {
        let b = XMLBuilder::new().open("w:p");
        let b = match &self.id {
            Some(id) => b.attribute("w14:paraId", id.as_str()),
            None => b,
        };
        proof {
            assert(b@.pending.unwrap() =~= self@.attrs());
        }
        let b = b.add_child(&self.property).add_children(&self.children).close();
        proof {
            assert(children_tokens(self.children@) =~= self@.parts());
            if self.children@.len() == 0 {
                assert(flatten(self@.parts()) =~= Seq::empty());
            }
            assert(b@.tokens =~= self.tokens());
        }
        b.build()
    }
}

} // verus!
