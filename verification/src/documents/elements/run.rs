//! A run: a stretch of content inside a paragraph that shares one set of properties.

use crate::documents::elements::field_char::FieldChar;
use crate::documents::elements::instr_text::InstrText;
use crate::documents::elements::run_property::RunProperty;
use crate::documents::elements::text::{Text, TextView};
use crate::markup::{
    balanced, children_tokens, flatten, lemma_balanced_concat, lemma_balanced_element,
    lemma_flatten_balanced, BuildXML, Token,
};
use crate::types::FieldCharType;
use crate::xml_builder::XMLBuilder;
use vstd::prelude::*;

verus! {

/// One piece of a run's content.
#[derive(Debug, PartialEq)]
pub enum RunChild {
    Text(Text),
    FieldChar(FieldChar),
    InstrText(InstrText),
}

/// One piece of a run's content, as a value.
pub enum RunChildView {
    Text(TextView),
    FieldChar(FieldChar),
    InstrText(InstrText),
}

impl View for RunChild {
    type V = RunChildView;

    open spec fn view(&self) -> RunChildView {
        match self {
            RunChild::Text(t) => RunChildView::Text(t@),
            RunChild::FieldChar(c) => RunChildView::FieldChar(*c),
            RunChild::InstrText(i) => RunChildView::InstrText(*i),
        }
    }
}

impl RunChildView {
    /// The markup of the piece.
    pub open spec fn tokens(self) -> Seq<Token> {
        match self {
            RunChildView::Text(t) => t.tokens(),
            RunChildView::FieldChar(c) => c.tokens(),
            RunChildView::InstrText(i) => i.tokens(),
        }
    }

    /// The markup of the piece is balanced.
    pub proof fn lemma_balanced(self)
        ensures
            balanced(self.tokens()),
    {
        match self {
            RunChildView::Text(t) => t.lemma_balanced(),
            RunChildView::FieldChar(c) => c.lemma_balanced(),
            RunChildView::InstrText(i) => i.lemma_balanced(),
        }
    }
}

impl Clone for RunChild {
    fn clone(&self) -> (c: RunChild)
        ensures
            c@ == self@,
    {
        match self {
            RunChild::Text(t) => RunChild::Text(t.clone()),
            RunChild::FieldChar(c) => RunChild::FieldChar(*c),
            RunChild::InstrText(i) => RunChild::InstrText(*i),
        }
    }
}

impl BuildXML for RunChild {
    open spec fn tokens(&self) -> Seq<Token> {
        self@.tokens()
    }

    proof fn lemma_balanced(&self) {
        self@.lemma_balanced();
    }

    fn build(&self) -> (bytes: Vec<u8>) {
        match self {
            RunChild::Text(t) => t.build(),
            RunChild::FieldChar(c) => c.build(),
            RunChild::InstrText(i) => i.build(),
        }
    }
}

/// A run: its properties, and its content in the order in which it was added.
#[derive(Debug, PartialEq)]
pub struct Run {
    pub run_property: RunProperty,
    pub children: Vec<RunChild>,
}

/// A run as a value.
pub struct RunView {
    pub run_property: RunProperty,
    pub children: Seq<RunChildView>,
}

impl View for Run {
    type V = RunView;

    open spec fn view(&self) -> RunView {
        RunView {
            run_property: self.run_property,
            children: self.children@.map_values(|c: RunChild| c@),
        }
    }
}

impl RunView {
    /// The markup of each piece of content, in their order.
    pub open spec fn parts(self) -> Seq<Seq<Token>> {
        Seq::new(self.children.len(), |i: int| self.children[i].tokens())
    }

    /// The markup of the run: its tag around its properties, which come
    /// first, and its content.
    pub open spec fn tokens(self) -> Seq<Token> {
        seq![Token::Start { name: "w:r"@, attrs: Seq::empty() }] + (self.run_property.tokens()
            + flatten(self.parts())) + seq![Token::End { name: "w:r"@ }]
    }

    /// The run with one more piece of content at its end.
    pub open spec fn with_child(self, child: RunChildView) -> RunView {
        RunView { children: self.children.push(child), ..self }
    }

    /// The markup of a run is balanced.
    pub proof fn lemma_balanced(self)
        ensures
            balanced(self.tokens()),
    {
        assert forall|i: int| 0 <= i < self.parts().len() implies balanced(
            #[trigger] self.parts()[i],
        ) by {
            self.children[i].lemma_balanced();
        }
        lemma_flatten_balanced(self.parts());
        self.run_property.lemma_balanced();
        lemma_balanced_concat(self.run_property.tokens(), flatten(self.parts()));
        lemma_balanced_element(
            "w:r"@,
            Seq::empty(),
            self.run_property.tokens() + flatten(self.parts()),
        );
    }
}

impl Run {
    /// A run without content.
    pub fn new() -> (r: Run)
        ensures
            r@ == (RunView { run_property: RunProperty {  }, children: Seq::empty() }),
    {
        let r = Run { run_property: RunProperty::new(), children: Vec::new() };
        proof {
            assert(r@.children =~= Seq::empty());
        }
        r
    }

    /// The run with `child` added at the end of its content.
    fn add_child(self, child: RunChild) -> (r: Run)
        ensures
            r@ == self@.with_child(child@),
    {
        let Run { run_property, mut children } = self;
        children.push(child);
        let r = Run { run_property, children };
        proof {
            assert(r@.children =~= self@.children.push(child@));
        }
        r
    }

    /// The run with a span of text added at the end of its content.
    pub fn add_text(self, text: &str) -> (r: Run)
        ensures
            r@ == self@.with_child(
                RunChildView::Text(TextView { text: text@, preserve_space: true }),
            ),
    {
        self.add_child(RunChild::Text(Text::new(text)))
    }

    /// The run with a field marker added at the end of its content.
    pub fn add_field_char(self, t: FieldCharType, dirty: bool) -> (r: Run)
        ensures
            r@ == self@.with_child(
                RunChildView::FieldChar(FieldChar { field_char_type: t, dirty }),
            ),
    {
        self.add_child(RunChild::FieldChar(FieldChar { field_char_type: t, dirty }))
    }

    /// The run with a field instruction added at the end of its content.
    pub fn add_instr_text(self, i: InstrText) -> (r: Run)
        ensures
            r@ == self@.with_child(RunChildView::InstrText(i)),
    {
        self.add_child(RunChild::InstrText(i))
    }
}

impl Clone for Run {
    fn clone(&self) -> (r: Run)
        ensures
            r@ == self@,
    {
        let r = Run { run_property: self.run_property, children: self.children.clone() };
        proof {
            assert(r@.children =~= self@.children);
        }
        r
    }
}

impl BuildXML for Run {
    open spec fn tokens(&self) -> Seq<Token> {
        self@.tokens()
    }

    proof fn lemma_balanced(&self) {
        self@.lemma_balanced();
    }

    fn build(&self) -> (bytes: Vec<u8>) {
        let b = XMLBuilder::new().open("w:r").add_child(&self.run_property).add_children(
            &self.children,
        ).close();
        proof {
            assert(children_tokens(self.children@) =~= self@.parts());
            if self.children@.len() == 0 {
                assert(flatten(self@.parts()) =~= Seq::empty());
            }
            assert(b@.tokens =~= self.tokens());
        }
        b.build()
    }
}

} // verus!
