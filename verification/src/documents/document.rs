//! The document: the root of the element tree.

use crate::documents::elements::paragraph::{Paragraph, ParagraphView};
use crate::documents::elements::table::{Table, TableView};
use crate::markup::{
    balanced, children_tokens, element_tokens, flatten, lemma_balanced_concat,
    lemma_balanced_element, lemma_balanced_leaf, lemma_element_balanced, lemma_flatten_balanced,
    BuildXML, Token,
};
use crate::xml_builder::{namespaces, XMLBuilder};
use vstd::prelude::*;

verus! {

/// A document: paragraphs and tables, in reading order.
#[derive(Debug)]
pub struct Document {
    children: Vec<DocumentContent>,
}

/// What a document holds at its top level: a paragraph or a table, and nothing else.
#[derive(Debug)]
pub enum DocumentContent {
    Paragraph(Paragraph),
    Table(Table),
}

/// One piece of a document's content, as a value.
pub enum DocumentContentView {
    Paragraph(ParagraphView),
    Table(TableView),
}

impl View for DocumentContent {
    type V = DocumentContentView;

    open spec fn view(&self) -> DocumentContentView {
        match self {
            DocumentContent::Paragraph(p) => DocumentContentView::Paragraph(p@),
            DocumentContent::Table(t) => DocumentContentView::Table(t@),
        }
    }
}

impl DocumentContentView {
    /// The markup of the piece.
    pub open spec fn tokens(self) -> Seq<Token> {
        match self {
            DocumentContentView::Paragraph(p) => p.tokens(),
            DocumentContentView::Table(t) => t.tokens(),
        }
    }

    /// The markup of the piece is balanced.
    pub proof fn lemma_balanced(self)
        ensures
            balanced(self.tokens()),
    {
        match self {
            DocumentContentView::Paragraph(p) => p.lemma_balanced(),
            DocumentContentView::Table(t) => t.lemma_balanced(),
        }
    }
}

impl Clone for DocumentContent {
    fn clone(&self) -> (c: DocumentContent)
        ensures
            c@ == self@,
    {
        match self {
            DocumentContent::Paragraph(p) => DocumentContent::Paragraph(p.clone()),
            DocumentContent::Table(t) => DocumentContent::Table(t.clone()),
        }
    }
}

impl BuildXML for DocumentContent {
    open spec fn tokens(&self) -> Seq<Token> {
        self@.tokens()
    }

    proof fn lemma_balanced(&self) {
        self@.lemma_balanced();
    }

    fn build(&self) -> (bytes: Vec<u8>) {
        match self {
            DocumentContent::Paragraph(p) => p.build(),
            DocumentContent::Table(t) => t.build(),
        }
    }
}

/// A document as a value: its content in reading order.
pub struct DocumentView {
    pub children: Seq<DocumentContentView>,
}

impl View for Document {
    type V = DocumentView;

    closed spec fn view(&self) -> DocumentView {
        DocumentView { children: self.children@.map_values(|c: DocumentContent| c@) }
    }
}

impl DocumentView {
    /// The markup of each piece of content, in reading order.
    pub open spec fn parts(self) -> Seq<Seq<Token>> {
        Seq::new(self.children.len(), |i: int| self.children[i].tokens())
    }

    /// The body: its tag around the content.
    pub open spec fn body(self) -> Seq<Token> {
        element_tokens("w:body"@, Seq::empty(), self.children.len() > 0, flatten(self.parts()))
    }

    /// The markup of the document: the declaration line, then the root
    /// element with the full namespace table, and in it, on a line of its
    /// own, the body. The root element ends on a line of its own.
    pub open spec fn tokens(self) -> Seq<Token> {
        seq![
            Token::Declaration,
            Token::Start { name: "w:document"@, attrs: namespaces() },
            Token::Break { depth: 1 },
        ] + self.body() + seq![Token::Break { depth: 0 }, Token::End { name: "w:document"@ }]
    }

    /// The markup of a document is balanced.
    pub proof fn lemma_balanced(self)
        ensures
            balanced(self.tokens()),
    {
        assert forall|i: int| 0 <= i < self.parts().len() implies balanced(
            #[trigger] self.parts()[i],
        ) by {
            self.children[i].lemma_balanced();
        }
        lemma_flatten_balanced(self.parts());
        lemma_element_balanced(
            "w:body"@,
            Seq::empty(),
            self.children.len() > 0,
            flatten(self.parts()),
        );
        let first = seq![Token::Break { depth: 1 }];
        let last = seq![Token::Break { depth: 0 }];
        let declaration = seq![Token::Declaration];
        lemma_balanced_leaf(first[0]);
        lemma_balanced_leaf(last[0]);
        lemma_balanced_leaf(declaration[0]);
        lemma_balanced_concat(first, self.body());
        lemma_balanced_concat(first + self.body(), last);
        let inner = first + self.body() + last;
        lemma_balanced_element("w:document"@, namespaces(), inner);
        let root = seq![Token::Start { name: "w:document"@, attrs: namespaces() }] + inner + seq![
            Token::End { name: "w:document"@ },
        ];
        lemma_balanced_concat(declaration, root);
        assert(self.tokens() =~= declaration + root);
    }
}

impl Document {
    /// A document without content.
    pub fn new() -> (d: Document)
        ensures
            d@ == (DocumentView { children: Seq::empty() }),
    {
        Default::default()
    }

    /// Adds a paragraph at the end of the document.
    pub fn add_paragraph(self, p: Paragraph) -> (d: Document)
        ensures
            d@ == (DocumentView {
                children: self@.children.push(DocumentContentView::Paragraph(p@)),
            }),
    {
        let Document { mut children } = self;
        children.push(DocumentContent::Paragraph(p));
        let d = Document { children };
        proof {
            assert(d@.children =~= self@.children.push(DocumentContentView::Paragraph(p@)));
        }
        d
    }

    /// Adds a table at the end of the document.
    pub fn add_table(self, t: Table) -> (d: Document)
        ensures
            d@ == (DocumentView { children: self@.children.push(DocumentContentView::Table(t@)) }),
    {
        let Document { mut children } = self;
        children.push(DocumentContent::Table(t));
        let d = Document { children };
        proof {
            assert(d@.children =~= self@.children.push(DocumentContentView::Table(t@)));
        }
        d
    }
}

impl Default for Document {
    fn default() -> (d: Document)
        ensures
            d@ == (DocumentView { children: Seq::empty() }),
    {
        let d = Document { children: Vec::new() };
        proof {
            assert(d@.children =~= Seq::empty());
        }
        d
    }
}

impl BuildXML for Document {
    open spec fn tokens(&self) -> Seq<Token> {
        self@.tokens()
    }

    proof fn lemma_balanced(&self) {
        self@.lemma_balanced();
    }

    fn build(&self) -> (bytes: Vec<u8>) {
        let b = XMLBuilder::new().declaration(true).open_root().open("w:body");
        let b = b.add_children(&self.children);
        let b = b.close().close();
        proof {
            assert(children_tokens(self.children@) =~= self@.parts());
            assert(b@.tokens =~= self.tokens());
        }
        b.build()
    }
}

} // verus!
