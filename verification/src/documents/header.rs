//! A header: what stands at the top of each page.

use crate::documents::elements::field_code::FieldCodeView;
use crate::documents::elements::num_pages::NumPages;
use crate::documents::elements::page_num::PageNum;
use crate::documents::elements::paragraph::{Paragraph, ParagraphView};
use crate::documents::elements::table::{Table, TableView};
use crate::markup::{
    balanced, children_tokens, element_tokens, flatten, lemma_balanced_concat, lemma_balanced_leaf,
    lemma_element_balanced, lemma_flatten_balanced, BuildXML, Token,
};
use crate::xml_builder::{namespaces, XMLBuilder};
use vstd::prelude::*;

verus! {

/// A header: paragraphs, tables and fields, in the order in which they were added.
#[derive(Debug, PartialEq)]
pub struct Header {
    pub children: Vec<HeaderChild>,
}

/// What a header holds at its top level.
#[derive(Debug, PartialEq)]
pub enum HeaderChild {
    Paragraph(Paragraph),
    Table(Table),
    PageNum(PageNum),
    NumPages(NumPages),
}

/// One piece of a header's content, as a value.
pub enum HeaderChildView {
    Paragraph(ParagraphView),
    Table(TableView),
    Field(FieldCodeView),
}

impl View for HeaderChild {
    type V = HeaderChildView;

    open spec fn view(&self) -> HeaderChildView {
        match self {
            HeaderChild::Paragraph(p) => HeaderChildView::Paragraph(p@),
            HeaderChild::Table(t) => HeaderChildView::Table(t@),
            HeaderChild::PageNum(f) => HeaderChildView::Field(f@),
            HeaderChild::NumPages(f) => HeaderChildView::Field(f@),
        }
    }
}

impl HeaderChildView {
    /// The markup of the piece.
    pub open spec fn tokens(self) -> Seq<Token> {
        match self {
            HeaderChildView::Paragraph(p) => p.tokens(),
            HeaderChildView::Table(t) => t.tokens(),
            HeaderChildView::Field(f) => f.tokens(),
        }
    }

    /// The markup of the piece is balanced.
    pub proof fn lemma_balanced(self)
        ensures
            balanced(self.tokens()),
    {
        match self {
            HeaderChildView::Paragraph(p) => p.lemma_balanced(),
            HeaderChildView::Table(t) => t.lemma_balanced(),
            HeaderChildView::Field(f) => f.lemma_balanced(),
        }
    }
}

impl Clone for HeaderChild {
    fn clone(&self) -> (c: HeaderChild)
        ensures
            c@ == self@,
    {
        match self {
            HeaderChild::Paragraph(p) => HeaderChild::Paragraph(p.clone()),
            HeaderChild::Table(t) => HeaderChild::Table(t.clone()),
            HeaderChild::PageNum(f) => HeaderChild::PageNum(f.clone()),
            HeaderChild::NumPages(f) => HeaderChild::NumPages(f.clone()),
        }
    }
}

impl BuildXML for HeaderChild {
    open spec fn tokens(&self) -> Seq<Token> {
        self@.tokens()
    }

    proof fn lemma_balanced(&self) {
        self@.lemma_balanced();
    }

    fn build(&self) -> (bytes: Vec<u8>) {
        match self {
            HeaderChild::Paragraph(p) => p.build(),
            HeaderChild::Table(t) => t.build(),
            HeaderChild::PageNum(f) => f.build(),
            HeaderChild::NumPages(f) => f.build(),
        }
    }
}

/// A header as a value: its content in the order in which it was added.
pub struct HeaderView {
    pub children: Seq<HeaderChildView>,
}

impl View for Header {
    type V = HeaderView;

    open spec fn view(&self) -> HeaderView {
        HeaderView { children: self.children@.map_values(|c: HeaderChild| c@) }
    }
}

impl HeaderView {
    /// The markup of each piece of content, in their order.
    pub open spec fn parts(self) -> Seq<Seq<Token>> {
        Seq::new(self.children.len(), |i: int| self.children[i].tokens())
    }

    /// The markup of the header: the declaration line, then the root element
    /// with the full namespace table around the content.
    pub open spec fn tokens(self) -> Seq<Token> {
        seq![Token::Declaration] + element_tokens(
            "w:hdr"@,
            namespaces(),
            self.children.len() > 0,
            flatten(self.parts()),
        )
    }

    /// The header with one more piece of content at its end.
    pub open spec fn with_child(self, child: HeaderChildView) -> HeaderView {
        HeaderView { children: self.children.push(child) }
    }

    /// The markup of a header is balanced.
    pub proof fn lemma_balanced(self)
        ensures
            balanced(self.tokens()),
    {
        assert forall|i: int| 0 <= i < self.parts().len() implies balanced(
            #[trigger] self.parts()[i],
        ) by {
            self.children[i].lemma_balanced();
        }
        lemma_flatten_balanced(self.parts());
        lemma_element_balanced(
            "w:hdr"@,
            namespaces(),
            self.children.len() > 0,
            flatten(self.parts()),
        );
        lemma_balanced_leaf(Token::Declaration);
        lemma_balanced_concat(
            seq![Token::Declaration],
            element_tokens("w:hdr"@, namespaces(), self.children.len() > 0, flatten(self.parts())),
        );
    }

    /// Content that is added stays where it was added: after everything
    /// added before it, with its own markup in full.
    pub proof fn lemma_insertion_order(self, child: HeaderChildView)
        ensures
            flatten(self.with_child(child).parts()) == flatten(self.parts()) + child.tokens(),
    {
        assert(self.with_child(child).parts().drop_last() =~= self.parts());
    }
}

impl Header {
    /// A header without content.
    pub fn new() -> (h: Header)
        ensures
            h@ == (HeaderView { children: Seq::empty() }),
    {
        let h = Header { children: Vec::new() };
        proof {
            assert(h@.children =~= Seq::empty());
        }
        h
    }

    /// Adds a piece of content at the end of the header.
    fn add_child(self, child: HeaderChild) -> (h: Header)
        ensures
            h@ == self@.with_child(child@),
    {
        let Header { mut children } = self;
        children.push(child);
        let h = Header { children };
        proof {
            assert(h@.children =~= self@.children.push(child@));
        }
        h
    }

    /// Adds a paragraph at the end of the header.
    pub fn add_paragraph(self, p: Paragraph) -> (h: Header)
        ensures
            h@ == self@.with_child(HeaderChildView::Paragraph(p@)),
    {
        self.add_child(HeaderChild::Paragraph(p))
    }

    /// Adds a table at the end of the header.
    pub fn add_table(self, t: Table) -> (h: Header)
        ensures
            h@ == self@.with_child(HeaderChildView::Table(t@)),
    {
        self.add_child(HeaderChild::Table(t))
    }

    /// Adds the field with the number of the current page at the end of the header.
    pub fn add_page_num(self, p: PageNum) -> (h: Header)
        ensures
            h@ == self@.with_child(HeaderChildView::Field(p@)),
    {
        self.add_child(HeaderChild::PageNum(p))
    }

    /// Adds the field with the number of pages at the end of the header.
    pub fn add_num_pages(self, p: NumPages) -> (h: Header)
        ensures
            h@ == self@.with_child(HeaderChildView::Field(p@)),
    {
        self.add_child(HeaderChild::NumPages(p))
    }
}

impl Default for Header {
    fn default() -> (h: Header)
        ensures
            h@ == (HeaderView { children: Seq::empty() }),
    {
        Header::new()
    }
}

impl Clone for Header {
    fn clone(&self) -> (h: Header)
        ensures
            h@ == self@,
    {
        let h = Header { children: self.children.clone() };
        proof {
            assert(h@.children =~= self@.children);
        }
        h
    }
}

impl BuildXML for Header {
    open spec fn tokens(&self) -> Seq<Token> {
        self@.tokens()
    }

    proof fn lemma_balanced(&self) {
        self@.lemma_balanced();
    }

    fn build(&self) -> (bytes: Vec<u8>) {
        let b = XMLBuilder::new().declaration(true).open("w:hdr").namespaces();
        proof {
            assert(b@.pending.unwrap() =~= namespaces());
        }
        let b = b.add_children(&self.children).close();
        proof {
            assert(children_tokens(self.children@) =~= self@.parts());
            assert(b@.tokens =~= self.tokens());
        }
        b.build()
    }
}

} // verus!
