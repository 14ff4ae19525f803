//! A footer: what stands at the bottom of each page.

use crate::documents::elements::field_code::FieldCodeView;
use crate::documents::elements::num_pages::NumPages;
use crate::documents::elements::page_num::PageNum;
use crate::documents::elements::paragraph::{Paragraph, ParagraphView};
use crate::documents::elements::table::{Table, TableView};
use crate::markup::{
    balanced, children_tokens, element_tokens, flatten, lemma_balanced_concat, lemma_balanced_leaf,
    lemma_element_balanced, lemma_flatten_balanced, BuildXML, Token,
};
use crate::xml_builder::{namespaces, XMLBuilder};
use vstd::prelude::*;

verus! {

/// A footer: paragraphs, tables and fields, in the order in which they were added.
#[derive(Debug, PartialEq)]
pub struct Footer {
    pub children: Vec<FooterChild>,
}

/// What a footer holds at its top level.
#[derive(Debug, PartialEq)]
pub enum FooterChild {
    Paragraph(Paragraph),
    Table(Table),
    PageNum(PageNum),
    NumPages(NumPages),
}

/// One piece of a footer's content, as a value.
pub enum FooterChildView {
    Paragraph(ParagraphView),
    Table(TableView),
    Field(FieldCodeView),
}

impl View for FooterChild {
    type V = FooterChildView;

    open spec fn view(&self) -> FooterChildView {
        match self {
            FooterChild::Paragraph(p) => FooterChildView::Paragraph(p@),
            FooterChild::Table(t) => FooterChildView::Table(t@),
            FooterChild::PageNum(f) => FooterChildView::Field(f@),
            FooterChild::NumPages(f) => FooterChildView::Field(f@),
        }
    }
}

impl FooterChildView {
    /// The markup of the piece.
    pub open spec fn tokens(self) -> Seq<Token> {
        match self {
            FooterChildView::Paragraph(p) => p.tokens(),
            FooterChildView::Table(t) => t.tokens(),
            FooterChildView::Field(f) => f.tokens(),
        }
    }

    /// The markup of the piece is balanced.
    pub proof fn lemma_balanced(self)
        ensures
            balanced(self.tokens()),
    {
        match self {
            FooterChildView::Paragraph(p) => p.lemma_balanced(),
            FooterChildView::Table(t) => t.lemma_balanced(),
            FooterChildView::Field(f) => f.lemma_balanced(),
        }
    }
}

impl Clone for FooterChild {
    fn clone(&self) -> (c: FooterChild)
        ensures
            c@ == self@,
    {
        match self {
            FooterChild::Paragraph(p) => FooterChild::Paragraph(p.clone()),
            FooterChild::Table(t) => FooterChild::Table(t.clone()),
            FooterChild::PageNum(f) => FooterChild::PageNum(f.clone()),
            FooterChild::NumPages(f) => FooterChild::NumPages(f.clone()),
        }
    }
}

impl BuildXML for FooterChild {
    open spec fn tokens(&self) -> Seq<Token> {
        self@.tokens()
    }

    proof fn lemma_balanced(&self) {
        self@.lemma_balanced();
    }

    fn build(&self) -> (bytes: Vec<u8>) {
        match self {
            FooterChild::Paragraph(p) => p.build(),
            FooterChild::Table(t) => t.build(),
            FooterChild::PageNum(f) => f.build(),
            FooterChild::NumPages(f) => f.build(),
        }
    }
}

/// A footer as a value: its content in the order in which it was added.
pub struct FooterView {
    pub children: Seq<FooterChildView>,
}

impl View for Footer {
    type V = FooterView;

    open spec fn view(&self) -> FooterView {
        FooterView { children: self.children@.map_values(|c: FooterChild| c@) }
    }
}

impl FooterView {
    /// The markup of each piece of content, in their order.
    pub open spec fn parts(self) -> Seq<Seq<Token>> {
        Seq::new(self.children.len(), |i: int| self.children[i].tokens())
    }

    /// The markup of the footer: the declaration line, then the root element
    /// with the full namespace table around the content.
    pub open spec fn tokens(self) -> Seq<Token> {
        seq![Token::Declaration] + element_tokens(
            "w:ftr"@,
            namespaces(),
            self.children.len() > 0,
            flatten(self.parts()),
        )
    }

    /// The footer with one more piece of content at its end.
    pub open spec fn with_child(self, child: FooterChildView) -> FooterView {
        FooterView { children: self.children.push(child) }
    }

    /// The markup of a footer is balanced.
    pub proof fn lemma_balanced(self)
        ensures
            balanced(self.tokens()),
    {
        assert forall|i: int| 0 <= i < self.parts().len() implies balanced(
            #[trigger] self.parts()[i],
        ) by {
            self.children[i].lemma_balanced();
        }
        lemma_flatten_balanced(self.parts());
        lemma_element_balanced(
            "w:ftr"@,
            namespaces(),
            self.children.len() > 0,
            flatten(self.parts()),
        );
        lemma_balanced_leaf(Token::Declaration);
        lemma_balanced_concat(
            seq![Token::Declaration],
            element_tokens("w:ftr"@, namespaces(), self.children.len() > 0, flatten(self.parts())),
        );
    }

    /// Content that is added stays where it was added: after everything
    /// added before it, with its own markup in full.
    pub proof fn lemma_insertion_order(self, child: FooterChildView)
        ensures
            flatten(self.with_child(child).parts()) == flatten(self.parts()) + child.tokens(),
    {
        assert(self.with_child(child).parts().drop_last() =~= self.parts());
    }
}

impl Footer {
    /// A footer without content.
    pub fn new() -> (h: Footer)
        ensures
            h@ == (FooterView { children: Seq::empty() }),
    {
        let h = Footer { children: Vec::new() };
        proof {
            assert(h@.children =~= Seq::empty());
        }
        h
    }

    /// Adds a piece of content at the end of the footer.
    fn add_child(self, child: FooterChild) -> (h: Footer)
        ensures
            h@ == self@.with_child(child@),
    {
        let Footer { mut children } = self;
        children.push(child);
        let h = Footer { children };
        proof {
            assert(h@.children =~= self@.children.push(child@));
        }
        h
    }

    /// Adds a paragraph at the end of the footer.
    pub fn add_paragraph(self, p: Paragraph) -> (h: Footer)
        ensures
            h@ == self@.with_child(FooterChildView::Paragraph(p@)),
    {
        self.add_child(FooterChild::Paragraph(p))
    }

    /// Adds a table at the end of the footer.
    pub fn add_table(self, t: Table) -> (h: Footer)
        ensures
            h@ == self@.with_child(FooterChildView::Table(t@)),
    {
        self.add_child(FooterChild::Table(t))
    }

    /// Adds the field with the number of the current page at the end of the footer.
    pub fn add_page_num(self, p: PageNum) -> (h: Footer)
        ensures
            h@ == self@.with_child(FooterChildView::Field(p@)),
    {
        self.add_child(FooterChild::PageNum(p))
    }

    /// Adds the field with the number of pages at the end of the footer.
    pub fn add_num_pages(self, p: NumPages) -> (h: Footer)
        ensures
            h@ == self@.with_child(FooterChildView::Field(p@)),
    {
        self.add_child(FooterChild::NumPages(p))
    }
}

impl Default for Footer {
    fn default() -> (h: Footer)
        ensures
            h@ == (FooterView { children: Seq::empty() }),
    {
        Footer::new()
    }
}

impl Clone for Footer {
    fn clone(&self) -> (h: Footer)
        ensures
            h@ == self@,
    {
        let h = Footer { children: self.children.clone() };
        proof {
            assert(h@.children =~= self@.children);
        }
        h
    }
}

impl BuildXML for Footer {
    open spec fn tokens(&self) -> Seq<Token> {
        self@.tokens()
    }

    proof fn lemma_balanced(&self) {
        self@.lemma_balanced();
    }

    fn build(&self) -> (bytes: Vec<u8>) {
        let b = XMLBuilder::new().declaration(true).open("w:ftr").namespaces();
        proof {
            assert(b@.pending.unwrap() =~= namespaces());
        }
        let b = b.add_children(&self.children).close();
        proof {
            assert(children_tokens(self.children@) =~= self@.parts());
            assert(b@.tokens =~= self.tokens());
        }
        b.build()
    }
}

} // verus!
