//! Tables: rows of cells, and in each cell paragraphs.

use crate::documents::elements::paragraph::{Paragraph, ParagraphView};
use crate::markup::{
    balanced, children_tokens, element_tokens, flatten, lemma_element_balanced,
    lemma_flatten_balanced, BuildXML, Token,
};
use crate::xml_builder::XMLBuilder;
use vstd::prelude::*;

verus! {

/// A cell of a table: paragraphs, in the order in which they were added.
#[derive(Debug, PartialEq)]
pub struct TableCell {
    pub children: Vec<Paragraph>,
}

/// A cell as a value.
pub struct TableCellView {
    pub children: Seq<ParagraphView>,
}

impl View for TableCell {
    type V = TableCellView;

    open spec fn view(&self) -> TableCellView {
        TableCellView { children: self.children@.map_values(|p: Paragraph| p@) }
    }
}

impl TableCellView {
    /// The markup of each paragraph, in their order.
    pub open spec fn parts(self) -> Seq<Seq<Token>> {
        Seq::new(self.children.len(), |i: int| self.children[i].tokens())
    }

    /// The markup of the cell: its tag around its paragraphs.
    pub open spec fn tokens(self) -> Seq<Token> {
        element_tokens("w:tc"@, Seq::empty(), self.children.len() > 0, flatten(self.parts()))
    }

    /// The markup of a cell is balanced.
    pub proof fn lemma_balanced(self)
        ensures
            balanced(self.tokens()),
    {
        assert forall|i: int| 0 <= i < self.parts().len() implies balanced(
            #[trigger] self.parts()[i],
        ) by {
            self.children[i].lemma_balanced();
        }
        lemma_flatten_balanced(self.parts());
        lemma_element_balanced(
            "w:tc"@,
            Seq::empty(),
            self.children.len() > 0,
            flatten(self.parts()),
        );
    }
}

impl TableCell {
    /// A cell without paragraphs.
    pub fn new() -> (c: TableCell)
        ensures
            c@ == (TableCellView { children: Seq::empty() }),
    {
        let c = TableCell { children: Vec::new() };
        proof {
            assert(c@.children =~= Seq::empty());
        }
        c
    }

    /// Adds a paragraph at the end of the cell.
    pub fn add_paragraph(self, p: Paragraph) -> (c: TableCell)
        ensures
            c@ == (TableCellView { children: self@.children.push(p@) }),
    {
        let TableCell { mut children } = self;
        children.push(p);
        let c = TableCell { children };
        proof {
            assert(c@.children =~= self@.children.push(p@));
        }
        c
    }
}

impl Clone for TableCell {
    fn clone(&self) -> (c: TableCell)
        ensures
            c@ == self@,
    {
        let c = TableCell { children: self.children.clone() };
        proof {
            assert(c@.children =~= self@.children);
        }
        c
    }
}

impl BuildXML for TableCell {
    open spec fn tokens(&self) -> Seq<Token> {
        self@.tokens()
    }

    proof fn lemma_balanced(&self) {
        self@.lemma_balanced();
    }

    fn build(&self) -> (bytes: Vec<u8>) {
        let b = XMLBuilder::new().open("w:tc").add_children(&self.children).close();
        proof {
            assert(children_tokens(self.children@) =~= self@.parts());
            assert(b@.tokens =~= self.tokens());
        }
        b.build()
    }
}

/// A row of a table: cells, in the order in which they were added.
#[derive(Debug, PartialEq)]
pub struct TableRow {
    pub cells: Vec<TableCell>,
}

/// A row as a value.
pub struct TableRowView {
    pub cells: Seq<TableCellView>,
}

impl View for TableRow {
    type V = TableRowView;

    open spec fn view(&self) -> TableRowView {
        TableRowView { cells: self.cells@.map_values(|c: TableCell| c@) }
    }
}

impl TableRowView {
    /// The markup of each cell, in their order.
    pub open spec fn parts(self) -> Seq<Seq<Token>> {
        Seq::new(self.cells.len(), |i: int| self.cells[i].tokens())
    }

    /// The markup of the row: its tag around its cells.
    pub open spec fn tokens(self) -> Seq<Token> {
        element_tokens("w:tr"@, Seq::empty(), self.cells.len() > 0, flatten(self.parts()))
    }

    /// The markup of a row is balanced.
    pub proof fn lemma_balanced(self)
        ensures
            balanced(self.tokens()),
    {
        assert forall|i: int| 0 <= i < self.parts().len() implies balanced(
            #[trigger] self.parts()[i],
        ) by {
            self.cells[i].lemma_balanced();
        }
        lemma_flatten_balanced(self.parts());
        lemma_element_balanced("w:tr"@, Seq::empty(), self.cells.len() > 0, flatten(self.parts()));
    }
}

impl TableRow {
    /// A row without cells.
    pub fn new() -> (r: TableRow)
        ensures
            r@ == (TableRowView { cells: Seq::empty() }),
    {
        let r = TableRow { cells: Vec::new() };
        proof {
            assert(r@.cells =~= Seq::empty());
        }
        r
    }

    /// Adds a cell at the end of the row.
    pub fn add_cell(self, cell: TableCell) -> (r: TableRow)
        ensures
            r@ == (TableRowView { cells: self@.cells.push(cell@) }),
    {
        let TableRow { mut cells } = self;
        cells.push(cell);
        let r = TableRow { cells };
        proof {
            assert(r@.cells =~= self@.cells.push(cell@));
        }
        r
    }
}

impl Clone for TableRow {
    fn clone(&self) -> (r: TableRow)
        ensures
            r@ == self@,
    {
        let r = TableRow { cells: self.cells.clone() };
        proof {
            assert(r@.cells =~= self@.cells);
        }
        r
    }
}

impl BuildXML for TableRow {
    open spec fn tokens(&self) -> Seq<Token> {
        self@.tokens()
    }

    proof fn lemma_balanced(&self) {
        self@.lemma_balanced();
    }

    fn build(&self) -> (bytes: Vec<u8>) {
        let b = XMLBuilder::new().open("w:tr").add_children(&self.cells).close();
        proof {
            assert(children_tokens(self.cells@) =~= self@.parts());
            assert(b@.tokens =~= self.tokens());
        }
        b.build()
    }
}

/// A table: rows, in the order in which they were added.
#[derive(Debug, PartialEq)]
pub struct Table {
    pub rows: Vec<TableRow>,
}

/// A table as a value.
pub struct TableView {
    pub rows: Seq<TableRowView>,
}

impl View for Table {
    type V = TableView;

    open spec fn view(&self) -> TableView {
        TableView { rows: self.rows@.map_values(|r: TableRow| r@) }
    }
}

impl TableView {
    /// The markup of each row, in their order.
    pub open spec fn parts(self) -> Seq<Seq<Token>> {
        Seq::new(self.rows.len(), |i: int| self.rows[i].tokens())
    }

    /// The markup of the table: its tag around its rows.
    pub open spec fn tokens(self) -> Seq<Token> {
        element_tokens("w:tbl"@, Seq::empty(), self.rows.len() > 0, flatten(self.parts()))
    }

    /// The markup of a table is balanced.
    pub proof fn lemma_balanced(self)
        ensures
            balanced(self.tokens()),
    {
        assert forall|i: int| 0 <= i < self.parts().len() implies balanced(
            #[trigger] self.parts()[i],
        ) by {
            self.rows[i].lemma_balanced();
        }
        lemma_flatten_balanced(self.parts());
        lemma_element_balanced("w:tbl"@, Seq::empty(), self.rows.len() > 0, flatten(self.parts()));
    }
}

impl Table {
    /// A table without rows.
    pub fn new() -> (t: Table)
        ensures
            t@ == (TableView { rows: Seq::empty() }),
    {
        let t = Table { rows: Vec::new() };
        proof {
            assert(t@.rows =~= Seq::empty());
        }
        t
    }

    /// Adds a row at the end of the table.
    pub fn add_row(self, row: TableRow) -> (t: Table)
        ensures
            t@ == (TableView { rows: self@.rows.push(row@) }),
    {
        let Table { mut rows } = self;
        rows.push(row);
        let t = Table { rows };
        proof {
            assert(t@.rows =~= self@.rows.push(row@));
        }
        t
    }
}

impl Clone for Table {
    fn clone(&self) -> (t: Table)
        ensures
            t@ == self@,
    {
        let t = Table { rows: self.rows.clone() };
        proof {
            assert(t@.rows =~= self@.rows);
        }
        t
    }
}

impl BuildXML for Table {
    open spec fn tokens(&self) -> Seq<Token> {
        self@.tokens()
    }

    proof fn lemma_balanced(&self) {
        self@.lemma_balanced();
    }

    fn build(&self) -> (bytes: Vec<u8>) {
        let b = XMLBuilder::new().open("w:tbl").add_children(&self.rows).close();
        proof {
            assert(children_tokens(self.rows@) =~= self@.parts());
            assert(b@.tokens =~= self.tokens());
        }
        b.build()
    }
}

} // verus!
