use docx_core::documents::{
    BuildXML, Document, Footer, Header, NumPages, PageNum, Paragraph, Run, Table, TableCell, TableRow,
};
use docx_core::types::AlignmentType;
use std::str;

const ROOT_ATTRS: &str = " xmlns:o=\"urn:schemas-microsoft-com:office:office\" xmlns:r=\"http://schemas.openxmlformats.org/officeDocument/2006/relationships\" xmlns:v=\"urn:schemas-microsoft-com:vml\" xmlns:w=\"http://schemas.openxmlformats.org/wordprocessingml/2006/main\" xmlns:w10=\"urn:schemas-microsoft-com:office:word\" xmlns:wp=\"http://schemas.openxmlformats.org/drawingml/2006/wordprocessingDrawing\" xmlns:wps=\"http://schemas.microsoft.com/office/word/2010/wordprocessingShape\" xmlns:wpg=\"http://schemas.microsoft.com/office/word/2010/wordprocessingGroup\" xmlns:mc=\"http://schemas.openxmlformats.org/markup-compatibility/2006\" xmlns:wp14=\"http://schemas.microsoft.com/office/word/2010/wordprocessingDrawing\" xmlns:w14=\"http://schemas.microsoft.com/office/word/2010/wordml\" mc:Ignorable=\"w14 wp14\"";

const DECLARATION: &str = "<?xml version=\"1.0\" encoding=\"UTF-8\" standalone=\"yes\"?>\n";

fn hello() -> Paragraph {
    Paragraph::new().add_run(Run::new().add_text("Hello"))
}

fn page_num() -> PageNum {
    PageNum::new().wrap("none").v_anchor("text").h_anchor("margin").x_align("right").y(1)
}

/// Checks that every end tag closes the element opened last, and returns the
/// numbers of start tags and end tags. Elements that close themselves count
/// as neither.
fn tag_counts(markup: &str) -> (usize, usize) {
    let mut open: Vec<String> = Vec::new();
    let mut starts = 0;
    let mut ends = 0;
    let mut rest = markup;
    while let Some(at) = rest.find('<') {
        let tag_end = at + rest[at..].find('>').expect("a tag ends with a bracket");
        let tag = &rest[at + 1..tag_end];
        if let Some(name) = tag.strip_prefix('/') {
            assert_eq!(open.pop().as_deref(), Some(name), "end tag out of turn");
            ends += 1;
        } else if tag.starts_with('?') {
            assert!(tag.ends_with('?'));
        } else if !tag.ends_with('/') {
            let name = tag.split(' ').next().unwrap();
            open.push(name.to_string());
            starts += 1;
        }
        rest = &rest[tag_end + 1..];
    }
    assert!(open.is_empty(), "elements left open: {:?}", open);
    (starts, ends)
}

#[test]
fn header_with_page_number_and_paragraph() {
    let b = Header::new().add_page_num(page_num()).add_paragraph(hello()).build();
    let expected = format!(
        "{}<w:hdr{}>{}{}</w:hdr>",
        DECLARATION,
        ROOT_ATTRS,
        "<w:sdt><w:sdtPr><w:rPr></w:rPr></w:sdtPr><w:sdtContent><w:p w14:paraId=\"12345678\"><w:pPr><w:rPr></w:rPr><w:framePr w:wrap=\"none\" w:vAnchor=\"text\" w:hAnchor=\"margin\" w:xAlign=\"right\" w:y=\"1\" /></w:pPr><w:r><w:rPr></w:rPr><w:fldChar w:fldCharType=\"begin\" w:dirty=\"false\" /><w:instrText>PAGE</w:instrText><w:fldChar w:fldCharType=\"separate\" w:dirty=\"false\" /><w:t xml:space=\"preserve\">1</w:t><w:fldChar w:fldCharType=\"end\" w:dirty=\"false\" /></w:r></w:p></w:sdtContent>\n</w:sdt>",
        "<w:p><w:pPr><w:pStyle w:val=\"Normal\" /><w:rPr></w:rPr></w:pPr><w:r><w:rPr></w:rPr><w:t xml:space=\"preserve\">Hello</w:t></w:r></w:p>"
    );
    assert_eq!(str::from_utf8(&b).unwrap(), expected);
}

#[test]
fn header_children_are_rendered_in_insertion_order_and_in_full() {
    let field = String::from_utf8(page_num().build()).unwrap();
    let paragraph = String::from_utf8(hello().build()).unwrap();
    let one = String::from_utf8(
        Header::new().add_page_num(page_num()).add_paragraph(hello()).build(),
    )
    .unwrap();
    let other = String::from_utf8(
        Header::new().add_paragraph(hello()).add_page_num(page_num()).build(),
    )
    .unwrap();
    assert_eq!(one, format!("{}<w:hdr{}>{}{}</w:hdr>", DECLARATION, ROOT_ATTRS, field, paragraph));
    assert_eq!(other, format!("{}<w:hdr{}>{}{}</w:hdr>", DECLARATION, ROOT_ATTRS, paragraph, field));
}

#[test]
fn header_holds_every_kind_of_child() {
    let table = Table::new().add_row(TableRow::new().add_cell(TableCell::new()));
    let expected = format!(
        "{}<w:hdr{}>{}{}{}</w:hdr>",
        DECLARATION,
        ROOT_ATTRS,
        String::from_utf8(NumPages::new().build()).unwrap(),
        "<w:tbl><w:tr><w:tc /></w:tr></w:tbl>",
        String::from_utf8(PageNum::new().build()).unwrap(),
    );
    let b = Header::new()
        .add_num_pages(NumPages::new())
        .add_table(table)
        .add_page_num(PageNum::new())
        .build();
    assert_eq!(str::from_utf8(&b).unwrap(), expected);
}

#[test]
fn header_without_content_is_an_empty_root() {
    let b = Header::new().build();
    assert_eq!(
        str::from_utf8(&b).unwrap(),
        format!("{}<w:hdr{} />", DECLARATION, ROOT_ATTRS)
    );
    assert_eq!(Header::default(), Header::new());
}

#[test]
fn rendered_trees_are_balanced() {
    let table = Table::new()
        .add_row(TableRow::new().add_cell(TableCell::new().add_paragraph(hello())).add_cell(
            TableCell::new(),
        ))
        .add_row(TableRow::new());
    let document = Document::new()
        .add_paragraph(hello().align(AlignmentType::Center))
        .add_table(table)
        .add_paragraph(Paragraph::new())
        .build();
    let (starts, ends) = tag_counts(str::from_utf8(&document).unwrap());
    assert_eq!(starts, ends);
    assert_eq!(starts, 20);

    let header = Header::new()
        .add_page_num(page_num())
        .add_num_pages(NumPages::new().align(AlignmentType::Right).width(3))
        .add_paragraph(hello())
        .build();
    let (starts, ends) = tag_counts(str::from_utf8(&header).unwrap());
    assert_eq!(starts, ends);
    assert_eq!(starts, 29);

    assert_eq!(tag_counts(str::from_utf8(&Document::new().build()).unwrap()), (1, 1));
    assert_eq!(tag_counts(str::from_utf8(&Header::new().build()).unwrap()), (0, 0));
    assert_eq!(tag_counts(str::from_utf8(&NumPages::new().build()).unwrap()), (11, 11));
}

#[test]
fn footer_with_number_of_pages_and_paragraph() {
    let b = Footer::new()
        .add_paragraph(hello())
        .add_num_pages(NumPages::new().align(AlignmentType::Center))
        .build();
    let expected = format!(
        "{}<w:ftr{}>{}{}</w:ftr>",
        DECLARATION,
        ROOT_ATTRS,
        String::from_utf8(hello().build()).unwrap(),
        "<w:sdt><w:sdtPr><w:rPr></w:rPr></w:sdtPr><w:sdtContent><w:p w14:paraId=\"12345678\"><w:pPr><w:rPr></w:rPr><w:jc w:val=\"center\" /></w:pPr><w:r><w:rPr></w:rPr><w:fldChar w:fldCharType=\"begin\" w:dirty=\"false\" /><w:instrText>NUMPAGES</w:instrText><w:fldChar w:fldCharType=\"separate\" w:dirty=\"false\" /><w:t xml:space=\"preserve\">1</w:t><w:fldChar w:fldCharType=\"end\" w:dirty=\"false\" /></w:r></w:p></w:sdtContent>\n</w:sdt>",
    );
    assert_eq!(str::from_utf8(&b).unwrap(), expected);
    assert_eq!(
        str::from_utf8(&Footer::new().build()).unwrap(),
        format!("{}<w:ftr{} />", DECLARATION, ROOT_ATTRS)
    );
    let (starts, ends) = tag_counts(str::from_utf8(&b).unwrap());
    assert_eq!(starts, ends);
}

#[test]
fn copies_render_as_what_they_copy() {
    let header = Header::new()
        .add_page_num(page_num())
        .add_table(Table::new().add_row(TableRow::new().add_cell(
            TableCell::new().add_paragraph(hello().id("0A0B0C0D")),
        )))
        .add_paragraph(hello().align(AlignmentType::Distribute));
    let copy = header.clone();
    assert_eq!(copy, header);
    assert_eq!(copy.build(), header.build());
}

#[test]
fn boxed_fields_render_as_the_fields() {
    let pages = NumPages::new().wrap("none");
    let page = PageNum::new().x(4);
    assert_eq!(Box::new(pages.clone()).build(), pages.build());
    assert_eq!(Box::new(page.clone()).build(), page.build());
}
