use docx_core::documents::{
    BuildXML, Document, Paragraph, Run, Table, TableCell, TableRow,
};
use docx_core::types::AlignmentType;
use std::str;

fn root_open() -> String {
    let mut s = String::new();
    s.push_str("<?xml version=\"1.0\" encoding=\"UTF-8\" standalone=\"yes\"?>\n");
    s.push_str("<w:document xmlns:o=\"urn:schemas-microsoft-com:office:office\"");
    s.push_str(" xmlns:r=\"http://schemas.openxmlformats.org/officeDocument/2006/relationships\"");
    s.push_str(" xmlns:v=\"urn:schemas-microsoft-com:vml\"");
    s.push_str(" xmlns:w=\"http://schemas.openxmlformats.org/wordprocessingml/2006/main\"");
    s.push_str(" xmlns:w10=\"urn:schemas-microsoft-com:office:word\"");
    s.push_str(" xmlns:wp=\"http://schemas.openxmlformats.org/drawingml/2006/wordprocessingDrawing\"");
    s.push_str(" xmlns:wps=\"http://schemas.microsoft.com/office/word/2010/wordprocessingShape\"");
    s.push_str(" xmlns:wpg=\"http://schemas.microsoft.com/office/word/2010/wordprocessingGroup\"");
    s.push_str(" xmlns:mc=\"http://schemas.openxmlformats.org/markup-compatibility/2006\"");
    s.push_str(" xmlns:wp14=\"http://schemas.microsoft.com/office/word/2010/wordprocessingDrawing\"");
    s.push_str(" xmlns:w14=\"http://schemas.microsoft.com/office/word/2010/wordml\"");
    s.push_str(" mc:Ignorable=\"w14 wp14\">\n  ");
    s
}

#[test]
fn test_document() {
    let b = Document::new()
        .add_paragraph(Paragraph::new().add_run(Run::new().add_text("Hello")))
        .build();
    assert_eq!(
        str::from_utf8(&b).unwrap(),
        r#"<?xml version="1.0" encoding="UTF-8" standalone="yes"?>
<w:document xmlns:o="urn:schemas-microsoft-com:office:office" xmlns:r="http://schemas.openxmlformats.org/officeDocument/2006/relationships" xmlns:v="urn:schemas-microsoft-com:vml" xmlns:w="http://schemas.openxmlformats.org/wordprocessingml/2006/main" xmlns:w10="urn:schemas-microsoft-com:office:word" xmlns:wp="http://schemas.openxmlformats.org/drawingml/2006/wordprocessingDrawing" xmlns:wps="http://schemas.microsoft.com/office/word/2010/wordprocessingShape" xmlns:wpg="http://schemas.microsoft.com/office/word/2010/wordprocessingGroup" xmlns:mc="http://schemas.openxmlformats.org/markup-compatibility/2006" xmlns:wp14="http://schemas.microsoft.com/office/word/2010/wordprocessingDrawing" xmlns:w14="http://schemas.microsoft.com/office/word/2010/wordml" mc:Ignorable="w14 wp14">
  <w:body><w:p><w:pPr><w:pStyle w:val="Normal" /><w:rPr></w:rPr></w:pPr><w:r><w:rPr></w:rPr><w:t xml:space="preserve">Hello</w:t></w:r></w:p></w:body>
</w:document>"#
    );
}

#[test]
fn document_without_content_has_an_empty_body() {
    let b = Document::new().build();
    let expected = format!("{}<w:body />\n</w:document>", root_open());
    assert_eq!(str::from_utf8(&b).unwrap(), expected);
}

#[test]
fn document_default_is_empty() {
    assert_eq!(Document::default().build(), Document::new().build());
}

#[test]
fn document_keeps_reading_order() {
    let b = Document::new()
        .add_paragraph(Paragraph::new().add_run(Run::new().add_text("one")))
        .add_table(Table::new().add_row(TableRow::new().add_cell(
            TableCell::new().add_paragraph(Paragraph::new().add_run(Run::new().add_text("two"))),
        )))
        .add_paragraph(Paragraph::new().add_run(Run::new().add_text("three")))
        .build();
    let p = |t: &str| {
        format!(
            "<w:p><w:pPr><w:pStyle w:val=\"Normal\" /><w:rPr></w:rPr></w:pPr><w:r><w:rPr></w:rPr><w:t xml:space=\"preserve\">{}</w:t></w:r></w:p>",
            t
        )
    };
    let expected = format!(
        "{}<w:body>{}<w:tbl><w:tr><w:tc>{}</w:tc></w:tr></w:tbl>{}</w:body>\n</w:document>",
        root_open(),
        p("one"),
        p("two"),
        p("three")
    );
    assert_eq!(str::from_utf8(&b).unwrap(), expected);
}

#[test]
fn rendering_twice_gives_the_same_bytes() {
    let d = Document::new()
        .add_paragraph(
            Paragraph::new()
                .align(AlignmentType::Center)
                .add_run(Run::new().add_text("Hello")),
        )
        .add_table(Table::new().add_row(TableRow::new().add_cell(TableCell::new())));
    let first = d.build();
    let second = d.build();
    assert_eq!(first, second);
}

#[test]
fn equal_trees_render_equally() {
    let make = || {
        Document::new().add_paragraph(
            Paragraph::new()
                .id("0000002A")
                .style("Title")
                .add_run(Run::new().add_text("a").add_text(" b ")),
        )
    };
    assert_eq!(make().build(), make().build());
}

#[test]
fn empty_table_parts_are_empty_elements() {
    assert_eq!(str::from_utf8(&Table::new().build()).unwrap(), "<w:tbl />");
    assert_eq!(str::from_utf8(&TableRow::new().build()).unwrap(), "<w:tr />");
    assert_eq!(str::from_utf8(&TableCell::new().build()).unwrap(), "<w:tc />");
    assert_eq!(
        str::from_utf8(&Table::new().add_row(TableRow::new()).add_row(TableRow::new()).build())
            .unwrap(),
        "<w:tbl><w:tr /><w:tr /></w:tbl>"
    );
}

#[test]
fn paragraph_properties_come_before_runs() {
    let b = Paragraph::new()
        .add_run(Run::new().add_text("x"))
        .align(AlignmentType::Right)
        .build();
    assert_eq!(
        str::from_utf8(&b).unwrap(),
        "<w:p><w:pPr><w:pStyle w:val=\"Normal\" /><w:rPr></w:rPr><w:jc w:val=\"right\" /></w:pPr><w:r><w:rPr></w:rPr><w:t xml:space=\"preserve\">x</w:t></w:r></w:p>"
    );
}

#[test]
fn paragraph_without_runs_still_has_its_properties() {
    let b = Paragraph::new().build();
    assert_eq!(
        str::from_utf8(&b).unwrap(),
        "<w:p><w:pPr><w:pStyle w:val=\"Normal\" /><w:rPr></w:rPr></w:pPr></w:p>"
    );
    assert_eq!(Paragraph::default().build(), b);
}

#[test]
fn paragraph_identifier_is_an_attribute() {
    let b = Paragraph::new().id("0000002A").build();
    assert_eq!(
        str::from_utf8(&b).unwrap(),
        "<w:p w14:paraId=\"0000002A\"><w:pPr><w:pStyle w:val=\"Normal\" /><w:rPr></w:rPr></w:pPr></w:p>"
    );
}

#[test]
fn text_is_written_as_given() {
    let b = Run::new().add_text("a < b & \"c\"").build();
    assert_eq!(
        str::from_utf8(&b).unwrap(),
        "<w:r><w:rPr></w:rPr><w:t xml:space=\"preserve\">a < b & \"c\"</w:t></w:r>"
    );
}

#[test]
fn text_outside_ascii_is_encoded_as_utf8() {
    let b = Run::new().add_text("h\u{e9}llo \u{4e16}\u{754c} \u{1f600}").build();
    assert_eq!(
        str::from_utf8(&b).unwrap(),
        "<w:r><w:rPr></w:rPr><w:t xml:space=\"preserve\">h\u{e9}llo \u{4e16}\u{754c} \u{1f600}</w:t></w:r>"
    );
}
