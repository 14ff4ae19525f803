use docx_core::documents::{BuildXML, RunProperty, Text};
use docx_core::xml_builder::XMLBuilder;

fn text_of(b: XMLBuilder) -> String {
    String::from_utf8(b.build()).unwrap()
}

#[test]
fn new_builder_builds_nothing() {
    assert_eq!(XMLBuilder::new().build(), Vec::<u8>::new());
}

#[test]
fn element_without_content_closes_itself() {
    assert_eq!(text_of(XMLBuilder::new().open("w:body").close()), "<w:body />");
}

#[test]
fn property_without_attributes_and_content_is_a_pair() {
    assert_eq!(text_of(XMLBuilder::new().open("w:rPr").close_property()), "<w:rPr></w:rPr>");
    assert_eq!(
        text_of(XMLBuilder::new().open("a").open("w:rPr").close_property().close()),
        "<a>\n  <w:rPr></w:rPr>\n</a>"
    );
}

#[test]
fn property_with_attributes_closes_itself() {
    let b = XMLBuilder::new().open("w:framePr").attribute("w:wrap", "none").close_property();
    assert_eq!(text_of(b), "<w:framePr w:wrap=\"none\" />");
}

#[test]
fn property_with_content_is_closed_by_its_end_tag() {
    let b = XMLBuilder::new().open("w:pPr").add_child(&RunProperty::new()).close_property();
    assert_eq!(text_of(b), "<w:pPr><w:rPr></w:rPr></w:pPr>");
    let b = XMLBuilder::new().open("w:pPr").plain_text("").close_property();
    assert_eq!(text_of(b), "<w:pPr></w:pPr>");
    let b = XMLBuilder::new().open("w:pPr").open("x").close().close_property();
    assert_eq!(text_of(b), "<w:pPr>\n  <x />\n</w:pPr>");
}

#[test]
fn attributes_follow_the_name_in_their_order() {
    let b = XMLBuilder::new()
        .open("w:fldChar")
        .attribute("w:fldCharType", "begin")
        .attribute("w:dirty", "false")
        .close();
    assert_eq!(text_of(b), "<w:fldChar w:fldCharType=\"begin\" w:dirty=\"false\" />");
}

#[test]
fn attribute_values_are_not_escaped() {
    let b = XMLBuilder::new().open("a").attribute("v", "x<y&z").close();
    assert_eq!(text_of(b), "<a v=\"x<y&z\" />");
}

#[test]
fn text_element_marks_preserved_space() {
    assert_eq!(
        text_of(XMLBuilder::new().text(" a ", true)),
        "<w:t xml:space=\"preserve\"> a </w:t>"
    );
    assert_eq!(text_of(XMLBuilder::new().text(" a ", false)), "<w:t> a </w:t>");
    assert_eq!(text_of(XMLBuilder::new().text("", true)), "<w:t xml:space=\"preserve\"></w:t>");
}

#[test]
fn plain_text_fills_the_open_element() {
    let b = XMLBuilder::new().open("w:instrText").plain_text("PAGE").close();
    assert_eq!(text_of(b), "<w:instrText>PAGE</w:instrText>");
    let b = XMLBuilder::new().open("a").plain_text("").close();
    assert_eq!(text_of(b), "<a></a>");
}

#[test]
fn children_are_spliced_without_line_breaks() {
    let b = XMLBuilder::new()
        .open("w:r")
        .add_child(&RunProperty::new())
        .add_child(&Text::new("x"))
        .close();
    assert_eq!(
        text_of(b),
        "<w:r><w:rPr></w:rPr><w:t xml:space=\"preserve\">x</w:t></w:r>"
    );
}

#[test]
fn optional_child_is_written_only_where_present() {
    let some = Some(RunProperty::new());
    let none: Option<RunProperty> = None;
    assert_eq!(
        text_of(XMLBuilder::new().open("a").add_optional_child(&some).close()),
        "<a><w:rPr></w:rPr></a>"
    );
    assert_eq!(
        text_of(XMLBuilder::new().open("a").add_optional_child(&none).close()),
        "<a />"
    );
}

#[test]
fn children_keep_their_order() {
    let children = vec![Text::new("1"), Text::new("2"), Text::new("3")];
    let b = XMLBuilder::new().open("a").add_children(&children).close();
    assert_eq!(
        text_of(b),
        "<a><w:t xml:space=\"preserve\">1</w:t><w:t xml:space=\"preserve\">2</w:t><w:t xml:space=\"preserve\">3</w:t></a>"
    );
    let none: Vec<Text> = Vec::new();
    assert_eq!(text_of(XMLBuilder::new().open("a").add_children(&none).close()), "<a />");
}

#[test]
fn tags_after_tags_go_on_their_own_lines() {
    let b = XMLBuilder::new()
        .open("a")
        .open("b")
        .open("c")
        .close()
        .open("d")
        .plain_text("t")
        .close()
        .close()
        .close();
    assert_eq!(text_of(b), "<a>\n  <b>\n    <c />\n    <d>t</d>\n  </b>\n</a>");
}

#[test]
fn text_element_after_a_tag_goes_on_its_own_line() {
    let b = XMLBuilder::new().open("a").text("x", false).text("y", false).close();
    assert_eq!(text_of(b), "<a>\n  <w:t>x</w:t>\n  <w:t>y</w:t>\n</a>");
}

#[test]
fn end_tag_after_a_closed_element_goes_on_its_own_line() {
    let b = XMLBuilder::new()
        .open("w:sdt")
        .add_child(&RunProperty::new())
        .open("w:sdtContent")
        .add_child(&RunProperty::new())
        .close()
        .close();
    assert_eq!(
        text_of(b),
        "<w:sdt><w:rPr></w:rPr><w:sdtContent><w:rPr></w:rPr></w:sdtContent>\n</w:sdt>"
    );
}

#[test]
fn two_elements_at_the_top_are_on_two_lines() {
    let b = XMLBuilder::new().open("a").close().open("b").close();
    assert_eq!(text_of(b), "<a />\n<b />");
}

#[test]
fn declaration_is_a_line_in_front() {
    assert_eq!(
        text_of(XMLBuilder::new().declaration(true)),
        "<?xml version=\"1.0\" encoding=\"UTF-8\" standalone=\"yes\"?>\n"
    );
    assert_eq!(text_of(XMLBuilder::new().declaration(false)), "");
    assert_eq!(
        text_of(XMLBuilder::new().declaration(true).open("a").close()),
        "<?xml version=\"1.0\" encoding=\"UTF-8\" standalone=\"yes\"?>\n<a />"
    );
    assert_eq!(
        text_of(XMLBuilder::new().open("a").close().declaration(true)),
        "<?xml version=\"1.0\" encoding=\"UTF-8\" standalone=\"yes\"?>\n<a />"
    );
    assert_eq!(
        text_of(XMLBuilder::new().open("a").declaration(true).attribute("k", "v").close()),
        "<?xml version=\"1.0\" encoding=\"UTF-8\" standalone=\"yes\"?>\n<a k=\"v\" />"
    );
}

#[test]
fn root_element_declares_every_namespace_in_order() {
    let out = text_of(XMLBuilder::new().open_root().close());
    assert_eq!(
        out,
        "<w:document xmlns:o=\"urn:schemas-microsoft-com:office:office\" xmlns:r=\"http://schemas.openxmlformats.org/officeDocument/2006/relationships\" xmlns:v=\"urn:schemas-microsoft-com:vml\" xmlns:w=\"http://schemas.openxmlformats.org/wordprocessingml/2006/main\" xmlns:w10=\"urn:schemas-microsoft-com:office:word\" xmlns:wp=\"http://schemas.openxmlformats.org/drawingml/2006/wordprocessingDrawing\" xmlns:wps=\"http://schemas.microsoft.com/office/word/2010/wordprocessingShape\" xmlns:wpg=\"http://schemas.microsoft.com/office/word/2010/wordprocessingGroup\" xmlns:mc=\"http://schemas.openxmlformats.org/markup-compatibility/2006\" xmlns:wp14=\"http://schemas.microsoft.com/office/word/2010/wordprocessingDrawing\" xmlns:w14=\"http://schemas.microsoft.com/office/word/2010/wordml\" mc:Ignorable=\"w14 wp14\" />"
    );
    let other = text_of(XMLBuilder::new().open("w:hdr").namespaces().close());
    assert_eq!(other, out.replace("<w:document ", "<w:hdr "));
}

#[test]
fn build_hands_out_what_was_written_so_far() {
    assert_eq!(text_of(XMLBuilder::new().open("a")), "<a");
    assert_eq!(text_of(XMLBuilder::new().open("a").attribute("k", "v")), "<a k=\"v\"");
    assert_eq!(text_of(XMLBuilder::new().open("a").plain_text("x")), "<a>x");
}

#[test]
fn element_names_outside_ascii_are_encoded_as_utf8() {
    let b = XMLBuilder::new().open("\u{e9}l").attribute("\u{3b1}", "\u{3b2}").plain_text("\u{1f600}").close();
    assert_eq!(text_of(b), "<\u{e9}l \u{3b1}=\"\u{3b2}\">\u{1f600}</\u{e9}l>");
}
