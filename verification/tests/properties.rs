use docx_core::decimal::{decimal_string, digits_string};
use docx_core::documents::{
    BuildXML, FieldChar, FrameProperty, InstrNUMPAGES, InstrPAGE, InstrText, Justification, NumPages,
    ParagraphProperty, ParagraphStyle, Run, RunProperty, StructuredDataTagProperty, Text,
};
use docx_core::types::{bool_str, AlignmentType, FieldCharType};

fn text_of(bytes: Vec<u8>) -> String {
    String::from_utf8(bytes).unwrap()
}

#[test]
fn run_property_is_rendered_though_empty() {
    assert_eq!(text_of(RunProperty::new().build()), "<w:rPr></w:rPr>");
    assert_eq!(text_of(RunProperty::default().build()), "<w:rPr></w:rPr>");
}

#[test]
fn frame_property_without_fields_is_a_start_and_an_end_tag() {
    assert_eq!(text_of(FrameProperty::new().build()), "<w:framePr></w:framePr>");
    assert_eq!(FrameProperty::default(), FrameProperty::new());
}

#[test]
fn frame_property_renders_set_fields_in_fixed_order() {
    let p = FrameProperty::new().height(2).wrap("none").x(-7).v_anchor("text");
    assert_eq!(
        text_of(p.build()),
        "<w:framePr w:wrap=\"none\" w:vAnchor=\"text\" w:x=\"-7\" w:h=\"2\" />"
    );
}

#[test]
fn frame_property_setters_set_one_field_each() {
    let base = FrameProperty::new();
    assert_eq!(base.clone().wrap("a").wrap, Some("a".to_string()));
    assert_eq!(base.clone().v_anchor("a").v_anchor, Some("a".to_string()));
    assert_eq!(base.clone().h_anchor("a").h_anchor, Some("a".to_string()));
    assert_eq!(base.clone().h_rule("a").h_rule, Some("a".to_string()));
    assert_eq!(base.clone().x_align("a").x_align, Some("a".to_string()));
    assert_eq!(base.clone().y_align("a").y_align, Some("a".to_string()));
    assert_eq!(base.clone().h_space(1).h_space, Some(1));
    assert_eq!(base.clone().v_space(2).v_space, Some(2));
    assert_eq!(base.clone().x(3).x, Some(3));
    assert_eq!(base.clone().y(4).y, Some(4));
    assert_eq!(base.clone().width(5).w, Some(5));
    assert_eq!(base.clone().height(6).h, Some(6));
    let one = base.wrap("a");
    assert_eq!(
        one,
        FrameProperty {
            wrap: Some("a".to_string()),
            v_anchor: None,
            h_anchor: None,
            h_rule: None,
            x_align: None,
            y_align: None,
            h_space: None,
            v_space: None,
            x: None,
            y: None,
            w: None,
            h: None,
        }
    );
}

#[test]
fn frame_property_numbers_are_decimal() {
    let p = FrameProperty::new()
        .h_space(-2147483648)
        .v_space(2147483647)
        .x(0)
        .y(-1)
        .width(4294967295)
        .height(0);
    assert_eq!(
        text_of(p.build()),
        "<w:framePr w:hSpace=\"-2147483648\" w:vSpace=\"2147483647\" w:x=\"0\" w:y=\"-1\" w:w=\"4294967295\" w:h=\"0\" />"
    );
}

#[test]
fn decimal_notation_of_numbers() {
    assert_eq!(decimal_string(0), "0");
    assert_eq!(decimal_string(7), "7");
    assert_eq!(decimal_string(10), "10");
    assert_eq!(decimal_string(-10), "-10");
    assert_eq!(decimal_string(1234567890), "1234567890");
    assert_eq!(decimal_string(i64::MAX), "9223372036854775807");
    assert_eq!(decimal_string(i64::MIN), "-9223372036854775808");
    assert_eq!(digits_string(0), "0");
    assert_eq!(digits_string(9), "9");
    assert_eq!(digits_string(100), "100");
    assert_eq!(digits_string(u64::MAX), "18446744073709551615");
    for n in [-1000i64, -99, -1, 1, 5, 42, 999, 1000, 65536] {
        assert_eq!(decimal_string(n), n.to_string());
    }
}

#[test]
fn paragraph_property_is_rendered_though_empty() {
    assert_eq!(text_of(ParagraphProperty::new().build()), "<w:pPr><w:rPr></w:rPr></w:pPr>");
    assert_eq!(ParagraphProperty::default(), ParagraphProperty::new());
}

#[test]
fn paragraph_property_parts_in_fixed_order() {
    let p = ParagraphProperty::new()
        .align(AlignmentType::Center)
        .frame_property(FrameProperty::new().wrap("none"))
        .style("Heading1");
    assert_eq!(
        text_of(p.build()),
        "<w:pPr><w:pStyle w:val=\"Heading1\" /><w:rPr></w:rPr><w:framePr w:wrap=\"none\" /><w:jc w:val=\"center\" /></w:pPr>"
    );
}

#[test]
fn paragraph_property_setters_keep_the_other_parts() {
    let styled = ParagraphProperty::new().style("a");
    let aligned = styled.clone().align(AlignmentType::Left);
    assert_eq!(aligned.style, Some(ParagraphStyle::new("a")));
    assert_eq!(aligned.alignment, Some(Justification::new(AlignmentType::Left)));
    assert_eq!(aligned.frame_property, None);
    let framed = aligned.clone().frame_property(FrameProperty::new().y(1));
    assert_eq!(framed.style, Some(ParagraphStyle::new("a")));
    assert_eq!(framed.alignment, Some(Justification::new(AlignmentType::Left)));
    assert_eq!(framed.frame_property, Some(FrameProperty::new().y(1)));
    let restyled = framed.style("b");
    assert_eq!(restyled.alignment, Some(Justification::new(AlignmentType::Left)));
    assert_eq!(restyled.frame_property, Some(FrameProperty::new().y(1)));
    assert_eq!(
        text_of(restyled.build()),
        "<w:pPr><w:pStyle w:val=\"b\" /><w:rPr></w:rPr><w:framePr w:y=\"1\" /><w:jc w:val=\"left\" /></w:pPr>"
    );
}

#[test]
fn paragraph_property_parts_appear_only_where_set() {
    let all = [
        ("<w:pStyle ", 1usize),
        ("<w:framePr ", 2),
        ("<w:jc ", 4),
    ];
    for mask in 0..8usize {
        let mut p = ParagraphProperty::new();
        if mask & 1 != 0 {
            p = p.style("s");
        }
        if mask & 2 != 0 {
            p = p.frame_property(FrameProperty::new().x(1));
        }
        if mask & 4 != 0 {
            p = p.align(AlignmentType::Right);
        }
        let out = text_of(p.build());
        for (part, bit) in all {
            assert_eq!(out.contains(part), mask & bit != 0, "{} in {}", part, out);
        }
        assert!(out.contains("<w:rPr></w:rPr>"));
    }
}

#[test]
fn alignment_values() {
    let cases = [
        (AlignmentType::Both, "both"),
        (AlignmentType::Center, "center"),
        (AlignmentType::Distribute, "distribute"),
        (AlignmentType::Start, "start"),
        (AlignmentType::End, "end"),
        (AlignmentType::Left, "left"),
        (AlignmentType::Right, "right"),
        (AlignmentType::Justified, "both"),
    ];
    for (alignment, value) in cases {
        assert_eq!(alignment.as_str(), value);
        assert_eq!(
            text_of(Justification::new(alignment).build()),
            format!("<w:jc w:val=\"{}\" />", value)
        );
    }
}

#[test]
fn paragraph_style_refers_by_identifier() {
    assert_eq!(text_of(ParagraphStyle::new("Normal").build()), "<w:pStyle w:val=\"Normal\" />");
    let s = ParagraphStyle::new("Title");
    assert_eq!(s.clone(), s);
}

#[test]
fn field_markers() {
    let cases = [
        (FieldCharType::Begin, "begin"),
        (FieldCharType::Separate, "separate"),
        (FieldCharType::End, "end"),
    ];
    for (kind, value) in cases {
        assert_eq!(kind.as_str(), value);
        assert_eq!(
            text_of(FieldChar::new(kind).build()),
            format!("<w:fldChar w:fldCharType=\"{}\" w:dirty=\"false\" />", value)
        );
        assert_eq!(
            text_of(FieldChar::new(kind).dirty().build()),
            format!("<w:fldChar w:fldCharType=\"{}\" w:dirty=\"true\" />", value)
        );
    }
    assert_eq!(bool_str(true), "true");
    assert_eq!(bool_str(false), "false");
}

#[test]
fn field_instructions() {
    assert_eq!(text_of(InstrPAGE::new().build()), "PAGE");
    assert_eq!(text_of(InstrNUMPAGES::new().build()), "NUMPAGES");
    assert_eq!(
        text_of(InstrText::PAGE(InstrPAGE::new()).build()),
        "<w:instrText>PAGE</w:instrText>"
    );
    assert_eq!(
        text_of(InstrText::NUMPAGES(InstrNUMPAGES::new()).build()),
        "<w:instrText>NUMPAGES</w:instrText>"
    );
}

#[test]
fn structured_tag_property_holds_a_run_property() {
    assert_eq!(
        text_of(StructuredDataTagProperty::new().build()),
        "<w:sdtPr><w:rPr></w:rPr></w:sdtPr>"
    );
    assert_eq!(StructuredDataTagProperty::default(), StructuredDataTagProperty::new());
}

#[test]
fn text_span() {
    assert_eq!(text_of(Text::new("a").build()), "<w:t xml:space=\"preserve\">a</w:t>");
    let plain = Text { text: " a ".to_string(), preserve_space: false };
    assert_eq!(text_of(plain.build()), "<w:t> a </w:t>");
    assert_eq!(plain.clone(), plain);
}

#[test]
fn run_content_keeps_its_order() {
    let b = Run::new()
        .add_field_char(FieldCharType::Begin, true)
        .add_text("x")
        .add_instr_text(InstrText::PAGE(InstrPAGE::new()))
        .add_text("y")
        .build();
    assert_eq!(
        text_of(b),
        "<w:r><w:rPr></w:rPr><w:fldChar w:fldCharType=\"begin\" w:dirty=\"true\" /><w:t xml:space=\"preserve\">x</w:t><w:instrText>PAGE</w:instrText><w:t xml:space=\"preserve\">y</w:t></w:r>"
    );
    assert_eq!(text_of(Run::new().build()), "<w:r><w:rPr></w:rPr></w:r>");
}

#[test]
fn property_objects_never_close_themselves_where_nothing_is_set() {
    assert_eq!(text_of(RunProperty::new().build()), "<w:rPr></w:rPr>");
    assert_eq!(text_of(FrameProperty::new().build()), "<w:framePr></w:framePr>");
    assert_eq!(text_of(ParagraphProperty::new().build()), "<w:pPr><w:rPr></w:rPr></w:pPr>");
    assert_eq!(
        text_of(StructuredDataTagProperty::new().build()),
        "<w:sdtPr><w:rPr></w:rPr></w:sdtPr>"
    );
    let framed = ParagraphProperty::new().frame_property(FrameProperty::new());
    assert_eq!(
        text_of(framed.build()),
        "<w:pPr><w:rPr></w:rPr><w:framePr></w:framePr></w:pPr>"
    );
    let field = text_of(NumPages::new().build());
    assert_eq!(field.matches("<w:rPr></w:rPr>").count(), 3);
    for closed in ["<w:rPr />", "<w:pPr />", "<w:sdtPr />", "<w:framePr />"] {
        assert!(!field.contains(closed), "{} in {}", closed, field);
    }
}

#[test]
fn frame_property_with_a_field_is_one_element() {
    assert_eq!(text_of(FrameProperty::new().x(0).build()), "<w:framePr w:x=\"0\" />");
    assert_eq!(text_of(FrameProperty::new().wrap("").build()), "<w:framePr w:wrap=\"\" />");
}
