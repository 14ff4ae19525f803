use docx_core::documents::{
    BuildXML, FrameProperty, InstrNUMPAGES, NumPages, PageNum, ParagraphProperty,
};
use docx_core::types::AlignmentType;
use std::str;

fn field(code: &str, property: &str) -> String {
    format!(
        "<w:sdt><w:sdtPr><w:rPr></w:rPr></w:sdtPr><w:sdtContent><w:p w14:paraId=\"12345678\">{}<w:r><w:rPr></w:rPr><w:fldChar w:fldCharType=\"begin\" w:dirty=\"false\" /><w:instrText>{}</w:instrText><w:fldChar w:fldCharType=\"separate\" w:dirty=\"false\" /><w:t xml:space=\"preserve\">1</w:t><w:fldChar w:fldCharType=\"end\" w:dirty=\"false\" /></w:r></w:p></w:sdtContent>\n</w:sdt>",
        property, code
    )
}

const RUN: &str = "<w:r><w:rPr></w:rPr><w:fldChar w:fldCharType=\"begin\" w:dirty=\"false\" /><w:instrText>NUMPAGES</w:instrText><w:fldChar w:fldCharType=\"separate\" w:dirty=\"false\" /><w:t xml:space=\"preserve\">1</w:t><w:fldChar w:fldCharType=\"end\" w:dirty=\"false\" /></w:r>";

#[test]
fn test_page() {
    let b = NumPages::new().build();
    assert_eq!(
        str::from_utf8(&b).unwrap(),
        r#"<w:sdt><w:sdtPr><w:rPr></w:rPr></w:sdtPr><w:sdtContent><w:p w14:paraId="12345678"><w:pPr><w:rPr></w:rPr></w:pPr><w:r><w:rPr></w:rPr><w:fldChar w:fldCharType="begin" w:dirty="false" /><w:instrText>NUMPAGES</w:instrText><w:fldChar w:fldCharType="separate" w:dirty="false" /><w:t xml:space="preserve">1</w:t><w:fldChar w:fldCharType="end" w:dirty="false" /></w:r></w:p></w:sdtContent>
</w:sdt>"#
    );
}

#[test]
fn test_page_with_wrap() {
    let b = NumPages::new().wrap("none").x_align("left").build();
    assert_eq!(
        str::from_utf8(&b).unwrap(),
        r#"<w:sdt><w:sdtPr><w:rPr></w:rPr></w:sdtPr><w:sdtContent><w:p w14:paraId="12345678"><w:pPr><w:rPr></w:rPr><w:framePr w:wrap="none" w:xAlign="left" /></w:pPr><w:r><w:rPr></w:rPr><w:fldChar w:fldCharType="begin" w:dirty="false" /><w:instrText>NUMPAGES</w:instrText><w:fldChar w:fldCharType="separate" w:dirty="false" /><w:t xml:space="preserve">1</w:t><w:fldChar w:fldCharType="end" w:dirty="false" /></w:r></w:p></w:sdtContent>
</w:sdt>"#
    );
}

#[test]
fn page_number_field_carries_the_page_code() {
    let b = PageNum::new().build();
    assert_eq!(
        str::from_utf8(&b).unwrap(),
        r#"<w:sdt><w:sdtPr><w:rPr></w:rPr></w:sdtPr><w:sdtContent><w:p w14:paraId="12345678"><w:pPr><w:rPr></w:rPr></w:pPr><w:r><w:rPr></w:rPr><w:fldChar w:fldCharType="begin" w:dirty="false" /><w:instrText>PAGE</w:instrText><w:fldChar w:fldCharType="separate" w:dirty="false" /><w:t xml:space="preserve">1</w:t><w:fldChar w:fldCharType="end" w:dirty="false" /></w:r></w:p></w:sdtContent>
</w:sdt>"#
    );
}

#[test]
fn page_number_field_with_wrap_and_alignment() {
    let b = PageNum::new().wrap("none").x_align("left").build();
    assert_eq!(
        str::from_utf8(&b).unwrap(),
        r#"<w:sdt><w:sdtPr><w:rPr></w:rPr></w:sdtPr><w:sdtContent><w:p w14:paraId="12345678"><w:pPr><w:rPr></w:rPr><w:framePr w:wrap="none" w:xAlign="left" /></w:pPr><w:r><w:rPr></w:rPr><w:fldChar w:fldCharType="begin" w:dirty="false" /><w:instrText>PAGE</w:instrText><w:fldChar w:fldCharType="separate" w:dirty="false" /><w:t xml:space="preserve">1</w:t><w:fldChar w:fldCharType="end" w:dirty="false" /></w:r></w:p></w:sdtContent>
</w:sdt>"#
    );
}

#[test]
fn the_two_fields_differ_only_in_their_code() {
    let pages = String::from_utf8(NumPages::new().y(3).build()).unwrap();
    let page = String::from_utf8(PageNum::new().y(3).build()).unwrap();
    assert_ne!(pages, page);
    assert_eq!(
        pages.replace("<w:instrText>NUMPAGES</w:instrText>", "<w:instrText>PAGE</w:instrText>"),
        page
    );
}

#[test]
fn default_field_is_the_new_field() {
    assert_eq!(NumPages::default(), NumPages::new());
    assert_eq!(PageNum::default(), PageNum::new());
    assert_eq!(NumPages::new().frame_property, None);
    assert_eq!(NumPages::new().paragraph_property, None);
}

#[test]
fn every_frame_field_renders_under_its_name() {
    let b = NumPages::new()
        .height(40)
        .width(30)
        .y(-2)
        .x(1)
        .v_space(0)
        .h_space(2147483647)
        .y_align("top")
        .x_align("left")
        .h_rule("exact")
        .h_anchor("margin")
        .v_anchor("text")
        .wrap("none")
        .build();
    assert_eq!(
        str::from_utf8(&b).unwrap(),
        field(
            "NUMPAGES",
            "<w:pPr><w:rPr></w:rPr><w:framePr w:wrap=\"none\" w:vAnchor=\"text\" w:hAnchor=\"margin\" w:hRule=\"exact\" w:xAlign=\"left\" w:yAlign=\"top\" w:hSpace=\"2147483647\" w:vSpace=\"0\" w:x=\"1\" w:y=\"-2\" w:w=\"30\" w:h=\"40\" /></w:pPr>"
        )
    );
}

#[test]
fn a_later_setting_keeps_every_earlier_one() {
    let setters: Vec<(&str, fn(NumPages) -> NumPages)> = vec![
        ("w:wrap=\"around\"", |f| f.wrap("around")),
        ("w:vAnchor=\"page\"", |f| f.v_anchor("page")),
        ("w:hAnchor=\"text\"", |f| f.h_anchor("text")),
        ("w:hRule=\"auto\"", |f| f.h_rule("auto")),
        ("w:xAlign=\"center\"", |f| f.x_align("center")),
        ("w:yAlign=\"bottom\"", |f| f.y_align("bottom")),
        ("w:hSpace=\"11\"", |f| f.h_space(11)),
        ("w:vSpace=\"-12\"", |f| f.v_space(-12)),
        ("w:x=\"13\"", |f| f.x(13)),
        ("w:y=\"14\"", |f| f.y(14)),
        ("w:w=\"15\"", |f| f.width(15)),
        ("w:h=\"16\"", |f| f.height(16)),
    ];
    for (i, (first, set_first)) in setters.iter().enumerate() {
        for (j, (second, set_second)) in setters.iter().enumerate() {
            if i == j {
                continue;
            }
            let out = String::from_utf8(set_second(set_first(NumPages::new())).build()).unwrap();
            assert!(out.contains(first), "{} lost after {}", first, second);
            assert!(out.contains(second), "{} missing", second);
            assert_eq!(out.matches("<w:framePr ").count(), 1);
            let aligned = String::from_utf8(
                set_second(set_first(NumPages::new()).align(AlignmentType::Center)).build(),
            )
            .unwrap();
            assert!(aligned.contains(first));
            assert!(aligned.contains(second));
            assert!(aligned.contains("<w:jc w:val=\"center\" />"));
        }
    }
}

#[test]
fn setting_a_field_again_replaces_its_value() {
    let b = NumPages::new().wrap("none").x(5).wrap("around").build();
    assert_eq!(
        str::from_utf8(&b).unwrap(),
        field(
            "NUMPAGES",
            "<w:pPr><w:rPr></w:rPr><w:framePr w:wrap=\"around\" w:x=\"5\" /></w:pPr>"
        )
    );
}

#[test]
fn unset_fields_leave_no_trace() {
    let out = String::from_utf8(NumPages::new().build()).unwrap();
    assert!(!out.contains("w:framePr"));
    assert!(!out.contains("w:jc"));
    assert!(!out.contains("w:pStyle"));
    let out = String::from_utf8(NumPages::new().x(7).build()).unwrap();
    assert!(out.contains("<w:framePr w:x=\"7\" />"));
    for name in [
        "w:wrap", "w:vAnchor", "w:hAnchor", "w:hRule", "w:xAlign", "w:yAlign", "w:hSpace",
        "w:vSpace", "w:y=", "w:w=", "w:h=",
    ] {
        assert!(!out.contains(name), "{} appears though it was not set", name);
    }
}

#[test]
fn alignment_goes_to_the_paragraph_of_the_field() {
    let b = NumPages::new().align(AlignmentType::Center).build();
    assert_eq!(
        str::from_utf8(&b).unwrap(),
        field("NUMPAGES", "<w:pPr><w:rPr></w:rPr><w:jc w:val=\"center\" /></w:pPr>")
    );
    let b = PageNum::new().align(AlignmentType::Right).wrap("none").build();
    assert_eq!(
        str::from_utf8(&b).unwrap(),
        field(
            "PAGE",
            "<w:pPr><w:rPr></w:rPr><w:framePr w:wrap=\"none\" /><w:jc w:val=\"right\" /></w:pPr>"
        )
    );
}

#[test]
fn frame_of_the_field_replaces_the_frame_of_its_paragraph_properties() {
    let field_with_both = NumPages {
        instr: InstrNUMPAGES::new(),
        frame_property: Some(FrameProperty::new().x(1)),
        paragraph_property: Some(
            ParagraphProperty::new()
                .style("Footer")
                .frame_property(FrameProperty::new().y(2).wrap("none")),
        ),
    };
    assert_eq!(
        str::from_utf8(&field_with_both.build()).unwrap(),
        field(
            "NUMPAGES",
            "<w:pPr><w:pStyle w:val=\"Footer\" /><w:rPr></w:rPr><w:framePr w:x=\"1\" /></w:pPr>"
        )
    );
    let only_paragraph = NumPages {
        instr: InstrNUMPAGES::new(),
        frame_property: None,
        paragraph_property: Some(
            ParagraphProperty::new().frame_property(FrameProperty::new().y(2)),
        ),
    };
    assert_eq!(
        str::from_utf8(&only_paragraph.build()).unwrap(),
        field("NUMPAGES", "<w:pPr><w:rPr></w:rPr><w:framePr w:y=\"2\" /></w:pPr>")
    );
}

#[test]
fn the_run_of_a_field_is_the_same_under_every_configuration() {
    let fields = vec![
        NumPages::new(),
        NumPages::new().wrap("none"),
        NumPages::new().align(AlignmentType::Both),
        NumPages::new().align(AlignmentType::Left).h_space(9).height(1),
        NumPages::new().v_anchor("page").align(AlignmentType::Justified),
    ];
    for f in fields {
        let out = String::from_utf8(f.build()).unwrap();
        assert_eq!(out.matches("<w:r>").count(), 1);
        let start = out.find("<w:r>").unwrap();
        let end = out.find("</w:r>").unwrap() + "</w:r>".len();
        assert_eq!(&out[start..end], RUN);
        assert!(out[end..].starts_with("</w:p></w:sdtContent>\n</w:sdt>"));
    }
}

#[test]
fn a_copy_of_a_field_renders_as_the_field() {
    let f = NumPages::new().wrap("none").align(AlignmentType::End).width(12);
    let copy = f.clone();
    assert_eq!(copy, f);
    assert_eq!(copy.build(), f.build());
}
