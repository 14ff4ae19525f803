//! What the field elements have in common: a structured tag around one
//! paragraph, which holds one run with the markers, the instruction and the
//! displayed value of the field.
//!
//! The displayed value is always `1`: a viewer computes the real value when
//! it opens the document.

use crate::documents::elements::field_char::FieldChar;
use crate::documents::elements::frame_property::{
    FrameField, FrameKey, FrameProperty, FramePropertyView,
};
use crate::documents::elements::instr_text::InstrText;
use crate::documents::elements::justification::Justification;
use crate::documents::elements::paragraph::{Paragraph, ParagraphView};
use crate::documents::elements::paragraph_property::{
    frame_view, ParagraphField, ParagraphPart, ParagraphProperty, ParagraphPropertyView,
};
use crate::documents::elements::run::{Run, RunChildView, RunView};
use crate::documents::elements::run_property::RunProperty;
use crate::documents::elements::structured_data_tag_property::StructuredDataTagProperty;
use crate::documents::elements::text::TextView;
use crate::markup::{
    attr_value, balanced, flatten, has_element, occurs, lemma_balanced_concat, lemma_balanced_element,
    lemma_balanced_leaf, xml_bytes, Attr, BuildXML, Token,
};
use crate::types::{AlignmentType, FieldCharType};
use crate::xml_builder::XMLBuilder;
use vstd::prelude::*;

verus! {

/// A field element as a value: the instruction that says which field it is,
/// and the frame and the paragraph properties that were set on it, if any.
pub struct FieldCodeView {
    pub instr: InstrText,
    pub frame_property: Option<FramePropertyView>,
    pub paragraph_property: Option<ParagraphPropertyView>,
}

/// The content of the run of a field with the instruction `instr`: the begin
/// marker, the instruction, the separate marker, the displayed value `1`, the
/// end marker. No marker is dirty.
pub open spec fn field_run_children(instr: InstrText) -> Seq<RunChildView> {
    seq![
        RunChildView::FieldChar(FieldChar { field_char_type: FieldCharType::Begin, dirty: false }),
        RunChildView::InstrText(instr),
        RunChildView::FieldChar(
            FieldChar { field_char_type: FieldCharType::Separate, dirty: false },
        ),
        RunChildView::Text(TextView { text: "1"@, preserve_space: true }),
        RunChildView::FieldChar(FieldChar { field_char_type: FieldCharType::End, dirty: false }),
    ]
}

/// The markup of the run of a field with the instruction `instr`, token by token.
pub open spec fn field_run_tokens(instr: InstrText) -> Seq<Token> {
    seq![
        Token::Start { name: "w:r"@, attrs: Seq::empty() },
        Token::Start { name: "w:rPr"@, attrs: Seq::empty() },
        Token::End { name: "w:rPr"@ },
        FieldChar { field_char_type: FieldCharType::Begin, dirty: false }.token(),
        Token::Start { name: "w:instrText"@, attrs: Seq::empty() },
        Token::Chars { text: instr.code() },
        Token::End { name: "w:instrText"@ },
        FieldChar { field_char_type: FieldCharType::Separate, dirty: false }.token(),
        Token::Start { name: "w:t"@, attrs: seq![Attr { name: "xml:space"@, value: "preserve"@ }] },
        Token::Chars { text: "1"@ },
        Token::End { name: "w:t"@ },
        FieldChar { field_char_type: FieldCharType::End, dirty: false }.token(),
        Token::End { name: "w:r"@ },
    ]
}

impl FieldCodeView {
    /// A field element with nothing set.
    pub open spec fn plain(instr: InstrText) -> FieldCodeView {
        FieldCodeView { instr, frame_property: None, paragraph_property: None }
    }

    /// The frame property of the element, or one with no field set where the
    /// element has none.
    pub open spec fn frame(self) -> FramePropertyView {
        match self.frame_property {
            Some(f) => f,
            None => FramePropertyView::empty(),
        }
    }

    /// The paragraph properties of the element, or ones with nothing set
    /// where the element has none.
    pub open spec fn own_property(self) -> ParagraphPropertyView {
        match self.paragraph_property {
            Some(p) => p,
            None => ParagraphPropertyView::empty(),
        }
    }

    /// The element with one field of its frame property set, and every other
    /// field, and the paragraph properties, as they were.
    pub open spec fn with_frame(self, field: FrameField) -> FieldCodeView {
        FieldCodeView { frame_property: Some(self.frame().with(field)), ..self }
    }

    /// The element with the alignment of its paragraph set, and its frame
    /// property as it was.
    pub open spec fn with_alignment(self, alignment_type: AlignmentType) -> FieldCodeView {
        FieldCodeView {
            paragraph_property: Some(
                self.own_property().with(ParagraphField::Alignment(alignment_type)),
            ),
            ..self
        }
    }

    /// The run of the field. It does not depend on the properties.
    pub open spec fn run(self) -> RunView {
        RunView { run_property: RunProperty {  }, children: field_run_children(self.instr) }
    }

    /// The properties of the paragraph around the field: the paragraph
    /// properties of the element, or empty ones where it has none, with their
    /// frame replaced by the frame property of the element where it has one.
    pub open spec fn property(self) -> ParagraphPropertyView {
        match self.frame_property {
            Some(f) => self.own_property().with(ParagraphField::Frame(f)),
            None => self.own_property(),
        }
    }

    /// The paragraph around the field: one paragraph with one run. It always
    /// carries the same identifier.
    pub open spec fn paragraph(self) -> ParagraphView {
        ParagraphView {
            id: Some("12345678"@),
            property: self.property(),
            children: seq![self.run()],
        }
    }

    /// The markup up to the paragraph: the structured tag, its properties,
    /// and the start of its content.
    pub open spec fn opening(self) -> Seq<Token> {
        seq![Token::Start { name: "w:sdt"@, attrs: Seq::empty() }] + (StructuredDataTagProperty {
            run_property: RunProperty {  },
        }).tokens() + seq![Token::Start { name: "w:sdtContent"@, attrs: Seq::empty() }]
    }

    /// The markup after the paragraph: the end of the content and, on a line
    /// of its own, the end of the structured tag.
    pub open spec fn closing(self) -> Seq<Token> {
        seq![
            Token::End { name: "w:sdtContent"@ },
            Token::Break { depth: 0 },
            Token::End { name: "w:sdt"@ },
        ]
    }

    /// The markup of the field element.
    pub open spec fn tokens(self) -> Seq<Token> {
        self.opening() + self.paragraph().tokens() + self.closing()
    }

    /// The markup of a field element is balanced.
    pub proof fn lemma_balanced(self)
        ensures
            balanced(self.tokens()),
    {
        let property = StructuredDataTagProperty { run_property: RunProperty {  } };
        let content = seq![Token::Start { name: "w:sdtContent"@, attrs: Seq::empty() }]
            + self.paragraph().tokens() + seq![Token::End { name: "w:sdtContent"@ }];
        let line = seq![Token::Break { depth: 0 }];
        self.paragraph().lemma_balanced();
        lemma_balanced_element("w:sdtContent"@, Seq::empty(), self.paragraph().tokens());
        property.lemma_balanced();
        lemma_balanced_concat(property.tokens(), content);
        lemma_balanced_leaf(line[0]);
        lemma_balanced_concat(property.tokens() + content, line);
        lemma_balanced_element("w:sdt"@, Seq::empty(), property.tokens() + content + line);
        assert(self.tokens() =~= seq![Token::Start { name: "w:sdt"@, attrs: Seq::empty() }] + (
        property.tokens() + content + line) + seq![Token::End { name: "w:sdt"@ }]);
    }

    /// Whatever frame and paragraph properties are set, the paragraph of the
    /// field holds one run, and the markup of that run is the begin marker,
    /// the instruction with the code of the field, the separate marker, the
    /// text `1` and the end marker, in this order and with nothing between them.
    pub proof fn lemma_field_run(self)
        ensures
            self.paragraph().children == seq![self.run()],
            self.run().children == field_run_children(self.instr),
            self.run().tokens() == field_run_tokens(self.instr),
            self.tokens() == self.opening() + seq![
                Token::Start { name: "w:p"@, attrs: self.paragraph().attrs() },
            ] + self.property().tokens() + field_run_tokens(self.instr) + seq![
                Token::End { name: "w:p"@ },
            ] + self.closing(),
    {
        let run = self.run();
        let parts = run.parts();
        assert(parts.len() == 5);
        assert(parts.drop_last().drop_last().drop_last().drop_last().drop_last().len() == 0);
        let begin = FieldChar { field_char_type: FieldCharType::Begin, dirty: false };
        let separate = FieldChar { field_char_type: FieldCharType::Separate, dirty: false };
        let end = FieldChar { field_char_type: FieldCharType::End, dirty: false };
        let text = TextView { text: "1"@, preserve_space: true };
        assert(parts[0] == begin.tokens());
        assert(parts[1] == self.instr.tokens());
        assert(parts[2] == separate.tokens());
        assert(parts[3] == text.tokens());
        assert(parts[4] == end.tokens());
        let four = parts.drop_last();
        let three = four.drop_last();
        let two = three.drop_last();
        let one = two.drop_last();
        assert(flatten(one.drop_last()) =~= Seq::empty());
        assert(flatten(one) =~= parts[0]);
        assert(flatten(two) =~= parts[0] + parts[1]);
        assert(flatten(three) =~= parts[0] + parts[1] + parts[2]);
        assert(flatten(four) =~= parts[0] + parts[1] + parts[2] + parts[3]);
        assert(flatten(parts) =~= parts[0] + parts[1] + parts[2] + parts[3]
            + parts[4]);
        assert(run.tokens() =~= field_run_tokens(self.instr));
        let paragraph = self.paragraph();
        assert(paragraph.parts().len() == 1);
        assert(paragraph.parts()[0] == run.tokens());
        assert(flatten(paragraph.parts().drop_last()) =~= Seq::empty());
        assert(flatten(paragraph.parts()) =~= run.tokens());
        assert(self.tokens() =~= self.opening() + seq![
            Token::Start { name: "w:p"@, attrs: self.paragraph().attrs() },
        ] + self.property().tokens() + field_run_tokens(self.instr) + seq![
            Token::End { name: "w:p"@ },
        ] + self.closing());
    }

    /// Two fields of the frame property set one after the other end up in one
    /// frame property, the one that the paragraph of the field renders, each
    /// under its name with the value it was given.
    pub proof fn lemma_frame_merge(self, first: FrameField, second: FrameField)
        requires
            first.key() != second.key(),
        ensures
            self.with_frame(first).with_frame(second).property().frame_tokens() == seq![
                Token::Empty {
                    name: "w:framePr"@,
                    attrs: self.frame().with(first).with(second).attrs(),
                },
            ],
            attr_value(self.frame().with(first).with(second).attrs(), first.key().attr_name())
                == Some(first.value()),
            attr_value(self.frame().with(first).with(second).attrs(), second.key().attr_name())
                == Some(second.value()),
    {
        self.frame().lemma_merge(first, second);
        self.frame().with(first).lemma_with(second, second.key());
        self.frame().with(first).with(second).lemma_set_is_one_element(second.key());
    }

    /// The paragraph of the field renders a frame, an alignment or a style
    /// exactly where one was set on the element: a part that was never set
    /// leaves no element in the markup of the properties, and a frame
    /// property that is set on the element is rendered as it is.
    pub proof fn lemma_parts_rendered(self, part: ParagraphPart)
        ensures
            has_element(self.property().tokens(), part.element_name()) <==> self.property().rendered(
                part,
            ) is Some,
            self.frame_property is None && self.paragraph_property is None
                ==> !has_element(self.property().tokens(), part.element_name()),
            self.frame_property matches Some(f) ==> occurs(self.property().tokens(), f.tokens()),
    {
        self.property().lemma_optional_parts(part);
        self.property().lemma_optional_parts(ParagraphPart::Frame);
    }

    /// Setting a field of the frame property changes neither another field of
    /// it nor the paragraph properties; setting the alignment changes nothing
    /// of the frame property.
    pub proof fn lemma_settings_independent(
        self,
        field: FrameField,
        alignment_type: AlignmentType,
        key: FrameKey,
    )
        requires
            key != field.key(),
        ensures
            self.with_frame(field).frame().rendered(key) == self.frame().rendered(key),
            self.with_frame(field).paragraph_property == self.paragraph_property,
            self.with_alignment(alignment_type).frame_property == self.frame_property,
            self.with_frame(field).with_alignment(alignment_type).property().alignment == Some(
                Justification { val: alignment_type },
            ),
            self.with_alignment(alignment_type).with_frame(field).property().alignment == Some(
                Justification { val: alignment_type },
            ),
            self.with_alignment(alignment_type).with_frame(field).property().frame_property
                == Some(self.frame().with(field)),
    {
        self.frame().lemma_with(field, key);
    }
}

/// The frame property to set a field on: the given one, or one with no field
/// set where none is given.
pub fn frame_or_default(frame: Option<FrameProperty>) -> (f: FrameProperty)
    ensures
        f@ == match frame {
            Some(given) => given@,
            None => FramePropertyView::empty(),
        },
{
    match frame {
        Some(given) => given,
        None => FrameProperty::new(),
    }
}

/// The paragraph properties to set the alignment on: the given ones, or empty
/// ones where none are given.
pub fn property_or_default(property: Option<ParagraphProperty>) -> (p: ParagraphProperty)
    ensures
        p@ == match property {
            Some(given) => given@,
            None => ParagraphPropertyView::empty(),
        },
{
    match property {
        Some(given) => given,
        None => ParagraphProperty::new(),
    }
}

/// Renders a field element: a structured tag with its properties, and inside
/// its content one paragraph with the run of the field. The paragraph takes
/// the paragraph properties of the element, and in them the frame property of
/// the element in place of their own, where these are set.
pub fn render(
    instr: InstrText,
    frame_property: &Option<FrameProperty>,
    paragraph_property: &Option<ParagraphProperty>,
) -> (bytes: Vec<u8>)
    ensures
        bytes@ == xml_bytes(
            (FieldCodeView {
                instr,
                frame_property: frame_view(
                    *frame_property,
                ),
                paragraph_property: property_view(*paragraph_property),
            }).tokens(),
        ),
{
    let ghost field = FieldCodeView {
        instr,
        frame_property: frame_view(*frame_property),
        paragraph_property: property_view(*paragraph_property),
    };
    let p = StructuredDataTagProperty::new();
    let b = XMLBuilder::new().open("w:sdt").add_child(&p).open("w:sdtContent");

    let run = Run::new().add_field_char(FieldCharType::Begin, false).add_instr_text(
        instr,
    ).add_field_char(FieldCharType::Separate, false).add_text("1").add_field_char(
        FieldCharType::End,
        false,
    );
    proof {
        assert(run@.children =~= field_run_children(instr));
    }
    let mut property = match paragraph_property {
        Some(pr) => pr.clone(),
        None => ParagraphProperty::new(),
    };
    if let Some(f) = frame_property {
        property = property.frame_property(f.clone());
    }
    let paragraph = Paragraph::new().id("12345678").property(property).add_run(run);
    proof {
        assert(paragraph@.children =~= seq![field.run()]);
        assert(paragraph@ == field.paragraph());
    }

    let b = b.add_child(&paragraph).close().close();
    proof {
        assert(b@.tokens =~= field.tokens());
    }
    b.build()
}

/// The value of paragraph properties that may be absent.
pub open spec fn property_view(property: Option<ParagraphProperty>) -> Option<
    ParagraphPropertyView,
> {
    match property {
        Some(p) => Some(p@),
        None => None,
    }
}

} // verus!
