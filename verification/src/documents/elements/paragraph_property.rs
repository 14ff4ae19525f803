//! The property object of a paragraph.

use crate::documents::elements::frame_property::{FrameProperty, FramePropertyView};
use crate::documents::elements::justification::Justification;
use crate::documents::elements::paragraph_style::{ParagraphStyle, ParagraphStyleView};
use crate::documents::elements::run_property::RunProperty;
use crate::markup::{
    balanced, has_element, lemma_balanced_concat, lemma_balanced_element, lemma_balanced_leaf,
    lemma_has_element_concat, lemma_has_element_none, lemma_has_element_one,
    lemma_occurs_between, lemma_property_has_element, occurs, BuildXML, Token,
};
use crate::types::AlignmentType;
use crate::xml_builder::XMLBuilder;
use vstd::prelude::*;

verus! {

/// The properties of a paragraph. The style, the frame and the alignment are
/// each set or not set on their own; the properties of the paragraph mark
/// are always there.
#[derive(Debug, PartialEq)]
pub struct ParagraphProperty {
    pub run_property: RunProperty,
    pub style: Option<ParagraphStyle>,
    pub frame_property: Option<FrameProperty>,
    pub alignment: Option<Justification>,
}

/// The properties of a paragraph, as a value.
pub struct ParagraphPropertyView {
    pub run_property: RunProperty,
    pub style: Option<ParagraphStyleView>,
    pub frame_property: Option<FramePropertyView>,
    pub alignment: Option<Justification>,
}

/// The value of a style that may be absent.
pub open spec fn style_view(style: Option<ParagraphStyle>) -> Option<ParagraphStyleView> {
    match style {
        Some(s) => Some(s@),
        None => None,
    }
}

/// The value of a frame property that may be absent.
pub open spec fn frame_view(frame: Option<FrameProperty>) -> Option<FramePropertyView> {
    match frame {
        Some(f) => Some(f@),
        None => None,
    }
}

impl View for ParagraphProperty {
    type V = ParagraphPropertyView;

    open spec fn view(&self) -> ParagraphPropertyView {
        ParagraphPropertyView {
            run_property: self.run_property,
            style: style_view(self.style),
            frame_property: frame_view(self.frame_property),
            alignment: self.alignment,
        }
    }
}

/// The parts of a paragraph's properties that are set or not set on their own.
pub enum ParagraphPart {
    Style,
    Frame,
    Alignment,
}

impl ParagraphPart {
    /// The name of the element that renders the part.
    pub open spec fn element_name(self) -> Seq<char> {
        match self {
            ParagraphPart::Style => "w:pStyle"@,
            ParagraphPart::Frame => "w:framePr"@,
            ParagraphPart::Alignment => "w:jc"@,
        }
    }
}

/// One part of a paragraph's properties together with a value for it.
pub enum ParagraphField {
    Style(Seq<char>),
    Frame(FramePropertyView),
    Alignment(AlignmentType),
}

impl ParagraphField {
    /// The part that the value is for.
    pub open spec fn part(self) -> ParagraphPart {
        match self {
            ParagraphField::Style(_) => ParagraphPart::Style,
            ParagraphField::Frame(_) => ParagraphPart::Frame,
            ParagraphField::Alignment(_) => ParagraphPart::Alignment,
        }
    }

    /// The markup that renders the value.
    pub open spec fn tokens(self) -> Seq<Token> {
        match self {
            ParagraphField::Style(val) => (ParagraphStyleView { val }).tokens(),
            ParagraphField::Frame(frame) => frame.tokens(),
            ParagraphField::Alignment(val) => (Justification { val }).tokens(),
        }
    }
}

impl ParagraphPropertyView {
    /// The properties with one part set to a value and every other part as it was.
    pub open spec fn with(self, field: ParagraphField) -> ParagraphPropertyView {
        match field {
            ParagraphField::Style(val) => ParagraphPropertyView {
                style: Some(ParagraphStyleView { val }),
                ..self
            },
            ParagraphField::Frame(frame) => ParagraphPropertyView {
                frame_property: Some(frame),
                ..self
            },
            ParagraphField::Alignment(val) => ParagraphPropertyView {
                alignment: Some(Justification { val }),
                ..self
            },
        }
    }

    /// The markup that renders a part, where the part is set.
    pub open spec fn rendered(self, part: ParagraphPart) -> Option<Seq<Token>> {
        match part {
            ParagraphPart::Style => match self.style {
                Some(s) => Some(s.tokens()),
                None => None,
            },
            ParagraphPart::Frame => match self.frame_property {
                Some(f) => Some(f.tokens()),
                None => None,
            },
            ParagraphPart::Alignment => match self.alignment {
                Some(a) => Some(a.tokens()),
                None => None,
            },
        }
    }

    /// The properties with nothing set.
    pub open spec fn empty() -> ParagraphPropertyView {
        ParagraphPropertyView {
            run_property: RunProperty {  },
            style: None,
            frame_property: None,
            alignment: None,
        }
    }

    /// The markup of the style, where one is set.
    pub open spec fn style_tokens(self) -> Seq<Token> {
        match self.style {
            Some(s) => s.tokens(),
            None => Seq::empty(),
        }
    }

    /// The markup of the frame property, where one is set.
    pub open spec fn frame_tokens(self) -> Seq<Token> {
        match self.frame_property {
            Some(f) => f.tokens(),
            None => Seq::empty(),
        }
    }

    /// The markup of the alignment, where one is set.
    pub open spec fn alignment_tokens(self) -> Seq<Token> {
        match self.alignment {
            Some(a) => a.tokens(),
            None => Seq::empty(),
        }
    }

    /// What stands between the start tag and the end tag: the style, the
    /// properties of the paragraph mark, the frame, the alignment.
    pub open spec fn content(self) -> Seq<Token> {
        self.style_tokens() + self.run_property.tokens() + self.frame_tokens()
            + self.alignment_tokens()
    }

    /// The markup of the properties. The element is there even where nothing is set.
    pub open spec fn tokens(self) -> Seq<Token> {
        seq![Token::Start { name: "w:pPr"@, attrs: Seq::empty() }] + self.content() + seq![
            Token::End { name: "w:pPr"@ },
        ]
    }

    /// The markup of the properties is balanced.
    pub proof fn lemma_balanced(self)
        ensures
            balanced(self.tokens()),
    {
        assert(balanced(self.style_tokens())) by {
            match self.style {
                Some(s) => lemma_balanced_leaf(s.token()),
                None => {},
            }
        }
        assert(balanced(self.frame_tokens())) by {
            match self.frame_property {
                Some(f) => f.lemma_balanced(),
                None => {},
            }
        }
        assert(balanced(self.alignment_tokens())) by {
            match self.alignment {
                Some(a) => lemma_balanced_leaf(a.token()),
                None => {},
            }
        }
        self.run_property.lemma_balanced();
        lemma_balanced_concat(self.style_tokens(), self.run_property.tokens());
        lemma_balanced_concat(
            self.style_tokens() + self.run_property.tokens(),
            self.frame_tokens(),
        );
        lemma_balanced_concat(
            self.style_tokens() + self.run_property.tokens() + self.frame_tokens(),
            self.alignment_tokens(),
        );
        lemma_balanced_element("w:pPr"@, Seq::empty(), self.content());
    }

    /// The properties are rendered as a start tag and an end tag around their
    /// content, never as an element that closes itself, whatever is set.
    pub proof fn lemma_open_close_pair(self)
        ensures
            self.tokens().first() == (Token::Start { name: "w:pPr"@, attrs: Seq::empty() }),
            self.tokens().last() == (Token::End { name: "w:pPr"@ }),
            self.tokens().len() >= 3,
    {
    }

    /// A part that is set is in the markup with exactly its value, whole and
    /// in one piece; a part that is not set leaves no element in the markup.
    /// The properties of the paragraph mark are always in the markup.
    pub proof fn lemma_optional_parts(self, part: ParagraphPart)
        ensures
            has_element(self.tokens(), part.element_name()) <==> self.rendered(part) is Some,
            self.rendered(part) matches Some(markup) ==> occurs(self.tokens(), markup),
            has_element(self.tokens(), "w:rPr"@),
            occurs(self.tokens(), self.run_property.tokens()),
    {
        reveal_strlit("w:pPr");
        reveal_strlit("w:pStyle");
        reveal_strlit("w:rPr");
        reveal_strlit("w:framePr");
        reveal_strlit("w:jc");
        assert("w:pPr"@.len() == 5 && "w:pStyle"@.len() == 8 && "w:rPr"@.len() == 5
            && "w:framePr"@.len() == 9 && "w:jc"@.len() == 4);
        assert("w:pPr"@[2] == 'p' && "w:rPr"@[2] == 'r');
        self.lemma_parts_of(part.element_name());
        self.lemma_parts_of("w:rPr"@);
        self.lemma_parts_occur();
    }

    /// Each of the four parts of the content stands in the markup, whole and
    /// in one piece.
    proof fn lemma_parts_occur(self)
        ensures
            occurs(self.tokens(), self.style_tokens()),
            occurs(self.tokens(), self.run_property.tokens()),
            occurs(self.tokens(), self.frame_tokens()),
            occurs(self.tokens(), self.alignment_tokens()),
    {
        let start = seq![Token::Start { name: "w:pPr"@, attrs: Seq::empty() }];
        let end = seq![Token::End { name: "w:pPr"@ }];
        let style = self.style_tokens();
        let mark = self.run_property.tokens();
        let frame = self.frame_tokens();
        let alignment = self.alignment_tokens();
        let tokens = self.tokens();
        assert(tokens == start + (style + mark + frame + alignment) + end);
        assert(occurs(tokens, style)) by {
            assert(tokens =~= start + style + (mark + frame + alignment + end));
            lemma_occurs_between(start, style, mark + frame + alignment + end);
        }
        assert(occurs(tokens, mark)) by {
            assert(tokens =~= (start + style) + mark + (frame + alignment + end));
            lemma_occurs_between(start + style, mark, frame + alignment + end);
        }
        assert(occurs(tokens, frame)) by {
            assert(tokens =~= (start + style + mark) + frame + (alignment + end));
            lemma_occurs_between(start + style + mark, frame, alignment + end);
        }
        assert(occurs(tokens, alignment)) by {
            assert(tokens =~= (start + style + mark + frame) + alignment + end);
            lemma_occurs_between(start + style + mark + frame, alignment, end);
        }
    }

    /// Setting a part gives that part its value and leaves every other part as it was.
    pub proof fn lemma_with(self, field: ParagraphField, part: ParagraphPart)
        ensures
            self.with(field).rendered(part) == if part == field.part() {
                Some(field.tokens())
            } else {
                self.rendered(part)
            },
            self.with(field).run_property == self.run_property,
    {
    }

    /// Setting one part and then another keeps the value of the first: both
    /// are in the markup, each as the markup of the value it was given.
    pub proof fn lemma_merge(self, first: ParagraphField, second: ParagraphField)
        requires
            first.part() != second.part(),
        ensures
            occurs(self.with(first).with(second).tokens(), first.tokens()),
            occurs(self.with(first).with(second).tokens(), second.tokens()),
    {
        let merged = self.with(first).with(second);
        self.with(first).lemma_with(second, first.part());
        self.with(first).lemma_with(second, second.part());
        self.lemma_with(first, first.part());
        merged.lemma_optional_parts(first.part());
        merged.lemma_optional_parts(second.part());
    }

    /// An element is in the markup where it is the properties' own element or
    /// the element of one of the parts.
    proof fn lemma_parts_of(self, name: Seq<char>)
        ensures
            has_element(self.tokens(), name) <==> (name == "w:pPr"@ || (self.style is Some && name
                == "w:pStyle"@) || name == "w:rPr"@ || (self.frame_property is Some && name
                == "w:framePr"@) || (self.alignment is Some && name == "w:jc"@)),
    {
        let start = Token::Start { name: "w:pPr"@, attrs: Seq::empty() };
        let end = Token::End { name: "w:pPr"@ };
        lemma_has_element_concat(seq![start] + self.content(), seq![end], name);
        lemma_has_element_concat(seq![start], self.content(), name);
        lemma_has_element_one(start, name);
        lemma_has_element_one(end, name);
        lemma_has_element_concat(
            self.style_tokens() + self.run_property.tokens() + self.frame_tokens(),
            self.alignment_tokens(),
            name,
        );
        lemma_has_element_concat(
            self.style_tokens() + self.run_property.tokens(),
            self.frame_tokens(),
            name,
        );
        lemma_has_element_concat(self.style_tokens(), self.run_property.tokens(), name);
        lemma_has_element_none(name);
        lemma_property_has_element("w:rPr"@, Seq::empty(), name);
        match self.style {
            Some(s) => lemma_has_element_one(s.token(), name),
            None => {},
        }
        match self.frame_property {
            Some(f) => lemma_property_has_element("w:framePr"@, f.attrs(), name),
            None => {},
        }
        match self.alignment {
            Some(a) => lemma_has_element_one(a.token(), name),
            None => {},
        }
    }
}

impl ParagraphProperty {
    /// The properties with nothing set.
    pub fn new() -> (p: ParagraphProperty)
        ensures
            p@ == ParagraphPropertyView::empty(),
    {
        ParagraphProperty {
            run_property: RunProperty::new(),
            style: None,
            frame_property: None,
            alignment: None,
        }
    }

    /// Sets the alignment; the style and the frame stay as they are.
    pub fn align(self, alignment_type: AlignmentType) -> (p: ParagraphProperty)
        ensures
            p@ == self@.with(ParagraphField::Alignment(alignment_type)),
    {
        ParagraphProperty { alignment: Some(Justification::new(alignment_type)), ..self }
    }

    /// Sets the style; the frame and the alignment stay as they are.
    pub fn style(self, style_id: &str) -> (p: ParagraphProperty)
        ensures
            p@ == self@.with(ParagraphField::Style(style_id@)),
    {
        ParagraphProperty { style: Some(ParagraphStyle::new(style_id)), ..self }
    }

    /// Sets the frame as a whole; the style and the alignment stay as they are.
    pub fn frame_property(self, frame: FrameProperty) -> (p: ParagraphProperty)
        ensures
            p@ == self@.with(ParagraphField::Frame(frame@)),
    {
        ParagraphProperty { frame_property: Some(frame), ..self }
    }
}

impl Default for ParagraphProperty {
    fn default() -> (p: ParagraphProperty)
        ensures
            p@ == ParagraphPropertyView::empty(),
    {
        ParagraphProperty::new()
    }
}

impl Clone for ParagraphProperty {
    fn clone(&self) -> (p: ParagraphProperty)
        ensures
            p == *self,
    {
        ParagraphProperty {
            run_property: self.run_property,
            style: match &self.style {
                Some(s) => Some(s.clone()),
                None => None,
            },
            frame_property: match &self.frame_property {
                Some(f) => Some(f.clone()),
                None => None,
            },
            alignment: self.alignment,
        }
    }
}

impl BuildXML for ParagraphProperty {
    open spec fn tokens(&self) -> Seq<Token> {
        self@.tokens()
    }

    proof fn lemma_balanced(&self) {
        self@.lemma_balanced();
    }

    fn build(&self) -> (bytes: Vec<u8>) {
        let b = XMLBuilder::new().open("w:pPr").add_optional_child(&self.style).add_child(
            &self.run_property,
        ).add_optional_child(&self.frame_property).add_optional_child(
            &self.alignment,
        ).close_property();
        proof {
            assert(b@.tokens =~= self.tokens());
        }
        b.build()
    }
}

} // verus!
