//! The field that shows the number of the current page.

use crate::documents::elements::field_code::{
    frame_or_default, property_or_default, property_view, render, FieldCodeView,
};
use crate::documents::elements::frame_property::{FrameField, FrameProperty};
use crate::documents::elements::instr_text::{InstrPAGE, InstrText};
use crate::documents::elements::paragraph_property::{frame_view, ParagraphProperty};
use crate::markup::{xml_bytes, BuildXML, Token};
use crate::types::AlignmentType;
use vstd::prelude::*;

verus! {

/// The field that shows the number of the current page. Its frame property and its paragraph
/// properties are not set until a field of them is set.
#[derive(Debug, PartialEq)]
pub struct PageNum {
    pub instr: InstrPAGE,
    pub frame_property: Option<FrameProperty>,
    pub paragraph_property: Option<ParagraphProperty>,
}

impl View for PageNum {
    type V = FieldCodeView;

    open spec fn view(&self) -> FieldCodeView {
        FieldCodeView {
            instr: InstrText::PAGE(self.instr),
            frame_property: frame_view(self.frame_property),
            paragraph_property: property_view(self.paragraph_property),
        }
    }
}

impl Default for PageNum {
    fn default() -> (field: PageNum)
        ensures
            field@ == FieldCodeView::plain(InstrText::PAGE(InstrPAGE {  })),
    {
        PageNum { instr: InstrPAGE {  }, frame_property: None, paragraph_property: None }
    }
}

impl Clone for PageNum {
    fn clone(&self) -> (field: PageNum)
        ensures
            field == *self,
    {
        PageNum {
            instr: self.instr,
            frame_property: match &self.frame_property {
                Some(f) => Some(f.clone()),
                None => None,
            },
            paragraph_property: match &self.paragraph_property {
                Some(p) => Some(p.clone()),
                None => None,
            },
        }
    }
}

impl PageNum {
    /// The field with nothing set.
    pub fn new() -> (field: PageNum)
        ensures
            field@ == FieldCodeView::plain(InstrText::PAGE(InstrPAGE {  })),
    {
        Self::default()
    }

    /// Sets how text wraps around the frame. Every other field of the frame
    /// property, and the paragraph properties, stay as they are.
    pub fn wrap(self, wrap: &str) -> (field: PageNum)
        ensures
            field@ == self@.with_frame(FrameField::Wrap(wrap@)),
    {
        let PageNum { instr, frame_property, paragraph_property } = self;
        PageNum {
            instr,
            frame_property: Some(frame_or_default(frame_property).wrap(wrap)),
            paragraph_property,
        }
    }

    /// Sets what the vertical position of the frame is relative to.
    /// Every other field of the frame property, and the paragraph
    /// properties, stay as they are.
    pub fn v_anchor(self, anchor: &str) -> (field: PageNum)
        ensures
            field@ == self@.with_frame(FrameField::VAnchor(anchor@)),
    {
        let PageNum { instr, frame_property, paragraph_property } = self;
        PageNum {
            instr,
            frame_property: Some(frame_or_default(frame_property).v_anchor(anchor)),
            paragraph_property,
        }
    }

    /// Sets what the horizontal position of the frame is relative to.
    /// Every other field of the frame property, and the paragraph
    /// properties, stay as they are.
    pub fn h_anchor(self, anchor: &str) -> (field: PageNum)
        ensures
            field@ == self@.with_frame(FrameField::HAnchor(anchor@)),
    {
        let PageNum { instr, frame_property, paragraph_property } = self;
        PageNum {
            instr,
            frame_property: Some(frame_or_default(frame_property).h_anchor(anchor)),
            paragraph_property,
        }
    }

    /// Sets the rule for the height of the frame. Every other field of the frame
    /// property, and the paragraph properties, stay as they are.
    pub fn h_rule(self, r: &str) -> (field: PageNum)
        ensures
            field@ == self@.with_frame(FrameField::HRule(r@)),
    {
        let PageNum { instr, frame_property, paragraph_property } = self;
        PageNum {
            instr,
            frame_property: Some(frame_or_default(frame_property).h_rule(r)),
            paragraph_property,
        }
    }

    /// Sets the horizontal alignment of the frame. Every other field of the frame
    /// property, and the paragraph properties, stay as they are.
    pub fn x_align(self, align: &str) -> (field: PageNum)
        ensures
            field@ == self@.with_frame(FrameField::XAlign(align@)),
    {
        let PageNum { instr, frame_property, paragraph_property } = self;
        PageNum {
            instr,
            frame_property: Some(frame_or_default(frame_property).x_align(align)),
            paragraph_property,
        }
    }

    /// Sets the vertical alignment of the frame. Every other field of the frame
    /// property, and the paragraph properties, stay as they are.
    pub fn y_align(self, align: &str) -> (field: PageNum)
        ensures
            field@ == self@.with_frame(FrameField::YAlign(align@)),
    {
        let PageNum { instr, frame_property, paragraph_property } = self;
        PageNum {
            instr,
            frame_property: Some(frame_or_default(frame_property).y_align(align)),
            paragraph_property,
        }
    }

    /// Sets the horizontal distance of the frame from the text around it.
    /// Every other field of the frame property, and the paragraph
    /// properties, stay as they are.
    pub fn h_space(self, x: i32) -> (field: PageNum)
        ensures
            field@ == self@.with_frame(FrameField::HSpace(x)),
    {
        let PageNum { instr, frame_property, paragraph_property } = self;
        PageNum {
            instr,
            frame_property: Some(frame_or_default(frame_property).h_space(x)),
            paragraph_property,
        }
    }

    /// Sets the vertical distance of the frame from the text around it.
    /// Every other field of the frame property, and the paragraph
    /// properties, stay as they are.
    pub fn v_space(self, x: i32) -> (field: PageNum)
        ensures
            field@ == self@.with_frame(FrameField::VSpace(x)),
    {
        let PageNum { instr, frame_property, paragraph_property } = self;
        PageNum {
            instr,
            frame_property: Some(frame_or_default(frame_property).v_space(x)),
            paragraph_property,
        }
    }

    /// Sets the horizontal position of the frame. Every other field of the frame
    /// property, and the paragraph properties, stay as they are.
    pub fn x(self, x: i32) -> (field: PageNum)
        ensures
            field@ == self@.with_frame(FrameField::X(x)),
    {
        let PageNum { instr, frame_property, paragraph_property } = self;
        PageNum {
            instr,
            frame_property: Some(frame_or_default(frame_property).x(x)),
            paragraph_property,
        }
    }

    /// Sets the vertical position of the frame. Every other field of the frame
    /// property, and the paragraph properties, stay as they are.
    pub fn y(self, y: i32) -> (field: PageNum)
        ensures
            field@ == self@.with_frame(FrameField::Y(y)),
    {
        let PageNum { instr, frame_property, paragraph_property } = self;
        PageNum {
            instr,
            frame_property: Some(frame_or_default(frame_property).y(y)),
            paragraph_property,
        }
    }

    /// Sets the width of the frame. Every other field of the frame
    /// property, and the paragraph properties, stay as they are.
    pub fn width(self, n: u32) -> (field: PageNum)
        ensures
            field@ == self@.with_frame(FrameField::W(n)),
    {
        let PageNum { instr, frame_property, paragraph_property } = self;
        PageNum {
            instr,
            frame_property: Some(frame_or_default(frame_property).width(n)),
            paragraph_property,
        }
    }

    /// Sets the height of the frame. Every other field of the frame
    /// property, and the paragraph properties, stay as they are.
    pub fn height(self, n: u32) -> (field: PageNum)
        ensures
            field@ == self@.with_frame(FrameField::H(n)),
    {
        let PageNum { instr, frame_property, paragraph_property } = self;
        PageNum {
            instr,
            frame_property: Some(frame_or_default(frame_property).height(n)),
            paragraph_property,
        }
    }

    /// Sets the alignment of the paragraph around the field. The other
    /// paragraph properties, and the frame property, stay as they are.
    pub fn align(self, alignment_type: AlignmentType) -> (field: PageNum)
        ensures
            field@ == self@.with_alignment(alignment_type),
    {
        let PageNum { instr, frame_property, paragraph_property } = self;
        PageNum {
            instr,
            frame_property,
            paragraph_property: Some(property_or_default(paragraph_property).align(alignment_type)),
        }
    }

    /// Renders the field: the structured tag around the paragraph of the field.
    fn inner_build(&self) -> (bytes: Vec<u8>)
        ensures
            bytes@ == xml_bytes(self@.tokens()),
    {
        render(InstrText::PAGE(self.instr), &self.frame_property, &self.paragraph_property)
    }
}

impl BuildXML for PageNum {
    open spec fn tokens(&self) -> Seq<Token> {
        self@.tokens()
    }

    proof fn lemma_balanced(&self) {
        self@.lemma_balanced();
    }

    fn build(&self) -> (bytes: Vec<u8>) {
        self.inner_build()
    }
}

impl BuildXML for Box<PageNum> {
    open spec fn tokens(&self) -> Seq<Token> {
        (**self)@.tokens()
    }

    proof fn lemma_balanced(&self) {
        (**self)@.lemma_balanced();
    }

    fn build(&self) -> (bytes: Vec<u8>) {
        self.inner_build()
    }
}

} // verus!
