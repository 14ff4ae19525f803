//! The closed sets of values that elements take for some of their attributes.

use vstd::prelude::*;

verus! {

/// How the lines of a paragraph are aligned.
#[derive(Clone, Copy, Debug, PartialEq, Eq, Structural)]
pub enum AlignmentType {
    Both,
    Center,
    Distribute,
    Start,
    End,
    Left,
    Right,
    Justified,
}

impl AlignmentType {
    /// The attribute value that stands for the alignment. `Justified` is
    /// written as `both`.
    pub open spec fn text(self) -> Seq<char> {
        match self {
            AlignmentType::Both => "both"@,
            AlignmentType::Center => "center"@,
            AlignmentType::Distribute => "distribute"@,
            AlignmentType::Start => "start"@,
            AlignmentType::End => "end"@,
            AlignmentType::Left => "left"@,
            AlignmentType::Right => "right"@,
            AlignmentType::Justified => "both"@,
        }
    }

    /// The attribute value that stands for the alignment.
    pub fn as_str(&self) -> (s: &'static str)
        ensures
            s@ == self.text(),
    {
        match self {
            AlignmentType::Both => "both",
            AlignmentType::Center => "center",
            AlignmentType::Distribute => "distribute",
            AlignmentType::Start => "start",
            AlignmentType::End => "end",
            AlignmentType::Left => "left",
            AlignmentType::Right => "right",
            AlignmentType::Justified => "both",
        }
    }
}

/// The three markers that delimit a field: before its instruction, between
/// instruction and displayed value, and after the value.
#[derive(Clone, Copy, Debug, PartialEq, Eq, Structural)]
pub enum FieldCharType {
    Begin,
    Separate,
    End,
}

impl FieldCharType {
    /// The attribute value that stands for the marker.
    pub open spec fn text(self) -> Seq<char> {
        match self {
            FieldCharType::Begin => "begin"@,
            FieldCharType::Separate => "separate"@,
            FieldCharType::End => "end"@,
        }
    }

    /// The attribute value that stands for the marker.
    pub fn as_str(&self) -> (s: &'static str)
        ensures
            s@ == self.text(),
    {
        match self {
            FieldCharType::Begin => "begin",
            FieldCharType::Separate => "separate",
            FieldCharType::End => "end",
        }
    }
}

/// The attribute value that stands for a truth value.
pub open spec fn bool_text(b: bool) -> Seq<char> {
    if b {
        "true"@
    } else {
        "false"@
    }
}

/// The attribute value that stands for a truth value.
pub fn bool_str(b: bool) -> (s: &'static str)
    ensures
        s@ == bool_text(b),
{
    if b {
        "true"
    } else {
        "false"
    }
}

} // verus!
