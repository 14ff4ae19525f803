//! The frame property: where a paragraph floats on the page.

use crate::decimal::{decimal, decimal_string};
use crate::markup::{
    attr_value, balanced, lemma_property_balanced, property_tokens, Attr, BuildXML, Token,
};
use crate::xml_builder::{BuilderView, XMLBuilder};
use vstd::prelude::*;

verus! {

/// The position of a floating paragraph. Each field is set or not set on its
/// own; a field that is not set leaves no trace in the markup. The element
/// itself is always rendered.
#[derive(Debug, PartialEq)]
pub struct FrameProperty {
    pub wrap: Option<String>,
    pub v_anchor: Option<String>,
    pub h_anchor: Option<String>,
    pub h_rule: Option<String>,
    pub x_align: Option<String>,
    pub y_align: Option<String>,
    pub h_space: Option<i32>,
    pub v_space: Option<i32>,
    pub x: Option<i32>,
    pub y: Option<i32>,
    pub w: Option<u32>,
    pub h: Option<u32>,
}

/// A frame property as a value.
pub struct FramePropertyView {
    pub wrap: Option<Seq<char>>,
    pub v_anchor: Option<Seq<char>>,
    pub h_anchor: Option<Seq<char>>,
    pub h_rule: Option<Seq<char>>,
    pub x_align: Option<Seq<char>>,
    pub y_align: Option<Seq<char>>,
    pub h_space: Option<i32>,
    pub v_space: Option<i32>,
    pub x: Option<i32>,
    pub y: Option<i32>,
    pub w: Option<u32>,
    pub h: Option<u32>,
}

/// The characters of a text that may be absent.
pub open spec fn text_view(text: Option<String>) -> Option<Seq<char>> {
    match text {
        Some(s) => Some(s@),
        None => None,
    }
}

impl View for FrameProperty {
    type V = FramePropertyView;

    open spec fn view(&self) -> FramePropertyView {
        FramePropertyView {
            wrap: text_view(self.wrap),
            v_anchor: text_view(self.v_anchor),
            h_anchor: text_view(self.h_anchor),
            h_rule: text_view(self.h_rule),
            x_align: text_view(self.x_align),
            y_align: text_view(self.y_align),
            h_space: self.h_space,
            v_space: self.v_space,
            x: self.x,
            y: self.y,
            w: self.w,
            h: self.h,
        }
    }
}

/// The fields of a frame property.
pub enum FrameKey {
    Wrap,
    VAnchor,
    HAnchor,
    HRule,
    XAlign,
    YAlign,
    HSpace,
    VSpace,
    X,
    Y,
    W,
    H,
}

/// The fields of a frame property, in the order in which they are rendered.
pub open spec fn frame_keys() -> Seq<FrameKey> {
    seq![
        FrameKey::Wrap,
        FrameKey::VAnchor,
        FrameKey::HAnchor,
        FrameKey::HRule,
        FrameKey::XAlign,
        FrameKey::YAlign,
        FrameKey::HSpace,
        FrameKey::VSpace,
        FrameKey::X,
        FrameKey::Y,
        FrameKey::W,
        FrameKey::H,
    ]
}

impl FrameKey {
    /// The name of the attribute that renders the field.
    pub open spec fn attr_name(self) -> Seq<char> {
        match self {
            FrameKey::Wrap => "w:wrap"@,
            FrameKey::VAnchor => "w:vAnchor"@,
            FrameKey::HAnchor => "w:hAnchor"@,
            FrameKey::HRule => "w:hRule"@,
            FrameKey::XAlign => "w:xAlign"@,
            FrameKey::YAlign => "w:yAlign"@,
            FrameKey::HSpace => "w:hSpace"@,
            FrameKey::VSpace => "w:vSpace"@,
            FrameKey::X => "w:x"@,
            FrameKey::Y => "w:y"@,
            FrameKey::W => "w:w"@,
            FrameKey::H => "w:h"@,
        }
    }

    /// The place of the field in the order of rendering.
    pub open spec fn index(self) -> int {
        match self {
            FrameKey::Wrap => 0,
            FrameKey::VAnchor => 1,
            FrameKey::HAnchor => 2,
            FrameKey::HRule => 3,
            FrameKey::XAlign => 4,
            FrameKey::YAlign => 5,
            FrameKey::HSpace => 6,
            FrameKey::VSpace => 7,
            FrameKey::X => 8,
            FrameKey::Y => 9,
            FrameKey::W => 10,
            FrameKey::H => 11,
        }
    }

    /// Every field has its place in the order of rendering, and only one.
    pub proof fn lemma_index(self)
        ensures
            0 <= self.index() < frame_keys().len(),
            frame_keys().len() == 12,
            frame_keys()[self.index()] == self,
    {
    }

    /// The field in place `i` of the order of rendering has `i` as its place.
    pub proof fn lemma_key_at(i: int)
        requires
            0 <= i < 12,
        ensures
            frame_keys()[i].index() == i,
    {
        if i < 4 {
            assert(frame_keys()[0] == FrameKey::Wrap);
            assert(frame_keys()[1] == FrameKey::VAnchor);
            assert(frame_keys()[2] == FrameKey::HAnchor);
            assert(frame_keys()[3] == FrameKey::HRule);
        } else if i < 8 {
            assert(frame_keys()[4] == FrameKey::XAlign);
            assert(frame_keys()[5] == FrameKey::YAlign);
            assert(frame_keys()[6] == FrameKey::HSpace);
            assert(frame_keys()[7] == FrameKey::VSpace);
        } else {
            assert(frame_keys()[8] == FrameKey::X);
            assert(frame_keys()[9] == FrameKey::Y);
            assert(frame_keys()[10] == FrameKey::W);
            assert(frame_keys()[11] == FrameKey::H);
        }
    }

    /// Different fields are rendered under different names.
    pub proof fn lemma_names_differ(self, other: FrameKey)
        requires
            self != other,
        ensures
            self.attr_name() != other.attr_name(),
    {
        reveal_strlit("w:wrap");
        reveal_strlit("w:vAnchor");
        reveal_strlit("w:hAnchor");
        reveal_strlit("w:hRule");
        reveal_strlit("w:xAlign");
        reveal_strlit("w:yAlign");
        reveal_strlit("w:hSpace");
        reveal_strlit("w:vSpace");
        reveal_strlit("w:x");
        reveal_strlit("w:y");
        reveal_strlit("w:w");
        reveal_strlit("w:h");
        let a = self.attr_name();
        let b = other.attr_name();
        if a.len() == b.len() {
            assert(a[2] != b[2]);
        }
    }
}

/// One field of a frame property together with a value for it.
pub enum FrameField {
    Wrap(Seq<char>),
    VAnchor(Seq<char>),
    HAnchor(Seq<char>),
    HRule(Seq<char>),
    XAlign(Seq<char>),
    YAlign(Seq<char>),
    HSpace(i32),
    VSpace(i32),
    X(i32),
    Y(i32),
    W(u32),
    H(u32),
}

impl FrameField {
    /// The field that the value is for.
    pub open spec fn key(self) -> FrameKey {
        match self {
            FrameField::Wrap(_) => FrameKey::Wrap,
            FrameField::VAnchor(_) => FrameKey::VAnchor,
            FrameField::HAnchor(_) => FrameKey::HAnchor,
            FrameField::HRule(_) => FrameKey::HRule,
            FrameField::XAlign(_) => FrameKey::XAlign,
            FrameField::YAlign(_) => FrameKey::YAlign,
            FrameField::HSpace(_) => FrameKey::HSpace,
            FrameField::VSpace(_) => FrameKey::VSpace,
            FrameField::X(_) => FrameKey::X,
            FrameField::Y(_) => FrameKey::Y,
            FrameField::W(_) => FrameKey::W,
            FrameField::H(_) => FrameKey::H,
        }
    }

    /// The attribute value that renders the value: a text as it is, a number
    /// in decimal notation.
    pub open spec fn value(self) -> Seq<char> {
        match self {
            FrameField::Wrap(v) => v,
            FrameField::VAnchor(v) => v,
            FrameField::HAnchor(v) => v,
            FrameField::HRule(v) => v,
            FrameField::XAlign(v) => v,
            FrameField::YAlign(v) => v,
            FrameField::HSpace(v) => decimal(v as int),
            FrameField::VSpace(v) => decimal(v as int),
            FrameField::X(v) => decimal(v as int),
            FrameField::Y(v) => decimal(v as int),
            FrameField::W(v) => decimal(v as int),
            FrameField::H(v) => decimal(v as int),
        }
    }
}

/// The decimal notation of a number that may be absent.
pub open spec fn signed_text(n: Option<i32>) -> Option<Seq<char>> {
    match n {
        Some(v) => Some(decimal(v as int)),
        None => None,
    }
}

/// The decimal notation of a number that may be absent.
pub open spec fn unsigned_text(n: Option<u32>) -> Option<Seq<char>> {
    match n {
        Some(v) => Some(decimal(v as int)),
        None => None,
    }
}

impl FramePropertyView {
    /// The frame property with no field set.
    pub open spec fn empty() -> FramePropertyView {
        FramePropertyView {
            wrap: None,
            v_anchor: None,
            h_anchor: None,
            h_rule: None,
            x_align: None,
            y_align: None,
            h_space: None,
            v_space: None,
            x: None,
            y: None,
            w: None,
            h: None,
        }
    }

    /// The attribute value of a field, where the field is set.
    pub open spec fn rendered(self, key: FrameKey) -> Option<Seq<char>> {
        match key {
            FrameKey::Wrap => self.wrap,
            FrameKey::VAnchor => self.v_anchor,
            FrameKey::HAnchor => self.h_anchor,
            FrameKey::HRule => self.h_rule,
            FrameKey::XAlign => self.x_align,
            FrameKey::YAlign => self.y_align,
            FrameKey::HSpace => signed_text(self.h_space),
            FrameKey::VSpace => signed_text(self.v_space),
            FrameKey::X => signed_text(self.x),
            FrameKey::Y => signed_text(self.y),
            FrameKey::W => unsigned_text(self.w),
            FrameKey::H => unsigned_text(self.h),
        }
    }

    /// The frame property with one field set to a value and every other field as it was.
    pub open spec fn with(self, field: FrameField) -> FramePropertyView {
        match field {
            FrameField::Wrap(v) => FramePropertyView { wrap: Some(v), ..self },
            FrameField::VAnchor(v) => FramePropertyView { v_anchor: Some(v), ..self },
            FrameField::HAnchor(v) => FramePropertyView { h_anchor: Some(v), ..self },
            FrameField::HRule(v) => FramePropertyView { h_rule: Some(v), ..self },
            FrameField::XAlign(v) => FramePropertyView { x_align: Some(v), ..self },
            FrameField::YAlign(v) => FramePropertyView { y_align: Some(v), ..self },
            FrameField::HSpace(v) => FramePropertyView { h_space: Some(v), ..self },
            FrameField::VSpace(v) => FramePropertyView { v_space: Some(v), ..self },
            FrameField::X(v) => FramePropertyView { x: Some(v), ..self },
            FrameField::Y(v) => FramePropertyView { y: Some(v), ..self },
            FrameField::W(v) => FramePropertyView { w: Some(v), ..self },
            FrameField::H(v) => FramePropertyView { h: Some(v), ..self },
        }
    }

    /// The attribute of a field: one where the field is set, none where it is not.
    pub open spec fn attr(self, key: FrameKey) -> Seq<Attr> {
        match self.rendered(key) {
            Some(value) => seq![Attr { name: key.attr_name(), value }],
            None => Seq::empty(),
        }
    }

    /// The attributes of the given fields, in their order.
    pub open spec fn attrs_of(self, keys: Seq<FrameKey>) -> Seq<Attr>
        decreases keys.len(),
    {
        if keys.len() == 0 {
            Seq::empty()
        } else {
            self.attrs_of(keys.drop_last()) + self.attr(keys.last())
        }
    }

    /// The attributes that render the frame property: those of the fields
    /// that are set, in the order of the fields.
    pub open spec fn attrs(self) -> Seq<Attr> {
        self.attrs_of(frame_keys())
    }

    /// The markup of the frame property: one element that carries the
    /// attributes where a field is set, a start tag and an end tag where none is.
    pub open spec fn tokens(self) -> Seq<Token> {
        property_tokens("w:framePr"@, self.attrs())
    }

    /// The markup of a frame property is balanced.
    pub proof fn lemma_balanced(self)
        ensures
            balanced(self.tokens()),
    {
        lemma_property_balanced("w:framePr"@, self.attrs());
    }

    /// A frame property with a field set is rendered as one element without
    /// content that carries the attributes.
    pub proof fn lemma_set_is_one_element(self, key: FrameKey)
        requires
            self.rendered(key) is Some,
        ensures
            self.attrs().len() > 0,
            self.tokens() == seq![Token::Empty { name: "w:framePr"@, attrs: self.attrs() }],
    {
        self.lemma_attr_value(key);
    }

    /// Where none of the given fields is set, they give no attribute.
    proof fn lemma_unset_keys(self, keys: Seq<FrameKey>)
        requires
            forall|key: FrameKey| self.rendered(key) is None,
        ensures
            self.attrs_of(keys).len() == 0,
        decreases keys.len(),
    {
        if keys.len() > 0 {
            self.lemma_unset_keys(keys.drop_last());
        }
    }

    /// A frame property with no field set is rendered as a start tag and an
    /// end tag with nothing between them and no attribute.
    pub proof fn lemma_unset_is_pair(self)
        requires
            forall|key: FrameKey| self.rendered(key) is None,
        ensures
            self.attrs() == Seq::<Attr>::empty(),
            self.tokens() == seq![
                Token::Start { name: "w:framePr"@, attrs: Seq::empty() },
                Token::End { name: "w:framePr"@ },
            ],
    {
        self.lemma_unset_keys(frame_keys());
        assert(self.attrs() =~= Seq::<Attr>::empty());
    }

    /// Setting a field gives that field its value and leaves every other field as it was.
    pub proof fn lemma_with(self, field: FrameField, key: FrameKey)
        ensures
            self.with(field).rendered(key) == if key == field.key() {
                Some(field.value())
            } else {
                self.rendered(key)
            },
    {
    }

    /// The attributes of the first `n + 1` fields are those of the first `n`
    /// fields and that of the field in place `n`.
    pub proof fn lemma_attrs_step(self, n: int)
        requires
            0 <= n < 12,
        ensures
            self.attrs_of(frame_keys().take(n + 1)) == self.attrs_of(frame_keys().take(n))
                + self.attr(frame_keys()[n]),
            self.attrs_of(frame_keys().take(0)) == Seq::<Attr>::empty(),
    {
        assert(frame_keys().take(n + 1).drop_last() =~= frame_keys().take(n));
    }

    /// Among the attributes of the first `n` fields, the value under the name
    /// of a field is the field's value where the field is one of them and is
    /// set, and there is none otherwise.
    proof fn lemma_attr_value_prefix(self, key: FrameKey, n: int)
        requires
            0 <= n <= 12,
        ensures
            attr_value(self.attrs_of(frame_keys().take(n)), key.attr_name()) == if key.index()
                < n {
                self.rendered(key)
            } else {
                None
            },
        decreases n,
    {
        if n > 0 {
            let at = frame_keys()[n - 1];
            self.lemma_attr_value_prefix(key, n - 1);
            self.lemma_attrs_step(n - 1);
            lemma_attr_value_concat(
                self.attrs_of(frame_keys().take(n - 1)),
                self.attr(at),
                key.attr_name(),
            );
            FrameKey::lemma_key_at(n - 1);
            key.lemma_index();
            if at != key {
                at.lemma_names_differ(key);
            }
            assert(attr_value(Seq::<Attr>::empty(), key.attr_name()) is None);
            match self.rendered(at) {
                Some(value) => {
                    assert(self.attr(at).drop_first() =~= Seq::<Attr>::empty());
                },
                None => {},
            }
        } else {
            self.lemma_attrs_step(0);
        }
    }

    /// A field that is set appears among the rendered attributes with exactly
    /// its value; a field that is not set does not appear.
    pub proof fn lemma_attr_value(self, key: FrameKey)
        ensures
            attr_value(self.attrs(), key.attr_name()) == self.rendered(key),
    {
        self.lemma_attr_value_prefix(key, 12);
        assert(frame_keys().take(12) =~= frame_keys());
        key.lemma_index();
    }

    /// Every attribute among those of the first `n` fields renders a field that is set.
    proof fn lemma_attrs_prefix_belong(self, n: int, i: int)
        requires
            0 <= n <= 12,
            0 <= i < self.attrs_of(frame_keys().take(n)).len(),
        ensures
            exists|key: FrameKey|
                self.attrs_of(frame_keys().take(n))[i].name == #[trigger] key.attr_name()
                    && self.rendered(key) == Some(self.attrs_of(frame_keys().take(n))[i].value),
        decreases n,
    {
        if n > 0 {
            self.lemma_attrs_step(n - 1);
            let before = self.attrs_of(frame_keys().take(n - 1));
            if i < before.len() {
                self.lemma_attrs_prefix_belong(n - 1, i);
            } else {
                let key = frame_keys()[n - 1];
                assert(self.attrs_of(frame_keys().take(n))[i].name == key.attr_name());
            }
        } else {
            self.lemma_attrs_step(0);
        }
    }

    /// Nothing but the fields that are set appears among the rendered
    /// attributes: every attribute carries the name of a field and that
    /// field's value.
    pub proof fn lemma_attrs_belong(self, i: int)
        requires
            0 <= i < self.attrs().len(),
        ensures
            exists|key: FrameKey|
                self.attrs()[i].name == #[trigger] key.attr_name() && self.rendered(key) == Some(
                    self.attrs()[i].value,
                ),
    {
        assert(frame_keys().take(12) =~= frame_keys());
        self.lemma_attrs_prefix_belong(12, i);
    }

    /// Setting one field and then another keeps the value of the first: both
    /// appear among the rendered attributes, each with the value it was given.
    pub proof fn lemma_merge(self, first: FrameField, second: FrameField)
        requires
            first.key() != second.key(),
        ensures
            attr_value(self.with(first).with(second).attrs(), first.key().attr_name()) == Some(
                first.value(),
            ),
            attr_value(self.with(first).with(second).attrs(), second.key().attr_name()) == Some(
                second.value(),
            ),
    {
        let merged = self.with(first).with(second);
        merged.lemma_attr_value(first.key());
        merged.lemma_attr_value(second.key());
        self.with(first).lemma_with(second, first.key());
        self.with(first).lemma_with(second, second.key());
        self.lemma_with(first, first.key());
    }

    /// Setting a field changes no attribute but that of the field.
    pub proof fn lemma_with_keeps(self, field: FrameField, key: FrameKey)
        requires
            key != field.key(),
        ensures
            attr_value(self.with(field).attrs(), key.attr_name()) == attr_value(
                self.attrs(),
                key.attr_name(),
            ),
    {
        self.with(field).lemma_attr_value(key);
        self.lemma_attr_value(key);
        self.lemma_with(field, key);
    }
}

/// Among the attributes `a + b`, the value under a name is the one among `a`
/// where there is one, and the one among `b` otherwise.
pub proof fn lemma_attr_value_concat(a: Seq<Attr>, b: Seq<Attr>, name: Seq<char>)
    ensures
        attr_value(a + b, name) == match attr_value(a, name) {
            Some(value) => Some(value),
            None => attr_value(b, name),
        },
    decreases a.len(),
{
    if a.len() == 0 {
        assert(a + b =~= b);
    } else {
        lemma_attr_value_concat(a.drop_first(), b, name);
        assert((a + b).drop_first() =~= a.drop_first() + b);
    }
}

/// Adds the attribute of the text field in place `n`, where the field is set.
fn text_attribute(
    b: XMLBuilder,
    name: &str,
    value: &Option<String>,
    Ghost(p): Ghost<FramePropertyView>,
    Ghost(n): Ghost<int>,
) -> (r: XMLBuilder)
    requires
        0 <= n < 12,
        b@.pending == Some(p.attrs_of(frame_keys().take(n))),
        name@ == frame_keys()[n].attr_name(),
        text_view(*value) == p.rendered(frame_keys()[n]),
    ensures
        r@ == (BuilderView { pending: Some(p.attrs_of(frame_keys().take(n + 1))), ..b@ }),
{
    proof {
        p.lemma_attrs_step(n);
    }
    match value {
        Some(v) => {
            let r = b.attribute(name, v.as_str());
            proof {
                assert(r@.pending.unwrap() =~= p.attrs_of(frame_keys().take(n + 1)));
            }
            r
        },
        None => {
            proof {
                assert(b@.pending.unwrap() =~= p.attrs_of(frame_keys().take(n + 1)));
            }
            b
        },
    }
}

/// Adds the attribute of the number field in place `n`, where the field is set.
fn number_attribute(
    b: XMLBuilder,
    name: &str,
    value: Option<i64>,
    Ghost(p): Ghost<FramePropertyView>,
    Ghost(n): Ghost<int>,
) -> (r: XMLBuilder)
    requires
        0 <= n < 12,
        b@.pending == Some(p.attrs_of(frame_keys().take(n))),
        name@ == frame_keys()[n].attr_name(),
        match value {
            Some(v) => p.rendered(frame_keys()[n]) == Some(decimal(v as int)),
            None => p.rendered(frame_keys()[n]) is None,
        },
    ensures
        r@ == (BuilderView { pending: Some(p.attrs_of(frame_keys().take(n + 1))), ..b@ }),
{
    proof {
        p.lemma_attrs_step(n);
    }
    match value {
        Some(v) => {
            let text = decimal_string(v);
            let r = b.attribute(name, text.as_str());
            proof {
                assert(r@.pending.unwrap() =~= p.attrs_of(frame_keys().take(n + 1)));
            }
            r
        },
        None => {
            proof {
                assert(b@.pending.unwrap() =~= p.attrs_of(frame_keys().take(n + 1)));
            }
            b
        },
    }
}

/// A signed number that may be absent, widened.
fn signed(n: Option<i32>) -> (r: Option<i64>)
    ensures
        match n {
            Some(v) => r == Some(v as i64),
            None => r is None,
        },
{
    match n {
        Some(v) => Some(v as i64),
        None => None,
    }
}

/// An unsigned number that may be absent, widened.
fn unsigned(n: Option<u32>) -> (r: Option<i64>)
    ensures
        match n {
            Some(v) => r == Some(v as i64),
            None => r is None,
        },
{
    match n {
        Some(v) => Some(v as i64),
        None => None,
    }
}

/// A copy of a text that may be absent.
fn clone_text(text: &Option<String>) -> (r: Option<String>)
    ensures
        r == *text,
{
    match text {
        Some(s) => Some(s.clone()),
        None => None,
    }
}

impl FrameProperty {
    /// A frame property with no field set.
    pub fn new() -> (p: FrameProperty)
        ensures
            p@ == FramePropertyView::empty(),
    {
        FrameProperty {
            wrap: None,
            v_anchor: None,
            h_anchor: None,
            h_rule: None,
            x_align: None,
            y_align: None,
            h_space: None,
            v_space: None,
            x: None,
            y: None,
            w: None,
            h: None,
        }
    }

    /// Sets how text wraps around the frame; every other field stays as it is.
    pub fn wrap(self, wrap: &str) -> (p: FrameProperty)
        ensures
            p@ == self@.with(FrameField::Wrap(wrap@)),
    {
        FrameProperty { wrap: Some(wrap.to_owned()), ..self }
    }

    /// Sets what the vertical position is relative to; every other field stays as it is.
    pub fn v_anchor(self, anchor: &str) -> (p: FrameProperty)
        ensures
            p@ == self@.with(FrameField::VAnchor(anchor@)),
    {
        FrameProperty { v_anchor: Some(anchor.to_owned()), ..self }
    }

    /// Sets what the horizontal position is relative to; every other field stays as it is.
    pub fn h_anchor(self, anchor: &str) -> (p: FrameProperty)
        ensures
            p@ == self@.with(FrameField::HAnchor(anchor@)),
    {
        FrameProperty { h_anchor: Some(anchor.to_owned()), ..self }
    }

    /// Sets the rule for the frame's height; every other field stays as it is.
    pub fn h_rule(self, r: &str) -> (p: FrameProperty)
        ensures
            p@ == self@.with(FrameField::HRule(r@)),
    {
        FrameProperty { h_rule: Some(r.to_owned()), ..self }
    }

    /// Sets the horizontal alignment; every other field stays as it is.
    pub fn x_align(self, align: &str) -> (p: FrameProperty)
        ensures
            p@ == self@.with(FrameField::XAlign(align@)),
    {
        FrameProperty { x_align: Some(align.to_owned()), ..self }
    }

    /// Sets the vertical alignment; every other field stays as it is.
    pub fn y_align(self, align: &str) -> (p: FrameProperty)
        ensures
            p@ == self@.with(FrameField::YAlign(align@)),
    {
        FrameProperty { y_align: Some(align.to_owned()), ..self }
    }

    /// Sets the horizontal distance from the text around; every other field stays as it is.
    pub fn h_space(self, x: i32) -> (p: FrameProperty)
        ensures
            p@ == self@.with(FrameField::HSpace(x)),
    {
        FrameProperty { h_space: Some(x), ..self }
    }

    /// Sets the vertical distance from the text around; every other field stays as it is.
    pub fn v_space(self, x: i32) -> (p: FrameProperty)
        ensures
            p@ == self@.with(FrameField::VSpace(x)),
    {
        FrameProperty { v_space: Some(x), ..self }
    }

    /// Sets the horizontal position; every other field stays as it is.
    pub fn x(self, x: i32) -> (p: FrameProperty)
        ensures
            p@ == self@.with(FrameField::X(x)),
    {
        FrameProperty { x: Some(x), ..self }
    }

    /// Sets the vertical position; every other field stays as it is.
    pub fn y(self, y: i32) -> (p: FrameProperty)
        ensures
            p@ == self@.with(FrameField::Y(y)),
    {
        FrameProperty { y: Some(y), ..self }
    }

    /// Sets the width; every other field stays as it is.
    pub fn width(self, n: u32) -> (p: FrameProperty)
        ensures
            p@ == self@.with(FrameField::W(n)),
    {
        FrameProperty { w: Some(n), ..self }
    }

    /// Sets the height; every other field stays as it is.
    pub fn height(self, n: u32) -> (p: FrameProperty)
        ensures
            p@ == self@.with(FrameField::H(n)),
    {
        FrameProperty { h: Some(n), ..self }
    }
}

impl Default for FrameProperty {
    fn default() -> (p: FrameProperty)
        ensures
            p@ == FramePropertyView::empty(),
    {
        FrameProperty::new()
    }
}

impl Clone for FrameProperty {
    fn clone(&self) -> (p: FrameProperty)
        ensures
            p == *self,
    {
        FrameProperty {
            wrap: clone_text(&self.wrap),
            v_anchor: clone_text(&self.v_anchor),
            h_anchor: clone_text(&self.h_anchor),
            h_rule: clone_text(&self.h_rule),
            x_align: clone_text(&self.x_align),
            y_align: clone_text(&self.y_align),
            h_space: self.h_space,
            v_space: self.v_space,
            x: self.x,
            y: self.y,
            w: self.w,
            h: self.h,
        }
    }
}

impl BuildXML for FrameProperty {
    open spec fn tokens(&self) -> Seq<Token> {
        self@.tokens()
    }

    proof fn lemma_balanced(&self) {
        self@.lemma_balanced();
    }

    fn build(&self) -> (bytes: Vec<u8>) {
        let ghost p = self@;
        let b = XMLBuilder::new().open("w:framePr");
        proof {
            p.lemma_attrs_step(0);
        }
        let b = text_attribute(b, "w:wrap", &self.wrap, Ghost(p), Ghost(0));
        let b = text_attribute(b, "w:vAnchor", &self.v_anchor, Ghost(p), Ghost(1));
        let b = text_attribute(b, "w:hAnchor", &self.h_anchor, Ghost(p), Ghost(2));
        let b = text_attribute(b, "w:hRule", &self.h_rule, Ghost(p), Ghost(3));
        let b = text_attribute(b, "w:xAlign", &self.x_align, Ghost(p), Ghost(4));
        let b = text_attribute(b, "w:yAlign", &self.y_align, Ghost(p), Ghost(5));
        let b = number_attribute(b, "w:hSpace", signed(self.h_space), Ghost(p), Ghost(6));
        let b = number_attribute(b, "w:vSpace", signed(self.v_space), Ghost(p), Ghost(7));
        let b = number_attribute(b, "w:x", signed(self.x), Ghost(p), Ghost(8));
        let b = number_attribute(b, "w:y", signed(self.y), Ghost(p), Ghost(9));
        let b = number_attribute(b, "w:w", unsigned(self.w), Ghost(p), Ghost(10));
        let b = number_attribute(b, "w:h", unsigned(self.h), Ghost(p), Ghost(11));
        proof {
            assert(frame_keys().take(12) =~= frame_keys());
        }
        let b = b.close_property();
        proof {
            assert(b@.tokens =~= self.tokens());
        }
        b.build()
    }
}

} // verus!
