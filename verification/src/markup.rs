//! The abstract form of rendered markup: a sequence of tokens, the text that
//! the tokens spell, and the bytes that encode that text.

use vstd::prelude::*;
use vstd::utf8::encode_utf8;

verus! {

/// One attribute of a start tag: ` name="value"`. The value is written as given.
pub struct Attr {
    pub name: Seq<char>,
    pub value: Seq<char>,
}

/// One unit of rendered markup.
pub enum Token {
    /// The XML declaration with the line break that ends its line.
    Declaration,
    /// A line break followed by two spaces for each level of depth.
    Break { depth: nat },
    /// `<name attrs>`
    Start { name: Seq<char>, attrs: Seq<Attr> },
    /// `<name attrs />`: an element without content.
    Empty { name: Seq<char>, attrs: Seq<Attr> },
    /// `</name>`
    End { name: Seq<char> },
    /// Character data, written as given.
    Chars { text: Seq<char> },
}

/// The text of one attribute inside a start tag.
pub open spec fn attr_text(attr: Attr) -> Seq<char> {
    " "@ + attr.name + "=\""@ + attr.value + "\""@
}

/// The text of the attributes of a start tag, in their order.
pub open spec fn attrs_text(attrs: Seq<Attr>) -> Seq<char>
    decreases attrs.len(),
{
    if attrs.len() == 0 {
        Seq::empty()
    } else {
        attrs_text(attrs.drop_last()) + attr_text(attrs.last())
    }
}

/// Two spaces for each level of depth.
pub open spec fn indent(depth: nat) -> Seq<char>
    decreases depth,
{
    if depth == 0 {
        Seq::empty()
    } else {
        indent((depth - 1) as nat) + "  "@
    }
}

/// The text of a start tag up to, and without, the bracket that ends it.
pub open spec fn tag_head(name: Seq<char>, attrs: Seq<Attr>) -> Seq<char> {
    "<"@ + name + attrs_text(attrs)
}

impl Token {
    /// The text that the token stands for.
    pub open spec fn text(self) -> Seq<char> {
        match self {
            Token::Declaration => "<?xml version=\"1.0\" encoding=\"UTF-8\" standalone=\"yes\"?>\n"@,
            Token::Break { depth } => "\n"@ + indent(depth),
            Token::Start { name, attrs } => tag_head(name, attrs) + ">"@,
            Token::Empty { name, attrs } => tag_head(name, attrs) + " />"@,
            Token::End { name } => "</"@ + name + ">"@,
            Token::Chars { text } => text,
        }
    }

    /// The name of the element that the token begins, if it begins one.
    pub open spec fn element(self) -> Option<Seq<char>> {
        match self {
            Token::Start { name, .. } => Some(name),
            Token::Empty { name, .. } => Some(name),
            _ => None,
        }
    }
}

/// The text that a sequence of tokens spells.
pub open spec fn markup(tokens: Seq<Token>) -> Seq<char>
    decreases tokens.len(),
{
    if tokens.len() == 0 {
        Seq::empty()
    } else {
        markup(tokens.drop_last()) + tokens.last().text()
    }
}

/// The bytes of rendered markup: the UTF-8 encoding of its text.
pub open spec fn xml_bytes(tokens: Seq<Token>) -> Seq<u8> {
    encode_utf8(markup(tokens))
}

/// The names of the elements left open after `tokens`, read from a state in
/// which the elements `open` are open (outermost first). `None` where an end
/// tag meets no open element or an element of another name.
pub open spec fn residue(tokens: Seq<Token>, open: Seq<Seq<char>>) -> Option<Seq<Seq<char>>>
    decreases tokens.len(),
{
    if tokens.len() == 0 {
        Some(open)
    } else {
        match residue(tokens.drop_last(), open) {
            None => None,
            Some(stack) => match tokens.last() {
                Token::Start { name, .. } => Some(stack.push(name)),
                Token::End { name } => if stack.len() > 0 && stack.last() == name {
                    Some(stack.drop_last())
                } else {
                    None
                },
                _ => Some(stack),
            },
        }
    }
}

/// Every end tag closes the element opened last, and no element stays open.
pub open spec fn balanced(tokens: Seq<Token>) -> bool {
    residue(tokens, Seq::empty()) == Some(Seq::<Seq<char>>::empty())
}

/// The number of start tags among the tokens.
pub open spec fn opens(tokens: Seq<Token>) -> nat
    decreases tokens.len(),
{
    if tokens.len() == 0 {
        0
    } else {
        opens(tokens.drop_last()) + if tokens.last() is Start { 1nat } else { 0nat }
    }
}

/// The number of end tags among the tokens.
pub open spec fn closes(tokens: Seq<Token>) -> nat
    decreases tokens.len(),
{
    if tokens.len() == 0 {
        0
    } else {
        closes(tokens.drop_last()) + if tokens.last() is End { 1nat } else { 0nat }
    }
}

/// The value of the first attribute called `name`, if there is one.
pub open spec fn attr_value(attrs: Seq<Attr>, name: Seq<char>) -> Option<Seq<char>>
    decreases attrs.len(),
{
    if attrs.len() == 0 {
        None
    } else if attrs[0].name == name {
        Some(attrs[0].value)
    } else {
        attr_value(attrs.drop_first(), name)
    }
}

/// Whether a start tag or an empty element called `name` is among the tokens.
pub open spec fn has_element(tokens: Seq<Token>, name: Seq<char>) -> bool {
    exists|i: int| 0 <= i < tokens.len() && (#[trigger] tokens[i]).element() == Some(name)
}

/// An element is among the tokens `a + b` where it is among `a` or among `b`.
pub proof fn lemma_has_element_concat(a: Seq<Token>, b: Seq<Token>, name: Seq<char>)
    ensures
        has_element(a + b, name) <==> has_element(a, name) || has_element(b, name),
{
    if has_element(a, name) {
        let i = choose|i: int| 0 <= i < a.len() && (#[trigger] a[i]).element() == Some(name);
        assert((a + b)[i] == a[i]);
    }
    if has_element(b, name) {
        let i = choose|i: int| 0 <= i < b.len() && (#[trigger] b[i]).element() == Some(name);
        assert((a + b)[a.len() + i] == b[i]);
    }
    if has_element(a + b, name) {
        let i = choose|i: int|
            0 <= i < (a + b).len() && (#[trigger] (a + b)[i]).element() == Some(name);
        if i < a.len() {
            assert(a[i] == (a + b)[i]);
        } else {
            assert(b[i - a.len()] == (a + b)[i]);
        }
    }
}

/// An element is among the tokens of a single token where the token begins it.
pub proof fn lemma_has_element_one(token: Token, name: Seq<char>)
    ensures
        has_element(seq![token], name) <==> token.element() == Some(name),
{
    if token.element() == Some(name) {
        assert(seq![token][0] == token);
    }
}

/// No element is among no tokens.
pub proof fn lemma_has_element_none(name: Seq<char>)
    ensures
        !has_element(Seq::empty(), name),
{
}

/// The UTF-8 encoding of a concatenation is the concatenation of the encodings.
pub proof fn lemma_encode_concat(a: Seq<char>, b: Seq<char>)
    ensures
        encode_utf8(a + b) == encode_utf8(a) + encode_utf8(b),
    decreases a.len(),
{
    if a.len() == 0 {
        assert(a + b =~= b);
        assert(encode_utf8(a) + encode_utf8(b) =~= encode_utf8(b));
    } else {
        lemma_encode_concat(a.drop_first(), b);
        assert((a + b).drop_first() =~= a.drop_first() + b);
        assert((a + b)[0] == a[0]);
        assert(encode_utf8(a + b) =~= encode_utf8(a) + encode_utf8(b));
    }
}

/// The attributes' text grows by one attribute's text with each attribute added.
pub proof fn lemma_attrs_text_push(attrs: Seq<Attr>, attr: Attr)
    ensures
        attrs_text(attrs.push(attr)) == attrs_text(attrs) + attr_text(attr),
{
    assert(attrs.push(attr).drop_last() =~= attrs);
}

/// One more token adds its text to the markup.
pub proof fn lemma_markup_push(tokens: Seq<Token>, token: Token)
    ensures
        markup(tokens.push(token)) == markup(tokens) + token.text(),
{
    assert(tokens.push(token).drop_last() =~= tokens);
}

/// The markup of a concatenation is the concatenation of the markups.
pub proof fn lemma_markup_concat(a: Seq<Token>, b: Seq<Token>)
    ensures
        markup(a + b) == markup(a) + markup(b),
    decreases b.len(),
{
    if b.len() == 0 {
        assert(a + b =~= a);
        assert(markup(a) + markup(b) =~= markup(a));
    } else {
        lemma_markup_concat(a, b.drop_last());
        assert((a + b).drop_last() =~= a + b.drop_last());
        assert((a + b).last() == b.last());
        assert(markup(a + b) =~= markup(a) + markup(b));
    }
}

/// Reading a concatenation is reading its second part from where the first ended.
pub proof fn lemma_residue_concat(a: Seq<Token>, b: Seq<Token>, open: Seq<Seq<char>>)
    ensures
        residue(a + b, open) == match residue(a, open) {
            Some(stack) => residue(b, stack),
            None => None,
        },
    decreases b.len(),
{
    if b.len() == 0 {
        assert(a + b =~= a);
    } else {
        lemma_residue_concat(a, b.drop_last(), open);
        assert((a + b).drop_last() =~= a + b.drop_last());
        assert((a + b).last() == b.last());
    }
}

/// What tokens leave open does not depend on the elements that were open
/// before them, as long as they close none of those.
pub proof fn lemma_residue_frame(tokens: Seq<Token>, base: Seq<Seq<char>>)
    ensures
        residue(tokens, Seq::empty()) matches Some(rest) ==> residue(tokens, base) == Some(
            base + rest,
        ),
    decreases tokens.len(),
{
    if tokens.len() == 0 {
        assert(base + Seq::<Seq<char>>::empty() =~= base);
    } else {
        lemma_residue_frame(tokens.drop_last(), base);
        match residue(tokens.drop_last(), Seq::empty()) {
            Some(rest) => {
                match tokens.last() {
                    Token::Start { name, .. } => {
                        assert((base + rest).push(name) =~= base + rest.push(name));
                    },
                    Token::End { name } => {
                        if rest.len() > 0 && rest.last() == name {
                            assert((base + rest).drop_last() =~= base + rest.drop_last());
                        }
                    },
                    _ => {},
                }
            },
            None => {},
        }
    }
}

/// Balanced markup leaves the open elements around it as they were.
pub proof fn lemma_balanced_frame(tokens: Seq<Token>, base: Seq<Seq<char>>)
    requires
        balanced(tokens),
    ensures
        residue(tokens, base) == Some(base),
{
    lemma_residue_frame(tokens, base);
    assert(base + Seq::<Seq<char>>::empty() =~= base);
}

/// Balanced markup followed by balanced markup is balanced.
pub proof fn lemma_balanced_concat(a: Seq<Token>, b: Seq<Token>)
    requires
        balanced(a),
        balanced(b),
    ensures
        balanced(a + b),
{
    lemma_residue_concat(a, b, Seq::empty());
}

/// What a single token does to the open elements.
pub proof fn lemma_residue_one(token: Token, open: Seq<Seq<char>>)
    ensures
        residue(seq![token], open) == match token {
            Token::Start { name, .. } => Some(open.push(name)),
            Token::End { name } => if open.len() > 0 && open.last() == name {
                Some(open.drop_last())
            } else {
                None
            },
            _ => Some(open),
        },
{
    assert(seq![token].drop_last() =~= Seq::<Token>::empty());
    assert(residue(Seq::<Token>::empty(), open) == Some(open));
}

/// Balanced markup between a start tag and the end tag of the same name is balanced.
pub proof fn lemma_balanced_element(name: Seq<char>, attrs: Seq<Attr>, inner: Seq<Token>)
    requires
        balanced(inner),
    ensures
        balanced(seq![Token::Start { name, attrs }] + inner + seq![Token::End { name }]),
{
    let start = seq![Token::Start { name, attrs }];
    let end = seq![Token::End { name }];
    let outer = Seq::<Seq<char>>::empty().push(name);
    lemma_residue_one(start[0], Seq::empty());
    lemma_balanced_frame(inner, outer);
    lemma_residue_concat(start, inner, Seq::empty());
    lemma_residue_one(end[0], outer);
    assert(outer.drop_last() =~= Seq::<Seq<char>>::empty());
    lemma_residue_concat(start + inner, end, Seq::empty());
}

/// A single token that is neither a start tag nor an end tag is balanced.
pub proof fn lemma_balanced_leaf(token: Token)
    requires
        !(token is Start),
        !(token is End),
    ensures
        balanced(seq![token]),
{
    lemma_residue_one(token, Seq::empty());
}

/// The open elements grow by the start tags and shrink by the end tags.
pub proof fn lemma_residue_counts(tokens: Seq<Token>, open: Seq<Seq<char>>)
    ensures
        residue(tokens, open) matches Some(stack) ==> stack.len() + closes(tokens) == open.len()
            + opens(tokens),
    decreases tokens.len(),
{
    if tokens.len() > 0 {
        lemma_residue_counts(tokens.drop_last(), open);
    }
}

/// Balanced markup holds as many start tags as end tags.
pub proof fn lemma_balanced_counts(tokens: Seq<Token>)
    requires
        balanced(tokens),
    ensures
        opens(tokens) == closes(tokens),
{
    lemma_residue_counts(tokens, Seq::empty());
}

/// The parts one after the other, in their order.
pub open spec fn flatten(parts: Seq<Seq<Token>>) -> Seq<Token>
    decreases parts.len(),
{
    if parts.len() == 0 {
        Seq::empty()
    } else {
        flatten(parts.drop_last()) + parts.last()
    }
}

/// Nothing flattens to nothing.
pub proof fn lemma_flatten_none(parts: Seq<Seq<Token>>)
    requires
        parts.len() == 0,
    ensures
        flatten(parts) == Seq::<Token>::empty(),
{
}

/// The first `i + 1` parts flatten to the first `i` parts followed by part `i`.
pub proof fn lemma_flatten_take(parts: Seq<Seq<Token>>, i: int)
    requires
        0 <= i < parts.len(),
    ensures
        flatten(parts.take(i + 1)) == flatten(parts.take(i)) + parts[i],
{
    assert(parts.take(i + 1).drop_last() =~= parts.take(i));
}

/// Balanced parts flatten to balanced markup.
pub proof fn lemma_flatten_balanced(parts: Seq<Seq<Token>>)
    requires
        forall|i: int| 0 <= i < parts.len() ==> balanced(#[trigger] parts[i]),
    ensures
        balanced(flatten(parts)),
    decreases parts.len(),
{
    if parts.len() > 0 {
        lemma_flatten_balanced(parts.drop_last());
        lemma_balanced_concat(flatten(parts.drop_last()), parts.last());
    }
}

/// The markup of each of the children, in their order.
pub open spec fn children_tokens<T: BuildXML>(children: Seq<T>) -> Seq<Seq<Token>> {
    Seq::new(children.len(), |i: int| children[i].tokens())
}

/// The markup of an element called `name` around `inner`: an empty element
/// where `filled` is not set, start tag and end tag around `inner` where it is.
pub open spec fn element_tokens(
    name: Seq<char>,
    attrs: Seq<Attr>,
    filled: bool,
    inner: Seq<Token>,
) -> Seq<Token> {
    if filled {
        seq![Token::Start { name, attrs }] + inner + seq![Token::End { name }]
    } else {
        seq![Token::Empty { name, attrs }]
    }
}

/// The markup of a property object called `name` that holds attributes only.
/// With an attribute it is one element without content; without any it is a
/// start tag and an end tag, never an element that closes itself.
pub open spec fn property_tokens(name: Seq<char>, attrs: Seq<Attr>) -> Seq<Token> {
    if attrs.len() == 0 {
        seq![Token::Start { name, attrs }, Token::End { name }]
    } else {
        seq![Token::Empty { name, attrs }]
    }
}

/// The markup of a property object is balanced.
pub proof fn lemma_property_balanced(name: Seq<char>, attrs: Seq<Attr>)
    ensures
        balanced(property_tokens(name, attrs)),
{
    if attrs.len() == 0 {
        let inner = Seq::<Token>::empty();
        assert(balanced(inner));
        lemma_balanced_element(name, attrs, inner);
        assert(seq![Token::Start { name, attrs }] + inner + seq![Token::End { name }]
            =~= property_tokens(name, attrs));
    } else {
        lemma_balanced_leaf(Token::Empty { name, attrs });
    }
}

/// The markup of a property object holds one element: the property object.
pub proof fn lemma_property_has_element(name: Seq<char>, attrs: Seq<Attr>, other: Seq<char>)
    ensures
        has_element(property_tokens(name, attrs), other) <==> other == name,
{
    if attrs.len() == 0 {
        let start = Token::Start { name, attrs };
        let end = Token::End { name };
        lemma_has_element_concat(seq![start], seq![end], other);
        lemma_has_element_one(start, other);
        lemma_has_element_one(end, other);
        assert(seq![start] + seq![end] =~= property_tokens(name, attrs));
    } else {
        lemma_has_element_one(Token::Empty { name, attrs }, other);
    }
}

/// Whether `part` stands among the tokens from place `at` on, whole and in one piece.
pub open spec fn occurs_at(tokens: Seq<Token>, part: Seq<Token>, at: int) -> bool {
    0 <= at && at + part.len() <= tokens.len() && tokens.subrange(at, at + part.len()) == part
}

/// Whether `part` stands among the tokens, whole and in one piece.
pub open spec fn occurs(tokens: Seq<Token>, part: Seq<Token>) -> bool {
    exists|at: int| #[trigger] occurs_at(tokens, part, at)
}

/// What stands between two stretches of tokens occurs among the whole.
pub proof fn lemma_occurs_between(before: Seq<Token>, part: Seq<Token>, after: Seq<Token>)
    ensures
        occurs(before + part + after, part),
{
    let whole = before + part + after;
    assert(whole.subrange(before.len() as int, (before.len() + part.len()) as int) =~= part);
    assert(occurs_at(whole, part, before.len() as int));
}

/// An element around balanced markup is balanced.
pub proof fn lemma_element_balanced(
    name: Seq<char>,
    attrs: Seq<Attr>,
    filled: bool,
    inner: Seq<Token>,
)
    requires
        balanced(inner),
    ensures
        balanced(element_tokens(name, attrs, filled, inner)),
{
    if filled {
        lemma_balanced_element(name, attrs, inner);
    } else {
        lemma_balanced_leaf(Token::Empty { name, attrs });
    }
}

/// An element of the document model that renders itself as markup.
pub trait BuildXML {
    /// The element's markup, token by token.
    spec fn tokens(&self) -> Seq<Token>;

    /// The element's markup is balanced.
    proof fn lemma_balanced(&self)
        ensures
            balanced(self.tokens()),
    ;

    /// Renders the element: the bytes are the UTF-8 encoding of its markup, and nothing else
    /// than the element's value decides them.
    fn build(&self) -> (bytes: Vec<u8>)
        ensures
            bytes@ == xml_bytes(self.tokens()),
    ;
}

/// Rendering is deterministic: whatever two calls of `build` on one element
/// return, they return the same bytes.
pub proof fn lemma_build_deterministic<T: BuildXML>(element: &T, first: Vec<u8>, second: Vec<u8>)
    requires
        call_ensures(T::build, (element,), first),
        call_ensures(T::build, (element,), second),
    ensures
        first@ == second@,
        first@ == xml_bytes(element.tokens()),
{
}

/// The markup of every element is balanced: each end tag closes the element
/// opened last, no element stays open, and there are as many start tags as end tags.
pub proof fn lemma_tags_balanced<T: BuildXML>(element: &T)
    ensures
        balanced(element.tokens()),
        opens(element.tokens()) == closes(element.tokens()),
{
    element.lemma_balanced();
    lemma_balanced_counts(element.tokens());
}

} // verus!
