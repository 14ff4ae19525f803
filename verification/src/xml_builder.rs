//! The markup builder: an accumulator of bytes that every element renders through.
//!
//! Tags that directly follow other tags written by the same builder are set on
//! lines of their own, indented by depth; markup spliced in as a child, and
//! text, are written without any such break. Attribute values and text are
//! written as given: nothing is escaped.
//!
//! An element into which nothing was written is closed with ` />`. Property
//! objects are the exception: `close_property` gives one without attributes
//! and content a start tag and an end tag.

use crate::markup::{
    balanced, children_tokens, flatten, indent, lemma_flatten_none, lemma_flatten_take,
    lemma_attrs_text_push, lemma_balanced_frame, lemma_encode_concat, lemma_markup_concat,
    lemma_markup_push, lemma_residue_concat, lemma_residue_one, markup, residue, tag_head,
    xml_bytes, Attr, BuildXML, Token,
};
use vstd::prelude::*;
use vstd::utf8::encode_utf8;

verus! {

/// What a builder has written, and what it still holds open.
pub struct BuilderView {
    /// The tokens written in full.
    pub tokens: Seq<Token>,
    /// The names of the elements that were opened and not closed, outermost first.
    pub open: Seq<Seq<char>>,
    /// The attributes of the innermost element, while its start tag can still take more.
    pub pending: Option<Seq<Attr>>,
    /// For depth 0 and the depth inside each open element: whether the next
    /// tag written at that depth goes on a line of its own.
    pub breaks: Seq<bool>,
}

impl BuilderView {
    /// The view of a builder that has written nothing.
    pub open spec fn empty() -> BuilderView {
        BuilderView {
            tokens: Seq::empty(),
            open: Seq::empty(),
            pending: None,
            breaks: seq![false],
        }
    }

    /// The state is consistent: one flag for each depth, a start tag awaits
    /// attributes only where an element is open, and the tokens leave open
    /// exactly the elements that are open.
    pub open spec fn wf(self) -> bool {
        &&& self.breaks.len() == self.open.len() + 1
        &&& self.pending is Some ==> self.open.len() > 0
        &&& residue(self.tokens, Seq::empty()) == Some(self.entered())
    }

    /// The open elements whose start tag is written in full.
    pub open spec fn entered(self) -> Seq<Seq<char>> {
        if self.pending is Some {
            self.open.drop_last()
        } else {
            self.open
        }
    }

    /// The tokens once the start tag that awaits attributes, if any, is completed.
    pub open spec fn settled(self) -> Seq<Token> {
        match self.pending {
            Some(attrs) => self.tokens.push(Token::Start { name: self.open.last(), attrs }),
            None => self.tokens,
        }
    }

    /// The break, if any, before a tag written at depth `depth`, given the flag of the
    /// current depth.
    pub open spec fn line_break(self, depth: nat) -> Seq<Token> {
        if self.breaks.last() {
            seq![Token::Break { depth }]
        } else {
            Seq::empty()
        }
    }

    /// The flags with the flag of the current depth set to `flag`.
    pub open spec fn marked(self, flag: bool) -> Seq<bool> {
        self.breaks.drop_last().push(flag)
    }

    /// The text written so far: the tokens, then the unfinished start tag.
    pub open spec fn text(self) -> Seq<char> {
        match self.pending {
            Some(attrs) => markup(self.tokens) + tag_head(self.open.last(), attrs),
            None => markup(self.tokens),
        }
    }

    /// The view after `open(name)`.
    pub open spec fn after_open(self, name: Seq<char>) -> BuilderView {
        BuilderView {
            tokens: self.settled() + self.line_break(self.open.len()),
            open: self.open.push(name),
            pending: Some(Seq::empty()),
            breaks: self.breaks.push(true),
        }
    }

    /// The view after `attribute(name, value)`, where a start tag awaits attributes.
    pub open spec fn with_attribute(self, name: Seq<char>, value: Seq<char>) -> BuilderView {
        BuilderView { pending: Some(self.pending.unwrap().push(Attr { name, value })), ..self }
    }

    /// The view after `plain_text(text)`.
    pub open spec fn with_chars(self, text: Seq<char>) -> BuilderView {
        BuilderView {
            tokens: self.settled().push(Token::Chars { text }),
            open: self.open,
            pending: None,
            breaks: self.marked(false),
        }
    }

    /// The view after the markup `child` was spliced in.
    pub open spec fn with_child(self, child: Seq<Token>) -> BuilderView {
        BuilderView {
            tokens: self.settled() + child,
            open: self.open,
            pending: None,
            breaks: self.marked(false),
        }
    }

    /// The view after `close()`, where an element is open.
    pub open spec fn after_close(self) -> BuilderView {
        BuilderView {
            tokens: match self.pending {
                Some(attrs) => self.tokens.push(Token::Empty { name: self.open.last(), attrs }),
                None => (self.tokens + self.line_break((self.open.len() - 1) as nat)).push(
                    Token::End { name: self.open.last() },
                ),
            },
            open: self.open.drop_last(),
            pending: None,
            breaks: self.breaks.drop_last().drop_last().push(true),
        }
    }

    /// The view after `close_property()`, where an element is open. Where
    /// nothing at all was written into the element, neither an attribute nor
    /// content, it is closed as a start tag and an end tag; otherwise as
    /// `close()` closes it.
    pub open spec fn after_close_property(self) -> BuilderView {
        match self.pending {
            Some(attrs) if attrs.len() == 0 => BuilderView {
                tokens: self.tokens.push(Token::Start { name: self.open.last(), attrs }).push(
                    Token::End { name: self.open.last() },
                ),
                ..self.after_close()
            },
            _ => self.after_close(),
        }
    }

    /// The view after the declaration was put in front.
    pub open spec fn after_declaration(self) -> BuilderView {
        BuilderView { tokens: seq![Token::Declaration] + self.tokens, ..self }
    }

    /// The view after `text(content, preserve)`: a leaf text element is
    /// written in full, on a line of its own where a tag precedes it.
    pub open spec fn with_text(self, content: Seq<char>, preserve: bool) -> BuilderView {
        BuilderView {
            tokens: self.settled() + self.line_break(self.open.len()) + text_tokens(
                content,
                preserve,
            ),
            open: self.open,
            pending: None,
            breaks: self.marked(true),
        }
    }

    /// The view after all the attributes `attrs` were added in their order.
    pub open spec fn with_attributes(self, attrs: Seq<Attr>) -> BuilderView {
        BuilderView { pending: Some(self.pending.unwrap() + attrs), ..self }
    }
}

/// The namespace prefixes that a root element declares, in this order, and the
/// prefixes that a reader may ignore.
pub open spec fn namespaces() -> Seq<Attr> {
    seq![
        Attr { name: "xmlns:o"@, value: "urn:schemas-microsoft-com:office:office"@ },
        Attr {
            name: "xmlns:r"@,
            value: "http://schemas.openxmlformats.org/officeDocument/2006/relationships"@,
        },
        Attr { name: "xmlns:v"@, value: "urn:schemas-microsoft-com:vml"@ },
        Attr {
            name: "xmlns:w"@,
            value: "http://schemas.openxmlformats.org/wordprocessingml/2006/main"@,
        },
        Attr { name: "xmlns:w10"@, value: "urn:schemas-microsoft-com:office:word"@ },
        Attr {
            name: "xmlns:wp"@,
            value: "http://schemas.openxmlformats.org/drawingml/2006/wordprocessingDrawing"@,
        },
        Attr {
            name: "xmlns:wps"@,
            value: "http://schemas.microsoft.com/office/word/2010/wordprocessingShape"@,
        },
        Attr {
            name: "xmlns:wpg"@,
            value: "http://schemas.microsoft.com/office/word/2010/wordprocessingGroup"@,
        },
        Attr {
            name: "xmlns:mc"@,
            value: "http://schemas.openxmlformats.org/markup-compatibility/2006"@,
        },
        Attr {
            name: "xmlns:wp14"@,
            value: "http://schemas.microsoft.com/office/word/2010/wordprocessingDrawing"@,
        },
        Attr { name: "xmlns:w14"@, value: "http://schemas.microsoft.com/office/word/2010/wordml"@ },
        Attr { name: "mc:Ignorable"@, value: "w14 wp14"@ },
    ]
}

/// The tokens of a leaf text element: `<w:t>`, marked to keep its white space
/// where `preserve` is set, around the text.
pub open spec fn text_tokens(text: Seq<char>, preserve: bool) -> Seq<Token> {
    seq![
        Token::Start {
            name: "w:t"@,
            attrs: if preserve {
                seq![Attr { name: "xml:space"@, value: "preserve"@ }]
            } else {
                Seq::empty()
            },
        },
        Token::Chars { text },
        Token::End { name: "w:t"@ },
    ]
}

/// The markup accumulator. It is used up by `build`.
pub struct XMLBuilder {
    /// The bytes written so far.
    buf: Vec<u8>,
    /// The names of the open elements, outermost first.
    names: Vec<String>,
    /// One flag for depth 0 and one for each open element: whether the next
    /// tag at that depth goes on a line of its own.
    breaks: Vec<bool>,
    /// Whether the start tag of the innermost open element still lacks its
    /// closing bracket.
    pending: bool,
    /// Whether the unfinished start tag holds no attribute yet.
    bare: bool,
    /// The tokens that the bytes spell, without the unfinished start tag.
    tokens: Ghost<Seq<Token>>,
    /// The attributes written into the unfinished start tag.
    attrs: Ghost<Seq<Attr>>,
}

/// The views of the names in `names`.
pub open spec fn name_views(names: Seq<String>) -> Seq<Seq<char>> {
    names.map_values(|s: String| s@)
}

impl View for XMLBuilder {
    type V = BuilderView;

    closed spec fn view(&self) -> BuilderView {
        BuilderView {
            tokens: self.tokens@,
            open: name_views(self.names@),
            pending: if self.pending {
                Some(self.attrs@)
            } else {
                None
            },
            breaks: self.breaks@,
        }
    }
}

/// Appends the encoding of `s` to a buffer that holds the encoding of `text`.
fn write(buf: &mut Vec<u8>, Ghost(text): Ghost<Seq<char>>, s: &str)
    requires
        old(buf)@ == encode_utf8(text),
    ensures
        final(buf)@ == encode_utf8(text + s@),
{
    let ghost before = buf@;
    let bytes = s.as_bytes();
    buf.extend_from_slice(bytes);
    proof {
        lemma_encode_concat(text, s@);
        assert(buf@ =~= before + bytes@);
    }
}

/// Appends a line break and the indentation of `depth` levels.
fn write_break(buf: &mut Vec<u8>, Ghost(text): Ghost<Seq<char>>, depth: usize)
    requires
        old(buf)@ == encode_utf8(text),
    ensures
        final(buf)@ == encode_utf8(text + Token::Break { depth: depth as nat }.text()),
{
    write(buf, Ghost(text), "\n");
    let mut i: usize = 0;
    while i < depth
        invariant
            i <= depth,
            buf@ == encode_utf8(text + ("\n"@ + indent(i as nat))),
        decreases depth - i,
    {
        write(buf, Ghost(text + ("\n"@ + indent(i as nat))), "  ");
        proof {
            assert(text + ("\n"@ + indent(i as nat)) + "  "@ =~= text + ("\n"@ + indent(
                (i + 1) as nat,
            )));
        }
        i = i + 1;
    }
}

impl XMLBuilder {
    /// The buffer holds the encoding of the text that the view stands for,
    /// the view is consistent, and the builder knows whether the unfinished
    /// start tag holds an attribute.
    #[verifier::type_invariant]
    spec fn inv(self) -> bool {
        &&& self.buf@ == encode_utf8(self@.text())
        &&& self@.wf()
        &&& self.pending ==> (self.bare <==> self.attrs@.len() == 0)
    }

    /// A builder that has written nothing.
    pub fn new() -> (b: XMLBuilder)
        ensures
            b@ == BuilderView::empty(),
    {
        let mut breaks: Vec<bool> = Vec::new();
        breaks.push(false);
        proof {
            assert(breaks@ =~= seq![false]);
            assert(name_views(Seq::<String>::empty()) =~= Seq::<Seq<char>>::empty());
            assert(markup(Seq::<Token>::empty()) =~= Seq::<char>::empty());
            assert(encode_utf8(Seq::<char>::empty()) =~= Seq::<u8>::empty());
        }
        XMLBuilder {
            buf: Vec::new(),
            names: Vec::new(),
            breaks,
            pending: false,
            bare: true,
            tokens: Ghost(Seq::empty()),
            attrs: Ghost(Seq::empty()),
        }
    }

    /// Puts the XML declaration line in front of everything written, where `emit` is set.
    pub fn declaration(self, emit: bool) -> (b: XMLBuilder)
        ensures
            b@ == if emit {
                self@.after_declaration()
            } else {
                self@
            },
    {
        if !emit {
            return self;
        }
        proof {
            use_type_invariant(&self);
        }
        let ghost before = self@;
        let XMLBuilder { buf, names, breaks, pending, bare, tokens, attrs } = self;
        let mut out: Vec<u8> = Vec::new();
        let ghost head = Token::Declaration.text();
        proof {
            assert(encode_utf8(Seq::<char>::empty()) =~= Seq::<u8>::empty());
            assert(Seq::<char>::empty() + head =~= head);
        }
        write(
            &mut out,
            Ghost(Seq::empty()),
            "<?xml version=\"1.0\" encoding=\"UTF-8\" standalone=\"yes\"?>\n",
        );
        let ghost first = out@;
        out.extend_from_slice(buf.as_slice());
        let ghost declared = seq![Token::Declaration] + tokens@;
        proof {
            assert(out@ =~= first + buf@);
            lemma_encode_concat(head, before.text());
            lemma_markup_concat(seq![Token::Declaration], tokens@);
            lemma_markup_push(Seq::empty(), Token::Declaration);
            assert(Seq::<Token>::empty().push(Token::Declaration) =~= seq![Token::Declaration]);
            assert(markup(Seq::<Token>::empty()) =~= Seq::<char>::empty());
            assert(markup(seq![Token::Declaration]) =~= head);
            assert(head + before.text() =~= before.after_declaration().text());
            lemma_residue_one(Token::Declaration, Seq::empty());
            lemma_residue_concat(seq![Token::Declaration], tokens@, Seq::empty());
        }
        XMLBuilder { buf: out, names, breaks, pending, bare, tokens: Ghost(declared), attrs }
    }

    /// Opens an element called `name`: it becomes the innermost open element,
    /// and its start tag takes attributes until something else is written.
    pub fn open(self, name: &str) -> (b: XMLBuilder)
        ensures
            b@ == self@.after_open(name@),
    {
        let ghost before = self@;
        let settled = self.settle();
        proof {
            use_type_invariant(&settled);
        }
        let XMLBuilder { mut buf, mut names, mut breaks, pending, bare, tokens, attrs } = settled;
        let ghost mut text = markup(tokens@);
        let depth = names.len();
        if breaks[breaks.len() - 1] {
            let ghost line = Token::Break { depth: depth as nat };
            write_break(&mut buf, Ghost(text), depth);
            proof {
                lemma_markup_push(tokens@, line);
                text = text + line.text();
                lemma_residue_concat(tokens@, seq![line], Seq::empty());
                lemma_residue_one(line, before.open);
                assert(tokens@.push(line) =~= tokens@ + before.line_break(depth as nat));
            }
        } else {
            assert(tokens@ + before.line_break(depth as nat) =~= tokens@);
        }
        write(&mut buf, Ghost(text), "<");
        write(&mut buf, Ghost(text + "<"@), name);
        names.push(name.to_owned());
        breaks.push(true);
        proof {
            assert(name_views(names@) =~= before.open.push(name@));
            assert(name_views(names@).drop_last() =~= before.open);
            assert(text + "<"@ + name@ =~= text + tag_head(name@, Seq::empty()));
        }
        XMLBuilder {
            buf,
            names,
            breaks,
            pending: true,
            bare: true,
            tokens: Ghost(tokens@ + before.line_break(depth as nat)),
            attrs: Ghost(Seq::empty()),
        }
    }

    /// Adds ` name="value"` to the start tag of the innermost open element.
    /// The value is written as given, without escaping: the caller supplies
    /// text that may stand between double quotes.
    pub fn attribute(self, name: &str, value: &str) -> (b: XMLBuilder)
        requires
            self@.pending is Some,
        ensures
            b@ == self@.with_attribute(name@, value@),
    {
        proof {
            use_type_invariant(&self);
        }
        let ghost before = self@;
        let XMLBuilder { mut buf, names, breaks, pending, bare, tokens, attrs } = self;
        let ghost text = before.text();
        write(&mut buf, Ghost(text), " ");
        write(&mut buf, Ghost(text + " "@), name);
        write(&mut buf, Ghost(text + " "@ + name@), "=\"");
        write(&mut buf, Ghost(text + " "@ + name@ + "=\""@), value);
        write(&mut buf, Ghost(text + " "@ + name@ + "=\""@ + value@), "\"");
        let ghost attr = Attr { name: name@, value: value@ };
        proof {
            lemma_attrs_text_push(attrs@, attr);
            assert(text + " "@ + name@ + "=\""@ + value@ + "\""@ =~= before.with_attribute(
                name@,
                value@,
            ).text());
        }
        XMLBuilder {
            buf,
            names,
            breaks,
            pending,
            bare: false,
            tokens,
            attrs: Ghost(attrs@.push(attr)),
        }
    }

    /// Completes the start tag that awaits attributes, if there is one.
    fn settle(self) -> (b: XMLBuilder)
        ensures
            b@ == (BuilderView { tokens: self@.settled(), pending: None, ..self@ }),
    {
        proof {
            use_type_invariant(&self);
        }
        let ghost before = self@;
        let XMLBuilder { mut buf, names, breaks, pending, bare, tokens, attrs } = self;
        if pending {
            let ghost start = Token::Start { name: before.open.last(), attrs: attrs@ };
            write(&mut buf, Ghost(before.text()), ">");
            proof {
                lemma_markup_push(tokens@, start);
                lemma_residue_concat(tokens@, seq![start], Seq::empty());
                lemma_residue_one(start, before.entered());
                assert(tokens@ + seq![start] =~= before.settled());
                assert(before.open.drop_last().push(before.open.last()) =~= before.open);
                assert(before.text() + ">"@ =~= markup(before.settled()));
            }
        }
        XMLBuilder {
            buf,
            names,
            breaks,
            pending: false,
            bare: true,
            tokens: Ghost(before.settled()),
            attrs: Ghost(Seq::empty()),
        }
    }

    /// Sets the flag of the current depth.
    fn mark(self, flag: bool) -> (b: XMLBuilder)
        ensures
            b@ == (BuilderView { breaks: self@.marked(flag), ..self@ }),
    {
        proof {
            use_type_invariant(&self);
        }
        let XMLBuilder { buf, names, mut breaks, pending, bare, tokens, attrs } = self;
        let ghost old_breaks = breaks@;
        breaks.pop();
        breaks.push(flag);
        proof {
            assert(breaks@ =~= old_breaks.drop_last().push(flag));
        }
        XMLBuilder { buf, names, breaks, pending, bare, tokens, attrs }
    }

    /// Writes character data inside the innermost open element, as given.
    pub fn plain_text(self, text: &str) -> (b: XMLBuilder)
        ensures
            b@ == self@.with_chars(text@),
    {
        let ghost before = self@;
        let settled = self.settle().mark(false);
        proof {
            use_type_invariant(&settled);
        }
        let XMLBuilder { mut buf, names, breaks, pending, bare, tokens, attrs } = settled;
        write(&mut buf, Ghost(markup(tokens@)), text);
        let ghost token = Token::Chars { text: text@ };
        proof {
            lemma_markup_push(tokens@, token);
            lemma_residue_concat(tokens@, seq![token], Seq::empty());
            lemma_residue_one(token, before.open);
            assert(tokens@ + seq![token] =~= tokens@.push(token));
        }
        XMLBuilder { buf, names, breaks, pending, bare, tokens: Ghost(tokens@.push(token)), attrs }
    }

    /// Splices the rendered markup of `child` in place, inside the innermost open element.
    pub fn add_child<T: BuildXML>(self, child: &T) -> (b: XMLBuilder)
        ensures
            b@ == self@.with_child(child.tokens()),
    {
        let ghost before = self@;
        let settled = self.settle().mark(false);
        proof {
            use_type_invariant(&settled);
        }
        let XMLBuilder { mut buf, names, breaks, pending, bare, tokens, attrs } = settled;
        let bytes = child.build();
        let ghost first = buf@;
        buf.extend_from_slice(bytes.as_slice());
        proof {
            assert(buf@ =~= first + bytes@);
            lemma_markup_concat(tokens@, child.tokens());
            lemma_encode_concat(markup(tokens@), markup(child.tokens()));
            child.lemma_balanced();
            lemma_balanced_frame(child.tokens(), before.open);
            lemma_residue_concat(tokens@, child.tokens(), Seq::empty());
        }
        XMLBuilder {
            buf,
            names,
            breaks,
            pending,
            bare,
            tokens: Ghost(tokens@ + child.tokens()),
            attrs,
        }
    }

    /// Splices the rendered markup of `child` in place where there is a child.
    /// Without one nothing is written.
    pub fn add_optional_child<T: BuildXML>(self, child: &Option<T>) -> (b: XMLBuilder)
        ensures
            b@ == match child {
                Some(c) => self@.with_child(c.tokens()),
                None => self@,
            },
    {
        match child {
            Some(c) => self.add_child(c),
            None => self,
        }
    }

    /// Splices the rendered markup of each of the children in place, in their
    /// order. Without children nothing is written.
    pub fn add_children<T: BuildXML>(self, children: &Vec<T>) -> (b: XMLBuilder)
        ensures
            b@ == if children@.len() == 0 {
                self@
            } else {
                self@.with_child(flatten(children_tokens(children@)))
            },
    {
        let ghost before = self@;
        let ghost parts = children_tokens(children@);
        let mut b = self;
        let mut i: usize = 0;
        while i < children.len()
            invariant
                i <= children@.len(),
                parts == children_tokens(children@),
                b@ == if i == 0 {
                    before
                } else {
                    before.with_child(flatten(parts.take(i as int)))
                },
            decreases children@.len() - i,
        {
            let ghost prior = b@;
            b = b.add_child(&children[i]);
            proof {
                lemma_flatten_take(parts, i as int);
                let done = flatten(parts.take(i as int));
                let next = before.with_child(done + parts[i as int]);
                if i == 0 {
                    lemma_flatten_none(parts.take(0));
                    assert(done + parts[0] =~= parts[0]);
                } else {
                    assert(prior.settled() + parts[i as int] =~= next.tokens);
                    assert(prior.marked(false) =~= next.breaks);
                }
                assert(b@ == next);
            }
            i = i + 1;
        }
        proof {
            assert(parts.take(parts.len() as int) =~= parts);
        }
        b
    }

    /// Closes the innermost open element: with ` />` where nothing was written
    /// inside it, with its end tag otherwise.
    pub fn close(self) -> (b: XMLBuilder)
        requires
            self@.open.len() > 0,
        ensures
            b@ == self@.after_close(),
    {
        proof {
            use_type_invariant(&self);
        }
        let ghost before = self@;
        let XMLBuilder { mut buf, mut names, mut breaks, pending, bare, tokens, attrs } = self;
        let ghost old_breaks = breaks@;
        let ghost old_names = names@;
        let depth = names.len() - 1;
        let last = breaks[breaks.len() - 1];
        let name = names.pop().unwrap();
        breaks.pop();
        breaks.pop();
        breaks.push(true);
        let ghost after: Seq<Token>;
        proof {
            assert(name@ == before.open.last());
            assert(breaks@ =~= old_breaks.drop_last().drop_last().push(true));
            assert(name_views(names@) =~= before.open.drop_last());
        }
        if pending {
            write(&mut buf, Ghost(before.text()), " />");
            let ghost token = Token::Empty { name: name@, attrs: attrs@ };
            proof {
                after = tokens@.push(token);
                lemma_markup_push(tokens@, token);
                assert(before.text() + " />"@ =~= markup(tokens@) + token.text());
                lemma_residue_concat(tokens@, seq![token], Seq::empty());
                lemma_residue_one(token, before.entered());
                assert(tokens@ + seq![token] =~= after);
            }
        } else {
            let ghost mut text = before.text();
            let ghost mut written = tokens@;
            if last {
                write_break(&mut buf, Ghost(text), depth);
                let ghost token = Token::Break { depth: depth as nat };
                proof {
                    lemma_markup_push(tokens@, token);
                    text = text + token.text();
                    written = tokens@.push(token);
                    lemma_residue_concat(tokens@, seq![token], Seq::empty());
                    lemma_residue_one(token, before.open);
                    assert(tokens@ + seq![token] =~= written);
                    assert(written =~= tokens@ + before.line_break(depth as nat));
                }
            } else {
                assert(written =~= tokens@ + before.line_break(depth as nat));
            }
            write(&mut buf, Ghost(text), "</");
            write(&mut buf, Ghost(text + "</"@), name.as_str());
            write(&mut buf, Ghost(text + "</"@ + name@), ">");
            let ghost token = Token::End { name: name@ };
            proof {
                after = written.push(token);
                lemma_markup_push(written, token);
                assert(text == markup(written));
                assert(text + "</"@ + name@ + ">"@ =~= text + token.text());
                assert(residue(written, Seq::empty()) == Some(before.open));
                lemma_residue_concat(written, seq![token], Seq::empty());
                lemma_residue_one(token, before.open);
                assert(written + seq![token] =~= after);
            }
        }
        XMLBuilder {
            buf,
            names,
            breaks,
            pending: false,
            bare: true,
            tokens: Ghost(after),
            attrs: Ghost(Seq::empty()),
        }
    }

    /// Closes the innermost open element as a property object is closed: a
    /// property object is never written as ` />` where nothing is set in it.
    /// Without attributes and without content it is closed by its end tag,
    /// directly behind its start tag; with either, as `close` closes it.
    pub fn close_property(self) -> (b: XMLBuilder)
        requires
            self@.open.len() > 0,
        ensures
            b@ == self@.after_close_property(),
    {
        proof {
            use_type_invariant(&self);
        }
        if self.pending && self.bare {
            let ghost before = self@;
            let b = self.settle().mark(false).close();
            proof {
                let goal = before.after_close_property();
                assert(b@.tokens =~= goal.tokens);
                assert(b@.breaks =~= goal.breaks);
            }
            b
        } else {
            self.close()
        }
    }

    /// Writes a leaf text element around `content`. With `preserve_whitespace`
    /// the element is marked so that a reader keeps the white space at the
    /// ends of the text.
    pub fn text(self, content: &str, preserve_whitespace: bool) -> (b: XMLBuilder)
        ensures
            b@ == self@.with_text(content@, preserve_whitespace),
    {
        proof {
            use_type_invariant(&self);
        }
        let ghost before = self@;
        let mut b = self.open("w:t");
        if preserve_whitespace {
            b = b.attribute("xml:space", "preserve");
        }
        b = b.plain_text(content).close();
        proof {
            let base = before.settled() + before.line_break(before.open.len());
            assert(b@.tokens =~= base + text_tokens(content@, preserve_whitespace));
            assert(b@.open =~= before.open);
            assert(b@.breaks =~= before.marked(true));
        }
        b
    }

    /// Adds the namespace declarations of a root element to the start tag
    /// that awaits attributes: all of them, in their fixed order.
    pub fn namespaces(self) -> (b: XMLBuilder)
        requires
            self@.pending is Some,
        ensures
            b@ == self@.with_attributes(namespaces()),
    {
        let ghost before = self@;
        let b = self.attribute("xmlns:o", "urn:schemas-microsoft-com:office:office").attribute(
            "xmlns:r",
            "http://schemas.openxmlformats.org/officeDocument/2006/relationships",
        ).attribute("xmlns:v", "urn:schemas-microsoft-com:vml").attribute(
            "xmlns:w",
            "http://schemas.openxmlformats.org/wordprocessingml/2006/main",
        ).attribute("xmlns:w10", "urn:schemas-microsoft-com:office:word").attribute(
            "xmlns:wp",
            "http://schemas.openxmlformats.org/drawingml/2006/wordprocessingDrawing",
        ).attribute(
            "xmlns:wps",
            "http://schemas.microsoft.com/office/word/2010/wordprocessingShape",
        ).attribute(
            "xmlns:wpg",
            "http://schemas.microsoft.com/office/word/2010/wordprocessingGroup",
        ).attribute(
            "xmlns:mc",
            "http://schemas.openxmlformats.org/markup-compatibility/2006",
        ).attribute(
            "xmlns:wp14",
            "http://schemas.microsoft.com/office/word/2010/wordprocessingDrawing",
        ).attribute("xmlns:w14", "http://schemas.microsoft.com/office/word/2010/wordml").attribute(
            "mc:Ignorable",
            "w14 wp14",
        );
        proof {
            assert(b@.pending.unwrap() =~= before.pending.unwrap() + namespaces());
        }
        b
    }

    /// Opens the root element of a document, with the full namespace table.
    pub fn open_root(self) -> (b: XMLBuilder)
        ensures
            b@ == self@.after_open("w:document"@).with_attributes(namespaces()),
    {
        self.open("w:document").namespaces()
    }

    /// Ends the builder's work and hands out the bytes written: the encoding
    /// of the builder's text.
    pub fn build(self) -> (bytes: Vec<u8>)
        ensures
            bytes@ == encode_utf8(self@.text()),
            self@.pending is None ==> bytes@ == xml_bytes(self@.tokens),
            self@.open.len() == 0 ==> balanced(self@.tokens),
    {
        proof {
            use_type_invariant(&self);
            if self@.open.len() == 0 {
                assert(self@.entered() =~= Seq::<Seq<char>>::empty());
            }
        }
        self.buf
    }
}

} // verus!
