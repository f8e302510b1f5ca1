//! The `html!` template language: its syntax tree, the parser that reads it
//! from the macro's input tokens, and the short text each node stands for.
//!
//! The parser reads a flat list of token trees the way the macro's parse
//! stream does: every sub-parser that fails may already have consumed tokens,
//! and the node parser tries its alternatives (block, comment, doctype,
//! element, fragment, text) from wherever the previous attempt stopped.

use vstd::prelude::*;
use vstd::std_specs::convert::FromSpecImpl;
use crate::text::{join, views, ends_with, is_ascii_text};
use crate::tokens::{TokenTree, Delimiter, token_text, is_punct, is_group};

verus! {

// ---------------------------------------------------------------------------
// Outside facts

/// Whether `c` has the Unicode `Uppercase` property.
pub uninterp spec fn unicode_is_uppercase(c: char) -> bool;

/// `char::is_uppercase`: true for characters with the Unicode `Uppercase`
/// property, among them the ASCII capitals and none of the ASCII small letters.
#[verifier::external_body]
pub(crate) fn is_uppercase(c: char) -> (r: bool)
    ensures
        r == unicode_is_uppercase(c),
        ('A' <= c && c <= 'Z') ==> r,
        ('a' <= c && c <= 'z') ==> !r,
        (c as u32) < 128 ==> (r <==> ('A' <= c && c <= 'Z')),
{
    c.is_uppercase()
}

/// Whether a character is uppercase as `char::is_uppercase` says: among
/// ASCII characters exactly `A` to `Z`.
pub open spec fn is_upper_char(c: char) -> bool {
    if (c as u32) < 128 { 'A' <= c && c <= 'Z' } else { unicode_is_uppercase(c) }
}

/// The names that the identifier parser refuses: `_` and the Rust keywords.
pub open spec fn is_reserved_name(s: Seq<char>) -> bool {
    s == "_"@ || s == "abstract"@ || s == "as"@ || s == "become"@ || s == "box"@
        || s == "break"@ || s == "const"@ || s == "continue"@ || s == "crate"@ || s == "do"@
        || s == "else"@ || s == "enum"@ || s == "extern"@ || s == "false"@ || s == "final"@
        || s == "fn"@ || s == "for"@ || s == "if"@ || s == "impl"@ || s == "in"@ || s == "let"@
        || s == "loop"@ || s == "macro"@ || s == "match"@ || s == "mod"@ || s == "move"@
        || s == "mut"@ || s == "override"@ || s == "priv"@ || s == "pub"@ || s == "ref"@
        || s == "return"@ || s == "Self"@ || s == "self"@ || s == "static"@ || s == "struct"@
        || s == "super"@ || s == "trait"@ || s == "true"@ || s == "type"@ || s == "typeof"@
        || s == "unsafe"@ || s == "unsized"@ || s == "use"@ || s == "virtual"@ || s == "where"@
        || s == "while"@ || s == "yield"@
}

// ---------------------------------------------------------------------------
// Syntax tree

/// A literal attribute value.
#[derive(Clone, Copy, PartialEq, Eq, Structural, Debug)]
pub enum Lit {
    /// The literal token at this position of the input.
    Token(usize),
    /// `true` or `false`, written or implied by a bare attribute key.
    Bool(bool),
    /// `-` followed by the numeric literal at this position of the input.
    Negative(usize),
}

/// The value of an attribute.
#[derive(Clone, Copy, PartialEq, Eq, Structural, Debug)]
pub enum AttributeValue {
    /// The brace-delimited block at this position of the input.
    Block(usize),
    /// A literal.
    Lit(Lit),
}

/// `key-extended-... = value`.
#[derive(Debug)]
pub struct AttributeKeyValue {
    pub extended: Vec<String>,
    pub key: String,
    pub value: AttributeValue,
}

/// An attribute of an element.
#[derive(Debug)]
pub enum Attribute {
    /// A block of attribute code: the brace group at this position of the input.
    Block(usize),
    /// A key and a value.
    KeyValue(AttributeKeyValue),
}

/// The attributes of an element, in source order.
#[derive(Debug)]
pub struct Attributes {
    pub attrs: Vec<Attribute>,
}

/// The name of an element: identifiers joined by `-`.
#[derive(Debug)]
pub struct TagName {
    pub name: String,
}

/// A brace-delimited block of Rust code placed among the nodes.
#[derive(Debug)]
pub struct HtmlBlock {
    /// Position of the block's brace group in the input.
    pub token_index: usize,
    /// The printed text of that group.
    pub text: String,
}

/// The children of an element or fragment.
#[derive(Debug)]
pub struct Children {
    pub nodes: Vec<Node>,
    pub render_fragment: bool,
}

/// `<!-- node -->`.
#[derive(Debug)]
pub struct HtmlComment {
    pub comment: Box<Node>,
}

/// `<!doctype html> node`.
#[derive(Debug)]
pub enum HtmlDoctype {
    Html5(Box<Node>),
}

/// A plain element (its name does not start with a capital).
#[derive(Debug)]
pub struct HtmlElement {
    pub attributes: Attributes,
    pub children: Children,
    pub name: TagName,
}

/// An element whose name starts with a capital: a custom element.
#[derive(Debug)]
pub struct HtmlCustomElement {
    pub attributes: Attributes,
    pub children: Children,
    pub name: String,
}

/// An element whose capitalised name ends with `Partial` or `Page`.
#[derive(Debug)]
pub struct HtmlPartial {
    pub attributes: Attributes,
    pub children: Children,
    pub name: String,
}

/// `<> children </>`.
#[derive(Debug)]
pub struct HtmlFragment {
    pub children: Children,
    pub is_top_level: bool,
}

/// A run of text tokens, joined by single spaces.
#[derive(Debug)]
pub struct HtmlText {
    pub text: String,
}

/// A node of the template.
#[derive(Debug)]
pub enum Node {
    Block(HtmlBlock),
    Comment(HtmlComment),
    CustomElement(HtmlCustomElement),
    Doctype(HtmlDoctype),
    Element(HtmlElement),
    Fragment(HtmlFragment),
    Partial(HtmlPartial),
    Text(HtmlText),
}

// ---------------------------------------------------------------------------
// Views

pub struct AttributeKeyValueV {
    pub extended: Seq<Seq<char>>,
    pub key: Seq<char>,
    pub value: AttributeValue,
}

pub enum AttributeV {
    Block(int),
    KeyValue(AttributeKeyValueV),
}

pub struct ChildrenV {
    pub nodes: Seq<NodeV>,
    pub render_fragment: bool,
}

/// An element, custom element or partial: attributes, children and name.
pub struct ElementV {
    pub attributes: Seq<AttributeV>,
    pub children: ChildrenV,
    pub name: Seq<char>,
}

/// The mathematical view of a node.
pub enum NodeV {
    Block { index: int, text: Seq<char> },
    Comment(Box<NodeV>),
    CustomElement(ElementV),
    Doctype(Box<NodeV>),
    Element(ElementV),
    Fragment { children: ChildrenV, is_top_level: bool },
    Partial(ElementV),
    Text(Seq<char>),
}

pub open spec fn attribute_view(a: Attribute) -> AttributeV {
    match a {
        Attribute::Block(i) => AttributeV::Block(i as int),
        Attribute::KeyValue(kv) => AttributeV::KeyValue(AttributeKeyValueV {
            extended: views(kv.extended@),
            key: kv.key@,
            value: kv.value,
        }),
    }
}

pub open spec fn attributes_view(a: Attributes) -> Seq<AttributeV> {
    a.attrs.deep_view()
}

impl DeepView for Lit {
    type V = Lit;

    open spec fn deep_view(&self) -> Lit {
        *self
    }
}

impl DeepView for AttributeValue {
    type V = AttributeValue;

    open spec fn deep_view(&self) -> AttributeValue {
        *self
    }
}

impl DeepView for Attribute {
    type V = AttributeV;

    open spec fn deep_view(&self) -> AttributeV {
        attribute_view(*self)
    }
}

impl DeepView for Node {
    type V = NodeV;

    open spec fn deep_view(&self) -> NodeV {
        node_view(*self)
    }
}

impl DeepView for Children {
    type V = ChildrenV;

    open spec fn deep_view(&self) -> ChildrenV {
        ChildrenV { nodes: nodes_view(self.nodes@), render_fragment: self.render_fragment }
    }
}

impl DeepView for AttributeKeyValue {
    type V = AttributeKeyValueV;

    open spec fn deep_view(&self) -> AttributeKeyValueV {
        AttributeKeyValueV { extended: views(self.extended@), key: self.key@, value: self.value }
    }
}

pub open spec fn node_view(n: Node) -> NodeV
    decreases n,
{
    match n {
        Node::Block(b) => NodeV::Block { index: b.token_index as int, text: b.text@ },
        Node::Comment(c) => NodeV::Comment(Box::new(node_view(*c.comment))),
        Node::CustomElement(e) => NodeV::CustomElement(ElementV {
            attributes: attributes_view(e.attributes),
            children: ChildrenV { nodes: nodes_view(e.children.nodes@), render_fragment: e.children.render_fragment },
            name: e.name@,
        }),
        Node::Doctype(HtmlDoctype::Html5(c)) => NodeV::Doctype(Box::new(node_view(*c))),
        Node::Element(e) => NodeV::Element(ElementV {
            attributes: attributes_view(e.attributes),
            children: ChildrenV { nodes: nodes_view(e.children.nodes@), render_fragment: e.children.render_fragment },
            name: e.name.name@,
        }),
        Node::Fragment(f) => NodeV::Fragment {
            children: ChildrenV { nodes: nodes_view(f.children.nodes@), render_fragment: f.children.render_fragment },
            is_top_level: f.is_top_level,
        },
        Node::Partial(e) => NodeV::Partial(ElementV {
            attributes: attributes_view(e.attributes),
            children: ChildrenV { nodes: nodes_view(e.children.nodes@), render_fragment: e.children.render_fragment },
            name: e.name@,
        }),
        Node::Text(t) => NodeV::Text(t.text@),
    }
}

pub open spec fn nodes_view(s: Seq<Node>) -> Seq<NodeV>
    decreases s,
{
    if s.len() == 0 {
        Seq::empty()
    } else {
        nodes_view(s.subrange(0, s.len() - 1)).push(node_view(s[s.len() - 1]))
    }
}

} // verus!

verus! {

// ---------------------------------------------------------------------------
// Parser specification

/// Why a template failed to parse.
#[derive(Clone, Copy, PartialEq, Eq, Structural, Debug)]
pub enum ParseErrorKind {
    /// This punctuation character was expected.
    ExpectedPunct(char),
    /// An identifier (not a keyword) was expected.
    ExpectedIdent,
    /// A literal was expected.
    ExpectedLiteral,
    /// A brace-delimited block was expected.
    ExpectedBlock,
    /// A brace group that does not hold Rust statements.
    InvalidBlock,
    /// `<!-` was expected.
    ExpectedComment,
    /// `<!` was expected.
    ExpectedDoctype,
    /// `<>` was expected.
    ExpectedFragment,
    /// Text was expected, not `<` or a block.
    ExpectedText,
    /// The closing tag names another element than the opening tag.
    ClosingTagMismatch,
    /// No kind of node starts here.
    ExpectedHtmlNode,
    /// Tokens are left after the template.
    UnexpectedToken,
}

/// The message a parse error is reported with.
pub open spec fn parse_error_message(k: ParseErrorKind) -> Seq<char> {
    match k {
        ParseErrorKind::ExpectedPunct(c) => "expected `"@ + seq![c] + "`"@,
        ParseErrorKind::ExpectedIdent => "expected identifier"@,
        ParseErrorKind::ExpectedLiteral => "expected literal"@,
        ParseErrorKind::ExpectedBlock => "expected curly braces"@,
        ParseErrorKind::InvalidBlock => "expected a block of statements"@,
        ParseErrorKind::ExpectedComment => "expected comment"@,
        ParseErrorKind::ExpectedDoctype => "expected <!DOCTYPE html>"@,
        ParseErrorKind::ExpectedFragment => "expected <...>"@,
        ParseErrorKind::ExpectedText => "Expected text"@,
        ParseErrorKind::ClosingTagMismatch => "closing tag does not match opening tag"@,
        ParseErrorKind::ExpectedHtmlNode => "expected html node"@,
        ParseErrorKind::UnexpectedToken => "unexpected token"@,
    }
}

impl ParseErrorKind {
    /// The message this error is reported with.
    pub fn message(&self) -> (r: String)
        ensures
            r@ == parse_error_message(*self),
    {
        match self {
            ParseErrorKind::ExpectedPunct(c) => {
                let mut s = String::from_str("expected `");
                crate::text::push_char(&mut s, *c);
                s.append("`");
                s
            },
            ParseErrorKind::ExpectedIdent => String::from_str("expected identifier"),
            ParseErrorKind::ExpectedLiteral => String::from_str("expected literal"),
            ParseErrorKind::ExpectedBlock => String::from_str("expected curly braces"),
            ParseErrorKind::InvalidBlock => String::from_str("expected a block of statements"),
            ParseErrorKind::ExpectedComment => String::from_str("expected comment"),
            ParseErrorKind::ExpectedDoctype => String::from_str("expected <!DOCTYPE html>"),
            ParseErrorKind::ExpectedFragment => String::from_str("expected <...>"),
            ParseErrorKind::ExpectedText => String::from_str("Expected text"),
            ParseErrorKind::ClosingTagMismatch => String::from_str("closing tag does not match opening tag"),
            ParseErrorKind::ExpectedHtmlNode => String::from_str("expected html node"),
            ParseErrorKind::UnexpectedToken => String::from_str("unexpected token"),
        }
    }
}

/// A failed parse: why, the token position the error is reported at, and
/// the position the input had been consumed to.
#[derive(Clone, Copy, PartialEq, Eq, Structural, Debug)]
pub struct ParseFailure {
    pub kind: ParseErrorKind,
    pub at: usize,
    pub pos: usize,
}

/// The result of a parse in the specification: a value and the position
/// after it, or an error kind, the position it is reported at and the
/// position the input was consumed to.
pub enum PR<V> {
    Done(V, int),
    Fail(ParseErrorKind, int, int),
}

pub open spec fn clamp(q: int, lo: int, hi: int) -> int {
    if q < lo { lo } else if q > hi { hi } else { q }
}

pub open spec fn punct_at(t: Seq<TokenTree>, p: int, c: char) -> bool {
    0 <= p < t.len() && is_punct(t[p], c)
}

pub open spec fn brace_at(t: Seq<TokenTree>, p: int) -> bool {
    0 <= p < t.len() && is_group(t[p], Delimiter::Brace)
}

/// An identifier that the identifier parser accepts (not a keyword).
pub open spec fn ident_at(t: Seq<TokenTree>, p: int) -> bool {
    0 <= p < t.len() && (t[p] matches TokenTree::Ident(s) && !is_reserved_name(s@))
}

/// Any identifier, keywords included.
pub open spec fn any_ident_at(t: Seq<TokenTree>, p: int) -> bool {
    0 <= p < t.len() && t[p] is Ident
}

pub open spec fn ident_is(t: Seq<TokenTree>, p: int, name: Seq<char>) -> bool {
    0 <= p < t.len() && (t[p] matches TokenTree::Ident(s) && s@ == name)
}

pub open spec fn is_ascii_digit(c: char) -> bool {
    '0' <= c && c <= '9'
}

/// Whether the brace group at position `p` was read as a block of
/// statements: `ok` holds that verdict for each position of the input.
pub open spec fn block_ok(ok: Seq<bool>, p: int) -> bool {
    0 <= p < ok.len() && ok[p]
}

/// A brace-delimited block of statements.
pub open spec fn block_p(t: Seq<TokenTree>, ok: Seq<bool>, p: int) -> PR<usize> {
    if brace_at(t, p) {
        if block_ok(ok, p) {
            PR::Done(p as usize, p + 1)
        } else {
            PR::Fail(ParseErrorKind::InvalidBlock, p, p + 1)
        }
    } else {
        PR::Fail(ParseErrorKind::ExpectedBlock, p, p)
    }
}

/// `-` followed by a literal that starts with a digit.
pub open spec fn negative_lit_at(t: Seq<TokenTree>, p: int) -> bool {
    punct_at(t, p, '-') && p + 1 < t.len()
        && (t[p + 1] matches TokenTree::Literal(l) && l@.len() > 0 && is_ascii_digit(l@[0]))
}

/// A literal: a literal token, `true`/`false`, or `-` before a numeric literal.
pub open spec fn lit_p(t: Seq<TokenTree>, p: int) -> PR<Lit> {
    if 0 <= p < t.len() && t[p] is Literal {
        PR::Done(Lit::Token(p as usize), p + 1)
    } else if ident_is(t, p, "true"@) {
        PR::Done(Lit::Bool(true), p + 1)
    } else if ident_is(t, p, "false"@) {
        PR::Done(Lit::Bool(false), p + 1)
    } else if negative_lit_at(t, p) {
        PR::Done(Lit::Negative((p + 1) as usize), p + 2)
    } else {
        PR::Fail(ParseErrorKind::ExpectedLiteral, p, p)
    }
}

/// An attribute value: a block, or else a literal.
pub open spec fn value_p(t: Seq<TokenTree>, ok: Seq<bool>, p: int) -> PR<AttributeValue> {
    if brace_at(t, p) {
        match block_p(t, ok, p) {
            PR::Done(i, q) => PR::Done(AttributeValue::Block(i), q),
            PR::Fail(k, a, q) => PR::Fail(k, a, q),
        }
    } else {
        match lit_p(t, p) {
            PR::Done(l, q) => PR::Done(AttributeValue::Lit(l), q),
            PR::Fail(k, a, q) => PR::Fail(k, a, q),
        }
    }
}

pub open spec fn ident_name(t: Seq<TokenTree>, p: int) -> Seq<char> {
    match t[p] {
        TokenTree::Ident(s) => s@,
        _ => Seq::empty(),
    }
}

/// An identifier that is not a keyword.
pub open spec fn ident_p(t: Seq<TokenTree>, p: int) -> PR<Seq<char>> {
    if ident_at(t, p) {
        PR::Done(ident_name(t, p), p + 1)
    } else {
        PR::Fail(ParseErrorKind::ExpectedIdent, p, p)
    }
}

/// `- ident` repeated, appending each identifier to `acc`.
pub open spec fn dash_idents_p(t: Seq<TokenTree>, q: int, acc: Seq<Seq<char>>) -> PR<Seq<Seq<char>>>
    decreases t.len() - q,
{
    if q < 0 || q >= t.len() {
        PR::Done(acc, q)
    } else if punct_at(t, q, '-') {
        match ident_p(t, q + 1) {
            PR::Done(s, r) => dash_idents_p(t, r, acc.push(s)),
            PR::Fail(k, a, c) => PR::Fail(k, a, c),
        }
    } else {
        PR::Done(acc, q)
    }
}

/// The key of a key-value attribute and its `-`-separated extensions.
pub open spec fn key_p(t: Seq<TokenTree>, p: int) -> PR<(Seq<char>, Seq<Seq<char>>)> {
    if ident_is(t, p, "type"@) {
        PR::Done(("type"@, Seq::empty()), p + 1)
    } else if ident_is(t, p, "for"@) {
        PR::Done(("for"@, Seq::empty()), p + 1)
    } else if ident_at(t, p) && punct_at(t, p + 1, '-') {
        match dash_idents_p(t, p + 1, Seq::empty()) {
            PR::Done(ext, q) => PR::Done((ident_name(t, p), ext), q),
            PR::Fail(k, a, c) => PR::Fail(k, a, c),
        }
    } else {
        match ident_p(t, p) {
            PR::Done(k, q) => PR::Done((k, Seq::empty()), q),
            PR::Fail(k, a, c) => PR::Fail(k, a, c),
        }
    }
}

/// `key`, `key = value`; a bare key stands for `key = true`.
pub open spec fn key_value_p(t: Seq<TokenTree>, ok: Seq<bool>, p: int) -> PR<AttributeKeyValueV> {
    match key_p(t, p) {
        PR::Done((key, ext), q) => if punct_at(t, q, '=') {
            match value_p(t, ok, q + 1) {
                PR::Done(v, r) => PR::Done(AttributeKeyValueV { extended: ext, key, value: v }, r),
                PR::Fail(k, a, c) => PR::Fail(k, a, c),
            }
        } else {
            PR::Done(AttributeKeyValueV { extended: ext, key, value: AttributeValue::Lit(Lit::Bool(true)) }, q)
        },
        PR::Fail(k, a, c) => PR::Fail(k, a, c),
    }
}

/// One attribute: a key-value pair when an identifier comes next, else a block.
pub open spec fn attribute_p(t: Seq<TokenTree>, ok: Seq<bool>, p: int) -> PR<AttributeV> {
    if any_ident_at(t, p) {
        match key_value_p(t, ok, p) {
            PR::Done(kv, q) => PR::Done(AttributeV::KeyValue(kv), q),
            PR::Fail(k, a, c) => PR::Fail(k, a, c),
        }
    } else {
        match block_p(t, ok, p) {
            PR::Done(i, q) => PR::Done(AttributeV::Block(i as int), q),
            PR::Fail(k, a, c) => PR::Fail(k, a, c),
        }
    }
}

/// Attributes, while an identifier or a brace group comes next.
pub open spec fn attributes_p(t: Seq<TokenTree>, ok: Seq<bool>, p: int, acc: Seq<AttributeV>) -> PR<Seq<AttributeV>>
    decreases t.len() - p,
{
    if p < 0 || p >= t.len() {
        PR::Done(acc, p)
    } else if any_ident_at(t, p) || brace_at(t, p) {
        match attribute_p(t, ok, p) {
            PR::Done(a, q) => if p < q <= t.len() {
                attributes_p(t, ok, q, acc.push(a))
            } else {
                PR::Done(acc.push(a), q)
            },
            PR::Fail(k, a, c) => PR::Fail(k, a, c),
        }
    } else {
        PR::Done(acc, p)
    }
}

/// An element name: identifiers joined by `-`.
pub open spec fn tag_name_p(t: Seq<TokenTree>, p: int) -> PR<Seq<char>> {
    match ident_p(t, p) {
        PR::Done(first, q) => match dash_idents_p(t, q, seq![first]) {
            PR::Done(parts, r) => PR::Done(join(parts, "-"@), r),
            PR::Fail(k, a, c) => PR::Fail(k, a, c),
        },
        PR::Fail(k, a, c) => PR::Fail(k, a, c),
    }
}

/// The tokens of a text run, up to `<`, a brace group or the end.
pub open spec fn text_run(t: Seq<TokenTree>, p: int, acc: Seq<Seq<char>>) -> (Seq<Seq<char>>, int)
    decreases t.len() - p,
{
    if p < 0 || p >= t.len() || punct_at(t, p, '<') || brace_at(t, p) {
        (acc, p)
    } else {
        text_run(t, p + 1, acc.push(token_text(t[p])))
    }
}

/// Text: the printed tokens up to `<` or a block, joined by single spaces.
pub open spec fn text_p(t: Seq<TokenTree>, p: int) -> PR<Seq<char>> {
    if brace_at(t, p) || punct_at(t, p, '<') {
        PR::Fail(ParseErrorKind::ExpectedText, p, p)
    } else {
        let (parts, q) = text_run(t, p, Seq::empty());
        PR::Done(join(parts, " "@), q)
    }
}

/// The elements that never have children or a closing tag.
pub open spec fn is_void_tag(name: Seq<char>) -> bool {
    name == "area"@ || name == "base"@ || name == "br"@ || name == "col"@ || name == "embed"@
        || name == "hr"@ || name == "img"@ || name == "input"@ || name == "link"@ || name == "meta"@
        || name == "param"@ || name == "source"@ || name == "track"@ || name == "wbr"@
}

/// What kind of node an element becomes: names starting with a capital are
/// partials (when they end with `Partial` or `Page`) or custom elements.
pub open spec fn classify(name: Seq<char>, attrs: Seq<AttributeV>, nodes: Seq<NodeV>) -> NodeV {
    let e = ElementV { attributes: attrs, children: ChildrenV { nodes, render_fragment: false }, name };
    if name.len() > 0 && is_upper_char(name[0]) {
        if ends_with(name, "Partial"@) || ends_with(name, "Page"@) {
            NodeV::Partial(e)
        } else {
            NodeV::CustomElement(e)
        }
    } else {
        NodeV::Element(e)
    }
}

pub open spec fn expect_fail<V>(c: char, q: int) -> PR<V> {
    PR::Fail(ParseErrorKind::ExpectedPunct(c), q, q)
}

/// `<!-- node -->`.
pub open spec fn comment_p(t: Seq<TokenTree>, ok: Seq<bool>, p: int) -> PR<NodeV>
    decreases t.len() - p, 0int,
{
    if 0 <= p && punct_at(t, p, '<') && punct_at(t, p + 1, '!') && punct_at(t, p + 2, '-') {
        if !punct_at(t, p + 3, '-') {
            expect_fail('-', p + 3)
        } else {
            match node_p(t, ok, p + 4) {
                PR::Done(n, q) => if !punct_at(t, q, '-') {
                    expect_fail('-', q)
                } else if !punct_at(t, q + 1, '-') {
                    expect_fail('-', q + 1)
                } else if !punct_at(t, q + 2, '>') {
                    expect_fail('>', q + 2)
                } else {
                    PR::Done(n, q + 3)
                },
                PR::Fail(k, a, c) => PR::Fail(k, a, c),
            }
        }
    } else {
        PR::Fail(ParseErrorKind::ExpectedComment, p, p)
    }
}

/// `<!doctype html> node`: the first name is required, the second optional.
pub open spec fn doctype_p(t: Seq<TokenTree>, ok: Seq<bool>, p: int) -> PR<NodeV>
    decreases t.len() - p, 0int,
{
    if !(0 <= p && punct_at(t, p, '<') && punct_at(t, p + 1, '!')) {
        PR::Fail(ParseErrorKind::ExpectedDoctype, p, p)
    } else if !ident_at(t, p + 2) {
        PR::Fail(ParseErrorKind::ExpectedIdent, p + 2, p + 2)
    } else {
        let q = if ident_at(t, p + 3) { p + 4 } else { p + 3 };
        if !punct_at(t, q, '>') {
            expect_fail('>', q)
        } else {
            node_p(t, ok, q + 1)
        }
    }
}

/// `<name attrs>children</name>`, `<name attrs/>` or a void element.
pub open spec fn element_p(t: Seq<TokenTree>, ok: Seq<bool>, p: int) -> PR<NodeV>
    decreases t.len() - p, 0int,
{
    if p < 0 {
        PR::Fail(ParseErrorKind::ExpectedPunct('<'), p, p)
    } else {
        match tag_name_p(t, p + 1) {
            PR::Fail(k, a, c) => PR::Fail(k, a, c),
            PR::Done(name, q1) => match attributes_p(t, ok, q1, Seq::empty()) {
                PR::Fail(k, a, c) => PR::Fail(k, a, c),
                PR::Done(attrs, q2) => {
                    let self_closing = punct_at(t, q2, '/') || is_void_tag(name);
                    let q3 = if punct_at(t, q2, '/') { q2 + 1 } else { q2 };
                    if !punct_at(t, q3, '>') {
                        expect_fail('>', q3)
                    } else if self_closing {
                        PR::Done(classify(name, attrs, Seq::empty()), q3 + 1)
                    } else if q3 + 1 > t.len() || q3 < p {
                        PR::Done(classify(name, attrs, Seq::empty()), q3 + 1)
                    } else {
                        let (nodes, q5) = children_p(t, ok, q3 + 1, Seq::empty());
                        if !punct_at(t, q5, '<') {
                            expect_fail('<', q5)
                        } else if !punct_at(t, q5 + 1, '/') {
                            expect_fail('/', q5 + 1)
                        } else {
                            match tag_name_p(t, q5 + 2) {
                                PR::Fail(k, a, c) => PR::Fail(k, a, c),
                                PR::Done(closing, q6) => if !punct_at(t, q6, '>') {
                                    expect_fail('>', q6)
                                } else if closing != name {
                                    PR::Fail(ParseErrorKind::ClosingTagMismatch, q5 + 2, q6 + 1)
                                } else {
                                    PR::Done(classify(name, attrs, nodes), q6 + 1)
                                },
                            }
                        }
                    }
                },
            },
        }
    }
}

/// `<> children </>`.
pub open spec fn fragment_p(t: Seq<TokenTree>, ok: Seq<bool>, p: int) -> PR<ChildrenV>
    decreases t.len() - p, 0int,
{
    if !(0 <= p && punct_at(t, p, '<') && punct_at(t, p + 1, '>')) {
        PR::Fail(ParseErrorKind::ExpectedFragment, p, p)
    } else {
        let (nodes, q) = children_p(t, ok, p + 2, Seq::empty());
        if !punct_at(t, q, '<') {
            expect_fail('<', q)
        } else if !punct_at(t, q + 1, '/') {
            expect_fail('/', q + 1)
        } else if !punct_at(t, q + 2, '>') {
            expect_fail('>', q + 2)
        } else {
            PR::Done(ChildrenV { nodes, render_fragment: false }, q + 3)
        }
    }
}

/// One node: the alternatives are tried in turn, each from where the
/// previous failed attempt left the input.
pub open spec fn node_p(t: Seq<TokenTree>, ok: Seq<bool>, p: int) -> PR<NodeV>
    decreases t.len() - p, 1int,
{
    if p < 0 || p > t.len() {
        PR::Fail(ParseErrorKind::ExpectedHtmlNode, p, p)
    } else {
        match block_p(t, ok, p) {
            PR::Done(i, q) => PR::Done(NodeV::Block { index: i as int, text: token_text(t[i as int]) }, q),
            PR::Fail(_, _, q1) => {
                let p1 = clamp(q1, p, t.len() as int);
                match comment_p(t, ok, p1) {
                    PR::Done(n, q) => PR::Done(NodeV::Comment(Box::new(n)), q),
                    PR::Fail(_, _, q2) => {
                        let p2 = clamp(q2, p1, t.len() as int);
                        match doctype_p(t, ok, p2) {
                            PR::Done(n, q) => PR::Done(NodeV::Doctype(Box::new(n)), q),
                            PR::Fail(_, _, q3) => {
                                let p3 = clamp(q3, p2, t.len() as int);
                                if punct_at(t, p3, '<') && ident_at(t, p3 + 1) {
                                    element_p(t, ok, p3)
                                } else {
                                    match fragment_p(t, ok, p3) {
                                        PR::Done(c, q) => PR::Done(NodeV::Fragment { children: c, is_top_level: false }, q),
                                        PR::Fail(_, _, q4) => {
                                            let p4 = clamp(q4, p3, t.len() as int);
                                            match text_p(t, p4) {
                                                PR::Done(s, q) => PR::Done(NodeV::Text(s), q),
                                                PR::Fail(_, _, q5) => PR::Fail(ParseErrorKind::ExpectedHtmlNode, q5, q5),
                                            }
                                        },
                                    }
                                }
                            },
                        }
                    },
                }
            },
        }
    }
}

/// Nodes, until the input ends or a node fails to parse (the failed attempt's
/// consumption stands).
pub open spec fn children_p(t: Seq<TokenTree>, ok: Seq<bool>, p: int, acc: Seq<NodeV>) -> (Seq<NodeV>, int)
    decreases t.len() - p, 2int,
{
    if p < 0 || p >= t.len() {
        (acc, p)
    } else {
        match node_p(t, ok, p) {
            PR::Done(n, q) => if p < q <= t.len() {
                children_p(t, ok, q, acc.push(n))
            } else {
                (acc.push(n), q)
            },
            PR::Fail(_, _, q) => (acc, q),
        }
    }
}

/// A whole template: one node that uses up the input.
pub open spec fn template_p(t: Seq<TokenTree>, ok: Seq<bool>) -> PR<NodeV> {
    match node_p(t, ok, 0) {
        PR::Done(n, q) => if q == t.len() {
            PR::Done(n, q)
        } else {
            PR::Fail(ParseErrorKind::UnexpectedToken, q, q)
        },
        PR::Fail(k, a, c) => PR::Fail(k, a, c),
    }
}

/// Whether `name` is one of the HTML void elements, which never have
/// children or a closing tag.
pub open spec fn is_html_void_element(name: Seq<char>) -> bool {
        name == "area"@ || name == "base"@ || name == "br"@ || name == "col"@ || name == "embed"@
            || name == "hr"@ || name == "img"@ || name == "input"@ || name == "link"@
            || name == "meta"@ || name == "param"@ || name == "source"@ || name == "track"@
            || name == "wbr"@
}

proof fn lemma_void_elements_are_identifiers(name: Seq<char>)
    requires
        is_html_void_element(name),
    ensures
        !is_reserved_name(name),
        name.len() > 0 && 'a' <= name[0] && name[0] <= 'z',
{
    reveal_strlit("Self");
    reveal_strlit("_");
    reveal_strlit("abstract");
    reveal_strlit("area");
    reveal_strlit("as");
    reveal_strlit("base");
    reveal_strlit("become");
    reveal_strlit("box");
    reveal_strlit("br");
    reveal_strlit("break");
    reveal_strlit("col");
    reveal_strlit("const");
    reveal_strlit("continue");
    reveal_strlit("crate");
    reveal_strlit("do");
    reveal_strlit("else");
    reveal_strlit("embed");
    reveal_strlit("enum");
    reveal_strlit("extern");
    reveal_strlit("false");
    reveal_strlit("final");
    reveal_strlit("fn");
    reveal_strlit("for");
    reveal_strlit("hr");
    reveal_strlit("if");
    reveal_strlit("img");
    reveal_strlit("impl");
    reveal_strlit("in");
    reveal_strlit("input");
    reveal_strlit("let");
    reveal_strlit("link");
    reveal_strlit("loop");
    reveal_strlit("macro");
    reveal_strlit("match");
    reveal_strlit("meta");
    reveal_strlit("mod");
    reveal_strlit("move");
    reveal_strlit("mut");
    reveal_strlit("override");
    reveal_strlit("param");
    reveal_strlit("priv");
    reveal_strlit("pub");
    reveal_strlit("ref");
    reveal_strlit("return");
    reveal_strlit("self");
    reveal_strlit("source");
    reveal_strlit("static");
    reveal_strlit("struct");
    reveal_strlit("super");
    reveal_strlit("track");
    reveal_strlit("trait");
    reveal_strlit("true");
    reveal_strlit("type");
    reveal_strlit("typeof");
    reveal_strlit("unsafe");
    reveal_strlit("unsized");
    reveal_strlit("use");
    reveal_strlit("virtual");
    reveal_strlit("wbr");
    reveal_strlit("where");
    reveal_strlit("while");
    reveal_strlit("yield");
    assert("_"@.len() == 1);
    assert("abstract"@.len() == 8);
    assert("as"@.len() == 2);
    assert("become"@.len() == 6);
    assert("box"@.len() == 3);
    assert("break"@.len() == 5);
    assert("const"@.len() == 5);
    assert("continue"@.len() == 8);
    assert("crate"@.len() == 5);
    assert("do"@.len() == 2);
    assert("else"@.len() == 4);
    assert("enum"@.len() == 4);
    assert("extern"@.len() == 6);
    assert("false"@.len() == 5);
    assert("final"@.len() == 5);
    assert("fn"@.len() == 2);
    assert("for"@.len() == 3);
    assert("if"@.len() == 2);
    assert("impl"@.len() == 4);
    assert("in"@.len() == 2);
    assert("let"@.len() == 3);
    assert("loop"@.len() == 4);
    assert("macro"@.len() == 5);
    assert("match"@.len() == 5);
    assert("mod"@.len() == 3);
    assert("move"@.len() == 4);
    assert("mut"@.len() == 3);
    assert("override"@.len() == 8);
    assert("priv"@.len() == 4);
    assert("pub"@.len() == 3);
    assert("ref"@.len() == 3);
    assert("return"@.len() == 6);
    assert("Self"@.len() == 4);
    assert("self"@.len() == 4);
    assert("static"@.len() == 6);
    assert("struct"@.len() == 6);
    assert("super"@.len() == 5);
    assert("trait"@.len() == 5);
    assert("true"@.len() == 4);
    assert("type"@.len() == 4);
    assert("typeof"@.len() == 6);
    assert("unsafe"@.len() == 6);
    assert("unsized"@.len() == 7);
    assert("use"@.len() == 3);
    assert("virtual"@.len() == 7);
    assert("where"@.len() == 5);
    assert("while"@.len() == 5);
    assert("yield"@.len() == 5);
    assert("area"@.len() == 4);
    assert("area"@[0] != "else"@[0]);
    assert("area"@[0] != "enum"@[0]);
    assert("area"@[0] != "impl"@[0]);
    assert("area"@[0] != "loop"@[0]);
    assert("area"@[0] != "move"@[0]);
    assert("area"@[0] != "priv"@[0]);
    assert("area"@[0] != "Self"@[0]);
    assert("area"@[0] != "self"@[0]);
    assert("area"@[0] != "true"@[0]);
    assert("area"@[0] != "type"@[0]);
    assert("base"@.len() == 4);
    assert("base"@[0] != "else"@[0]);
    assert("base"@[0] != "enum"@[0]);
    assert("base"@[0] != "impl"@[0]);
    assert("base"@[0] != "loop"@[0]);
    assert("base"@[0] != "move"@[0]);
    assert("base"@[0] != "priv"@[0]);
    assert("base"@[0] != "Self"@[0]);
    assert("base"@[0] != "self"@[0]);
    assert("base"@[0] != "true"@[0]);
    assert("base"@[0] != "type"@[0]);
    assert("br"@.len() == 2);
    assert("br"@[0] != "as"@[0]);
    assert("br"@[0] != "do"@[0]);
    assert("br"@[0] != "fn"@[0]);
    assert("br"@[0] != "if"@[0]);
    assert("br"@[0] != "in"@[0]);
    assert("col"@.len() == 3);
    assert("col"@[0] != "box"@[0]);
    assert("col"@[0] != "for"@[0]);
    assert("col"@[0] != "let"@[0]);
    assert("col"@[0] != "mod"@[0]);
    assert("col"@[0] != "mut"@[0]);
    assert("col"@[0] != "pub"@[0]);
    assert("col"@[0] != "ref"@[0]);
    assert("col"@[0] != "use"@[0]);
    assert("embed"@.len() == 5);
    assert("embed"@[0] != "break"@[0]);
    assert("embed"@[0] != "const"@[0]);
    assert("embed"@[0] != "crate"@[0]);
    assert("embed"@[0] != "false"@[0]);
    assert("embed"@[0] != "final"@[0]);
    assert("embed"@[0] != "macro"@[0]);
    assert("embed"@[0] != "match"@[0]);
    assert("embed"@[0] != "super"@[0]);
    assert("embed"@[0] != "trait"@[0]);
    assert("embed"@[0] != "where"@[0]);
    assert("embed"@[0] != "while"@[0]);
    assert("embed"@[0] != "yield"@[0]);
    assert("hr"@.len() == 2);
    assert("hr"@[0] != "as"@[0]);
    assert("hr"@[0] != "do"@[0]);
    assert("hr"@[0] != "fn"@[0]);
    assert("hr"@[0] != "if"@[0]);
    assert("hr"@[0] != "in"@[0]);
    assert("img"@.len() == 3);
    assert("img"@[0] != "box"@[0]);
    assert("img"@[0] != "for"@[0]);
    assert("img"@[0] != "let"@[0]);
    assert("img"@[0] != "mod"@[0]);
    assert("img"@[0] != "mut"@[0]);
    assert("img"@[0] != "pub"@[0]);
    assert("img"@[0] != "ref"@[0]);
    assert("img"@[0] != "use"@[0]);
    assert("input"@.len() == 5);
    assert("input"@[0] != "break"@[0]);
    assert("input"@[0] != "const"@[0]);
    assert("input"@[0] != "crate"@[0]);
    assert("input"@[0] != "false"@[0]);
    assert("input"@[0] != "final"@[0]);
    assert("input"@[0] != "macro"@[0]);
    assert("input"@[0] != "match"@[0]);
    assert("input"@[0] != "super"@[0]);
    assert("input"@[0] != "trait"@[0]);
    assert("input"@[0] != "where"@[0]);
    assert("input"@[0] != "while"@[0]);
    assert("input"@[0] != "yield"@[0]);
    assert("link"@.len() == 4);
    assert("link"@[0] != "else"@[0]);
    assert("link"@[0] != "enum"@[0]);
    assert("link"@[0] != "impl"@[0]);
    assert("link"@[1] != "loop"@[1]);
    assert("link"@[0] != "move"@[0]);
    assert("link"@[0] != "priv"@[0]);
    assert("link"@[0] != "Self"@[0]);
    assert("link"@[0] != "self"@[0]);
    assert("link"@[0] != "true"@[0]);
    assert("link"@[0] != "type"@[0]);
    assert("meta"@.len() == 4);
    assert("meta"@[0] != "else"@[0]);
    assert("meta"@[0] != "enum"@[0]);
    assert("meta"@[0] != "impl"@[0]);
    assert("meta"@[0] != "loop"@[0]);
    assert("meta"@[1] != "move"@[1]);
    assert("meta"@[0] != "priv"@[0]);
    assert("meta"@[0] != "Self"@[0]);
    assert("meta"@[0] != "self"@[0]);
    assert("meta"@[0] != "true"@[0]);
    assert("meta"@[0] != "type"@[0]);
    assert("param"@.len() == 5);
    assert("param"@[0] != "break"@[0]);
    assert("param"@[0] != "const"@[0]);
    assert("param"@[0] != "crate"@[0]);
    assert("param"@[0] != "false"@[0]);
    assert("param"@[0] != "final"@[0]);
    assert("param"@[0] != "macro"@[0]);
    assert("param"@[0] != "match"@[0]);
    assert("param"@[0] != "super"@[0]);
    assert("param"@[0] != "trait"@[0]);
    assert("param"@[0] != "where"@[0]);
    assert("param"@[0] != "while"@[0]);
    assert("param"@[0] != "yield"@[0]);
    assert("source"@.len() == 6);
    assert("source"@[0] != "become"@[0]);
    assert("source"@[0] != "extern"@[0]);
    assert("source"@[0] != "return"@[0]);
    assert("source"@[1] != "static"@[1]);
    assert("source"@[1] != "struct"@[1]);
    assert("source"@[0] != "typeof"@[0]);
    assert("source"@[0] != "unsafe"@[0]);
    assert("track"@.len() == 5);
    assert("track"@[0] != "break"@[0]);
    assert("track"@[0] != "const"@[0]);
    assert("track"@[0] != "crate"@[0]);
    assert("track"@[0] != "false"@[0]);
    assert("track"@[0] != "final"@[0]);
    assert("track"@[0] != "macro"@[0]);
    assert("track"@[0] != "match"@[0]);
    assert("track"@[0] != "super"@[0]);
    assert("track"@[3] != "trait"@[3]);
    assert("track"@[0] != "where"@[0]);
    assert("track"@[0] != "while"@[0]);
    assert("track"@[0] != "yield"@[0]);
    assert("wbr"@.len() == 3);
    assert("wbr"@[0] != "box"@[0]);
    assert("wbr"@[0] != "for"@[0]);
    assert("wbr"@[0] != "let"@[0]);
    assert("wbr"@[0] != "mod"@[0]);
    assert("wbr"@[0] != "mut"@[0]);
    assert("wbr"@[0] != "pub"@[0]);
    assert("wbr"@[0] != "ref"@[0]);
    assert("wbr"@[0] != "use"@[0]);
}

/// The HTML void elements need no closing tag: `<name attrs>` for any of
/// them (area, base, br, col, embed, hr, img, input, link, meta, param,
/// source, track, wbr) with nothing after it reads as that element, with
/// those attributes and no children.
pub proof fn law_void_elements_need_no_closing_tag(t: Seq<TokenTree>, ok: Seq<bool>, name: Seq<char>, attrs: Seq<AttributeV>, q: int)
    requires
        is_html_void_element(name),
        punct_at(t, 0, '<'),
        ident_is(t, 1, name),
        !punct_at(t, 2, '-'),
        attributes_p(t, ok, 2, Seq::empty()) == PR::<Seq<AttributeV>>::Done(attrs, q),
        punct_at(t, q, '>'),
        q + 1 == t.len(),
    ensures
        template_p(t, ok) == PR::Done(NodeV::Element(ElementV {
            attributes: attrs,
            children: ChildrenV { nodes: Seq::empty(), render_fragment: false },
            name,
        }), t.len() as int),
{
    lemma_void_elements_are_identifiers(name);
    assert(q >= 2);
    assert(ident_at(t, 1));
    assert(ident_p(t, 1) == PR::Done(name, 2));
    assert(dash_idents_p(t, 2, seq![name]) == PR::Done(seq![name], 2));
    assert(join(seq![name], "-"@) == name);
    assert(tag_name_p(t, 1) == PR::Done(name, 2));
    assert(!punct_at(t, q, '/'));
    assert(is_void_tag(name));
    assert(!is_upper_char(name[0]));
    assert(element_p(t, ok, 0) == PR::Done(NodeV::Element(ElementV {
        attributes: attrs,
        children: ChildrenV { nodes: Seq::empty(), render_fragment: false },
        name,
    }), q + 1));
    assert(block_p(t, ok, 0) == PR::<usize>::Fail(ParseErrorKind::ExpectedBlock, 0, 0));
    assert(comment_p(t, ok, 0) == PR::<NodeV>::Fail(ParseErrorKind::ExpectedComment, 0, 0));
    assert(doctype_p(t, ok, 0) == PR::<NodeV>::Fail(ParseErrorKind::ExpectedDoctype, 0, 0));
}

/// Every other element needs its closing tag: `<name attrs>` with nothing
/// after it, for a name that is no void element, fails where the closing
/// tag's `<` should come.
pub proof fn law_other_elements_need_a_closing_tag(t: Seq<TokenTree>, ok: Seq<bool>, name: Seq<char>, attrs: Seq<AttributeV>, q: int)
    requires
        !is_html_void_element(name),
        punct_at(t, 0, '<'),
        ident_is(t, 1, name),
        !is_reserved_name(name),
        !punct_at(t, 2, '-'),
        attributes_p(t, ok, 2, Seq::empty()) == PR::<Seq<AttributeV>>::Done(attrs, q),
        punct_at(t, q, '>'),
        q + 1 == t.len(),
    ensures
        template_p(t, ok) == PR::<NodeV>::Fail(ParseErrorKind::ExpectedPunct('<'), t.len() as int, t.len() as int),
{
    assert(q >= 2);
    assert(ident_at(t, 1));
    assert(ident_p(t, 1) == PR::Done(name, 2));
    assert(dash_idents_p(t, 2, seq![name]) == PR::Done(seq![name], 2));
    assert(join(seq![name], "-"@) == name);
    assert(tag_name_p(t, 1) == PR::Done(name, 2));
    assert(!punct_at(t, q, '/'));
    assert(!is_void_tag(name));
    assert(children_p(t, ok, q + 1, Seq::empty()) == (Seq::<NodeV>::empty(), q + 1));
    assert(block_p(t, ok, 0) == PR::<usize>::Fail(ParseErrorKind::ExpectedBlock, 0, 0));
    assert(comment_p(t, ok, 0) == PR::<NodeV>::Fail(ParseErrorKind::ExpectedComment, 0, 0));
    assert(doctype_p(t, ok, 0) == PR::<NodeV>::Fail(ParseErrorKind::ExpectedDoctype, 0, 0));
}

} // verus!

verus! {

// ---------------------------------------------------------------------------
// Parser

/// Whether a parse result agrees with the specification, the value compared
/// through `f`.
pub open spec fn res_is<T: DeepView>(r: Result<(T, usize), ParseFailure>, s: PR<T::V>) -> bool {
    match r {
        Ok((x, q)) => s == PR::Done(x.deep_view(), q as int),
        Err(e) => s == PR::<T::V>::Fail(e.kind, e.at as int, e.pos as int),
    }
}

pub open spec fn res_pos<T>(r: Result<(T, usize), ParseFailure>) -> int {
    match r {
        Ok((_, q)) => q as int,
        Err(e) => e.pos as int,
    }
}

proof fn lemma_nodes_view_push(s: Seq<Node>, n: Node)
    ensures
        nodes_view(s.push(n)) == nodes_view(s).push(node_view(n)),
{
    assert(s.push(n).subrange(0, s.len() as int) == s);
}

fn fail<T>(kind: ParseErrorKind, at: usize, pos: usize) -> (r: Result<T, ParseFailure>)
    ensures
        r matches Err(e) && e.kind == kind && e.at == at && e.pos == pos,
{
    Err(ParseFailure { kind, at, pos })
}

/// Whether the identifier parser accepts the name `s` (it is not a keyword).
pub fn accepts_ident(s: &str) -> (r: bool)
    ensures
        r == !is_reserved_name(s@),
{
    let k = [
        "_", "abstract", "as", "become", "box", "break", "const", "continue", "crate", "do",
        "else", "enum", "extern", "false", "final", "fn", "for", "if", "impl", "in", "let",
        "loop", "macro", "match", "mod", "move", "mut", "override", "priv", "pub", "ref",
        "return", "Self", "self", "static", "struct", "super", "trait", "true", "type", "typeof",
        "unsafe", "unsized", "use", "virtual", "where", "while", "yield",
    ];
    let mut i: usize = 0;
    while i < 48
        invariant
            i <= 48,
            k@.len() == 48,
            k@ == seq![
                "_", "abstract", "as", "become", "box", "break", "const", "continue", "crate", "do",
                "else", "enum", "extern", "false", "final", "fn", "for", "if", "impl", "in", "let",
                "loop", "macro", "match", "mod", "move", "mut", "override", "priv", "pub", "ref",
                "return", "Self", "self", "static", "struct", "super", "trait", "true", "type", "typeof",
                "unsafe", "unsized", "use", "virtual", "where", "while", "yield",
            ],
            forall|j: int| 0 <= j < i ==> s@ != k@[j]@,
        decreases 48 - i,
    {
        if crate::text::str_eq(s, k[i]) {
            return false;
        }
        i = i + 1;
    }
    true
}

pub(crate) fn punct_at_e(t: &Vec<TokenTree>, p: usize, c: char) -> (r: bool)
    ensures
        r == punct_at(t@, p as int, c),
{
    p < t.len() && crate::tokens::punct_is(&t[p], c)
}

pub(crate) fn brace_at_e(t: &Vec<TokenTree>, p: usize) -> (r: bool)
    ensures
        r == brace_at(t@, p as int),
{
    p < t.len() && crate::tokens::group_is(&t[p], Delimiter::Brace)
}

pub(crate) fn ident_at_e(t: &Vec<TokenTree>, p: usize) -> (r: bool)
    ensures
        r == ident_at(t@, p as int),
{
    if p < t.len() {
        match &t[p] {
            TokenTree::Ident(s) => accepts_ident(s.as_str()),
            _ => false,
        }
    } else {
        false
    }
}

pub(crate) fn any_ident_at_e(t: &Vec<TokenTree>, p: usize) -> (r: bool)
    ensures
        r == any_ident_at(t@, p as int),
{
    if p < t.len() {
        match &t[p] {
            TokenTree::Ident(_) => true,
            _ => false,
        }
    } else {
        false
    }
}

pub(crate) fn ident_is_e(t: &Vec<TokenTree>, p: usize, name: &str) -> (r: bool)
    ensures
        r == ident_is(t@, p as int, name@),
{
    if p < t.len() {
        match &t[p] {
            TokenTree::Ident(s) => crate::text::str_eq(s.as_str(), name),
            _ => false,
        }
    } else {
        false
    }
}

fn parse_block(t: &Vec<TokenTree>, ok: &Vec<bool>, p: usize) -> (r: Result<(usize, usize), ParseFailure>)
    requires
        p <= t.len(),
    ensures
        res_is(r, block_p(t@, ok@, p as int)),
        p <= res_pos(r) <= t.len(),
{
    if brace_at_e(t, p) {
        if p < ok.len() && ok[p] {
            Ok((p, p + 1))
        } else {
            fail(ParseErrorKind::InvalidBlock, p, p + 1)
        }
    } else {
        fail(ParseErrorKind::ExpectedBlock, p, p)
    }
}

pub(crate) fn parse_lit(t: &Vec<TokenTree>, p: usize) -> (r: Result<(Lit, usize), ParseFailure>)
    requires
        p <= t.len(),
    ensures
        res_is(r, lit_p(t@, p as int)),
        p <= res_pos(r) <= t.len(),
{
    if p < t.len() {
        match &t[p] {
            TokenTree::Literal(_) => { return Ok((Lit::Token(p), p + 1)); },
            _ => {},
        }
    }
    if ident_is_e(t, p, "true") {
        return Ok((Lit::Bool(true), p + 1));
    }
    if ident_is_e(t, p, "false") {
        return Ok((Lit::Bool(false), p + 1));
    }
    if punct_at_e(t, p, '-') && p + 1 < t.len() {
        match &t[p + 1] {
            TokenTree::Literal(l) => {
                let cs = crate::text::chars_of(l.as_str());
                if cs.len() > 0 && '0' <= cs[0] && cs[0] <= '9' {
                    return Ok((Lit::Negative(p + 1), p + 2));
                }
            },
            _ => {},
        }
    }
    fail(ParseErrorKind::ExpectedLiteral, p, p)
}

fn parse_value(t: &Vec<TokenTree>, ok: &Vec<bool>, p: usize) -> (r: Result<(AttributeValue, usize), ParseFailure>)
    requires
        p <= t.len(),
    ensures
        res_is(r, value_p(t@, ok@, p as int)),
        p <= res_pos(r) <= t.len(),
{
    if brace_at_e(t, p) {
        let (i, q) = parse_block(t, ok, p)?;
        Ok((AttributeValue::Block(i), q))
    } else {
        let (l, q) = parse_lit(t, p)?;
        Ok((AttributeValue::Lit(l), q))
    }
}

fn parse_ident(t: &Vec<TokenTree>, p: usize) -> (r: Result<(String, usize), ParseFailure>)
    requires
        p <= t.len(),
    ensures
        res_is(r, ident_p(t@, p as int)),
        p <= res_pos(r) <= t.len(),
{
    if ident_at_e(t, p) {
        match &t[p] {
            TokenTree::Ident(s) => Ok((s.clone(), p + 1)),
            _ => fail(ParseErrorKind::ExpectedIdent, p, p),
        }
    } else {
        fail(ParseErrorKind::ExpectedIdent, p, p)
    }
}

fn parse_dash_idents(t: &Vec<TokenTree>, q0: usize, start: Vec<String>) -> (r: Result<(Vec<String>, usize), ParseFailure>)
    requires
        q0 <= t.len(),
    ensures
        res_is(r, dash_idents_p(t@, q0 as int, views(start@))),
        q0 <= res_pos(r) <= t.len(),
{
    let ghost acc0 = views(start@);
    let mut acc = start;
    let mut q = q0;
    loop
        invariant
            q0 <= q <= t.len(),
            acc0 == views(start@),
            dash_idents_p(t@, q0 as int, acc0) == dash_idents_p(t@, q as int, views(acc@)),
        decreases t.len() - q,
    {
        if q >= t.len() || !punct_at_e(t, q, '-') {
            proof { crate::text::lemma_deep_view_strings(acc); }
            return Ok((acc, q));
        }
        let (s, r) = parse_ident(t, q + 1)?;
        let ghost before = acc@;
        acc.push(s);
        proof { crate::text::lemma_views_push(before, s); }
        q = r;
    }
}

fn parse_key(t: &Vec<TokenTree>, p: usize) -> (r: Result<((String, Vec<String>), usize), ParseFailure>)
    requires
        p <= t.len(),
    ensures
        res_is(r, key_p(t@, p as int)),
        p <= res_pos(r) <= t.len(),
{
    if ident_is_e(t, p, "type") {
        let e: Vec<String> = Vec::new();
        proof { crate::text::lemma_deep_view_strings(e); }
        assert(views(e@) =~= Seq::<Seq<char>>::empty());
        return Ok(((String::from_str("type"), e), p + 1));
    }
    if ident_is_e(t, p, "for") {
        let e: Vec<String> = Vec::new();
        proof { crate::text::lemma_deep_view_strings(e); }
        assert(views(e@) =~= Seq::<Seq<char>>::empty());
        return Ok(((String::from_str("for"), e), p + 1));
    }
    if ident_at_e(t, p) && punct_at_e(t, p + 1, '-') {
        let (key, _q) = parse_ident(t, p)?;
        let e: Vec<String> = Vec::new();
        assert(views(e@) =~= Seq::<Seq<char>>::empty());
        let (ext, q) = parse_dash_idents(t, p + 1, e)?;
        proof { crate::text::lemma_deep_view_strings(ext); }
        return Ok(((key, ext), q));
    }
    let (key, q) = parse_ident(t, p)?;
    let e: Vec<String> = Vec::new();
    proof { crate::text::lemma_deep_view_strings(e); }
    assert(views(e@) =~= Seq::<Seq<char>>::empty());
    Ok(((key, e), q))
}

fn parse_key_value(t: &Vec<TokenTree>, ok: &Vec<bool>, p: usize) -> (r: Result<(AttributeKeyValue, usize), ParseFailure>)
    requires
        p <= t.len(),
    ensures
        res_is(r, key_value_p(t@, ok@, p as int)),
        p <= res_pos(r) <= t.len(),
{
    let ((key, extended), q) = parse_key(t, p)?;
    proof { crate::text::lemma_deep_view_strings(extended); }
    if punct_at_e(t, q, '=') {
        let (value, r) = parse_value(t, ok, q + 1)?;
        Ok((AttributeKeyValue { extended, key, value }, r))
    } else {
        Ok((AttributeKeyValue { extended, key, value: AttributeValue::Lit(Lit::Bool(true)) }, q))
    }
}

fn parse_attribute(t: &Vec<TokenTree>, ok: &Vec<bool>, p: usize) -> (r: Result<(Attribute, usize), ParseFailure>)
    requires
        p <= t.len(),
    ensures
        res_is(r, attribute_p(t@, ok@, p as int)),
        p <= res_pos(r) <= t.len(),
{
    if any_ident_at_e(t, p) {
        let (kv, q) = parse_key_value(t, ok, p)?;
        Ok((Attribute::KeyValue(kv), q))
    } else {
        let (i, q) = parse_block(t, ok, p)?;
        Ok((Attribute::Block(i), q))
    }
}

fn parse_attributes(t: &Vec<TokenTree>, ok: &Vec<bool>, p: usize) -> (r: Result<(Vec<Attribute>, usize), ParseFailure>)
    requires
        p <= t.len(),
    ensures
        res_is(r, attributes_p(t@, ok@, p as int, Seq::empty())),
        p <= res_pos(r) <= t.len(),
{
    let mut attrs: Vec<Attribute> = Vec::new();
    let mut q = p;
    assert(attrs.deep_view() =~= Seq::<AttributeV>::empty());
    loop
        invariant
            p <= q <= t.len(),
            attributes_p(t@, ok@, p as int, Seq::empty()) == attributes_p(t@, ok@, q as int, attrs.deep_view()),
        decreases t.len() - q,
    {
        if q >= t.len() || !(any_ident_at_e(t, q) || brace_at_e(t, q)) {
            return Ok((attrs, q));
        }
        let (a, r) = parse_attribute(t, ok, q)?;
        let ghost before = attrs.deep_view();
        attrs.push(a);
        assert(attrs.deep_view() =~= before.push(a.deep_view()));
        if r <= q {
            return Ok((attrs, r));
        }
        q = r;
    }
}

fn parse_tag_name(t: &Vec<TokenTree>, p: usize) -> (r: Result<(String, usize), ParseFailure>)
    requires
        p <= t.len(),
    ensures
        res_is(r, tag_name_p(t@, p as int)),
        p <= res_pos(r) <= t.len(),
{
    let (first, q) = parse_ident(t, p)?;
    let mut parts: Vec<String> = Vec::new();
    parts.push(first);
    assert(views(parts@) =~= seq![first@]);
    let (parts, r) = parse_dash_idents(t, q, parts)?;
    proof { crate::text::lemma_deep_view_strings(parts); }
    let name = crate::text::join_strings(&parts, "-");
    Ok((name, r))
}

fn parse_text(t: &Vec<TokenTree>, p: usize) -> (r: Result<(String, usize), ParseFailure>)
    requires
        p <= t.len(),
    ensures
        res_is(r, text_p(t@, p as int)),
        p <= res_pos(r) <= t.len(),
{
    if brace_at_e(t, p) || punct_at_e(t, p, '<') {
        return fail(ParseErrorKind::ExpectedText, p, p);
    }
    let mut parts: Vec<String> = Vec::new();
    let mut q = p;
    assert(views(parts@) =~= Seq::<Seq<char>>::empty());
    while q < t.len() && !punct_at_e(t, q, '<') && !brace_at_e(t, q)
        invariant
            p <= q <= t.len(),
            text_run(t@, p as int, Seq::empty()) == text_run(t@, q as int, views(parts@)),
        decreases t.len() - q,
    {
        let s = crate::tokens::token_to_string(&t[q]);
        let ghost before = parts@;
        parts.push(s);
        proof { crate::text::lemma_views_push(before, s); }
        q = q + 1;
    }
    let text = crate::text::join_strings(&parts, " ");
    Ok((text, q))
}

/// Whether `s` ends with `suffix`.
pub fn ends_with_str(s: &str, suffix: &str) -> (r: bool)
    ensures
        r == ends_with(s@, suffix@),
{
    let a = crate::text::chars_of(s);
    let b = crate::text::chars_of(suffix);
    if b.len() > a.len() {
        return false;
    }
    let off = a.len() - b.len();
    let mut i: usize = 0;
    while i < b.len()
        invariant
            a@ == s@,
            b@ == suffix@,
            b.len() <= a.len(),
            off == a.len() - b.len(),
            i <= b.len(),
            forall|j: int| 0 <= j < i ==> a@[off + j] == b@[j],
        decreases b.len() - i,
    {
        if a[off + i] != b[i] {
            assert(a@.subrange(off as int, a@.len() as int)[i as int] != b@[i as int]);
            return false;
        }
        i = i + 1;
    }
    assert(a@.subrange(off as int, a@.len() as int) =~= b@);
    true
}

/// Whether `name` is one of the void elements.
pub fn is_void_tag_name(name: &str) -> (r: bool)
    ensures
        r == is_void_tag(name@),
{
    crate::text::str_eq(name, "area") || crate::text::str_eq(name, "base") || crate::text::str_eq(name, "br")
        || crate::text::str_eq(name, "col") || crate::text::str_eq(name, "embed") || crate::text::str_eq(name, "hr")
        || crate::text::str_eq(name, "img") || crate::text::str_eq(name, "input") || crate::text::str_eq(name, "link")
        || crate::text::str_eq(name, "meta") || crate::text::str_eq(name, "param") || crate::text::str_eq(name, "source")
        || crate::text::str_eq(name, "track") || crate::text::str_eq(name, "wbr")
}

/// Builds the node for an element from its name, attributes and children.
pub fn classify_element(name: String, attrs: Vec<Attribute>, nodes: Vec<Node>) -> (r: Node)
    ensures
        node_view(r) == classify(name@, attrs.deep_view(), nodes_view(nodes@)),
{
    let cs = crate::text::chars_of(name.as_str());
    let attributes = Attributes { attrs };
    let children = Children { nodes, render_fragment: false };
    if cs.len() > 0 && is_uppercase(cs[0]) {
        if ends_with_str(name.as_str(), "Partial") || ends_with_str(name.as_str(), "Page") {
            Node::Partial(HtmlPartial { attributes, children, name })
        } else {
            Node::CustomElement(HtmlCustomElement { attributes, children, name })
        }
    } else {
        Node::Element(HtmlElement { attributes, children, name: TagName { name } })
    }
}

fn parse_comment(t: &Vec<TokenTree>, ok: &Vec<bool>, p: usize) -> (r: Result<(Node, usize), ParseFailure>)
    requires
        p <= t.len(),
    ensures
        res_is(r, comment_p(t@, ok@, p as int)),
        p <= res_pos(r) <= t.len(),
    decreases t.len() - p, 0nat,
{
    if !(punct_at_e(t, p, '<') && punct_at_e(t, p + 1, '!') && punct_at_e(t, p + 2, '-')) {
        return fail(ParseErrorKind::ExpectedComment, p, p);
    }
    if !punct_at_e(t, p + 3, '-') {
        return fail(ParseErrorKind::ExpectedPunct('-'), p + 3, p + 3);
    }
    let (n, q) = parse_node(t, ok, p + 4)?;
    if !punct_at_e(t, q, '-') {
        return fail(ParseErrorKind::ExpectedPunct('-'), q, q);
    }
    if !punct_at_e(t, q + 1, '-') {
        return fail(ParseErrorKind::ExpectedPunct('-'), q + 1, q + 1);
    }
    if !punct_at_e(t, q + 2, '>') {
        return fail(ParseErrorKind::ExpectedPunct('>'), q + 2, q + 2);
    }
    Ok((n, q + 3))
}

fn parse_doctype(t: &Vec<TokenTree>, ok: &Vec<bool>, p: usize) -> (r: Result<(Node, usize), ParseFailure>)
    requires
        p <= t.len(),
    ensures
        res_is(r, doctype_p(t@, ok@, p as int)),
        p <= res_pos(r) <= t.len(),
    decreases t.len() - p, 0nat,
{
    if !(punct_at_e(t, p, '<') && punct_at_e(t, p + 1, '!')) {
        return fail(ParseErrorKind::ExpectedDoctype, p, p);
    }
    if !ident_at_e(t, p + 2) {
        return fail(ParseErrorKind::ExpectedIdent, p + 2, p + 2);
    }
    let q = if ident_at_e(t, p + 3) { p + 4 } else { p + 3 };
    if !punct_at_e(t, q, '>') {
        return fail(ParseErrorKind::ExpectedPunct('>'), q, q);
    }
    parse_node(t, ok, q + 1)
}

fn parse_element(t: &Vec<TokenTree>, ok: &Vec<bool>, p: usize) -> (r: Result<(Node, usize), ParseFailure>)
    requires
        p < t.len(),
    ensures
        res_is(r, element_p(t@, ok@, p as int)),
        p <= res_pos(r) <= t.len(),
    decreases t.len() - p, 0nat,
{
    let (name, q1) = parse_tag_name(t, p + 1)?;
    let (attrs, q2) = parse_attributes(t, ok, q1)?;
    let slash = punct_at_e(t, q2, '/');
    let q3 = if slash { q2 + 1 } else { q2 };
    let self_closing = slash || is_void_tag_name(name.as_str());
    if !punct_at_e(t, q3, '>') {
        return fail(ParseErrorKind::ExpectedPunct('>'), q3, q3);
    }
    if self_closing {
        let nodes: Vec<Node> = Vec::new();
        assert(nodes_view(nodes@) =~= Seq::<NodeV>::empty());
        return Ok((classify_element(name, attrs, nodes), q3 + 1));
    }
    let (nodes, q5) = parse_children(t, ok, q3 + 1);
    if !punct_at_e(t, q5, '<') {
        return fail(ParseErrorKind::ExpectedPunct('<'), q5, q5);
    }
    if !punct_at_e(t, q5 + 1, '/') {
        return fail(ParseErrorKind::ExpectedPunct('/'), q5 + 1, q5 + 1);
    }
    let (closing, q6) = parse_tag_name(t, q5 + 2)?;
    if !punct_at_e(t, q6, '>') {
        return fail(ParseErrorKind::ExpectedPunct('>'), q6, q6);
    }
    if !(closing == name) {
        return fail(ParseErrorKind::ClosingTagMismatch, q5 + 2, q6 + 1);
    }
    Ok((classify_element(name, attrs, nodes), q6 + 1))
}

fn parse_fragment(t: &Vec<TokenTree>, ok: &Vec<bool>, p: usize) -> (r: Result<(Children, usize), ParseFailure>)
    requires
        p <= t.len(),
    ensures
        res_is(r, fragment_p(t@, ok@, p as int)),
        p <= res_pos(r) <= t.len(),
    decreases t.len() - p, 0nat,
{
    if !(punct_at_e(t, p, '<') && punct_at_e(t, p + 1, '>')) {
        return fail(ParseErrorKind::ExpectedFragment, p, p);
    }
    let (nodes, q) = parse_children(t, ok, p + 2);
    if !punct_at_e(t, q, '<') {
        return fail(ParseErrorKind::ExpectedPunct('<'), q, q);
    }
    if !punct_at_e(t, q + 1, '/') {
        return fail(ParseErrorKind::ExpectedPunct('/'), q + 1, q + 1);
    }
    if !punct_at_e(t, q + 2, '>') {
        return fail(ParseErrorKind::ExpectedPunct('>'), q + 2, q + 2);
    }
    Ok((Children { nodes, render_fragment: false }, q + 3))
}

/// Parses one node at position `p` of the input.
pub fn parse_node(t: &Vec<TokenTree>, ok: &Vec<bool>, p: usize) -> (r: Result<(Node, usize), ParseFailure>)
    requires
        p <= t.len(),
    ensures
        res_is(r, node_p(t@, ok@, p as int)),
        p <= res_pos(r) <= t.len(),
    decreases t.len() - p, 1nat,
{
    let p1 = match parse_block(t, ok, p) {
        Ok((i, q)) => {
            let text = crate::tokens::token_to_string(&t[i]);
            return Ok((Node::Block(HtmlBlock { token_index: i, text }), q));
        },
        Err(e) => e.pos,
    };
    let p2 = match parse_comment(t, ok, p1) {
        Ok((n, q)) => {
            return Ok((Node::Comment(HtmlComment { comment: Box::new(n) }), q));
        },
        Err(e) => e.pos,
    };
    let p3 = match parse_doctype(t, ok, p2) {
        Ok((n, q)) => {
            return Ok((Node::Doctype(HtmlDoctype::Html5(Box::new(n))), q));
        },
        Err(e) => e.pos,
    };
    if punct_at_e(t, p3, '<') && ident_at_e(t, p3 + 1) {
        return parse_element(t, ok, p3);
    }
    let p4 = match parse_fragment(t, ok, p3) {
        Ok((c, q)) => {
            return Ok((Node::Fragment(HtmlFragment { children: c, is_top_level: false }), q));
        },
        Err(e) => e.pos,
    };
    match parse_text(t, p4) {
        Ok((s, q)) => Ok((Node::Text(HtmlText { text: s }), q)),
        Err(e) => fail(ParseErrorKind::ExpectedHtmlNode, e.pos, e.pos),
    }
}

/// Parses nodes from position `p` until the input ends or a node fails.
pub fn parse_children(t: &Vec<TokenTree>, ok: &Vec<bool>, p: usize) -> (r: (Vec<Node>, usize))
    requires
        p <= t.len(),
    ensures
        (nodes_view(r.0@), r.1 as int) == children_p(t@, ok@, p as int, Seq::empty()),
        p <= r.1 <= t.len(),
    decreases t.len() - p, 2nat,
{
    let mut nodes: Vec<Node> = Vec::new();
    let mut q = p;
    assert(nodes_view(nodes@) =~= Seq::<NodeV>::empty());
    loop
        invariant
            p <= q <= t.len(),
            children_p(t@, ok@, p as int, Seq::empty()) == children_p(t@, ok@, q as int, nodes_view(nodes@)),
        decreases t.len() - q,
    {
        if q >= t.len() {
            return (nodes, q);
        }
        match parse_node(t, ok, q) {
            Ok((n, r)) => {
                let ghost before = nodes@;
                nodes.push(n);
                proof { lemma_nodes_view_push(before, n); }
                if r <= q {
                    return (nodes, r);
                }
                q = r;
            },
            Err(e) => {
                return (nodes, e.pos);
            },
        }
    }
}

/// Whether a template parse result agrees with the specification's.
pub open spec fn template_is(r: Result<Node, ParseFailure>, s: PR<NodeV>) -> bool {
    match s {
        PR::Done(v, _) => r matches Ok(n) && node_view(n) == v,
        PR::Fail(k, a, c) => r matches Err(e) && e.kind == k && e.at as int == a && e.pos as int == c,
    }
}

/// Parses a whole template, one node that uses up all of `t`, where `ok`
/// tells for each position whether the brace group there reads as a block
/// of statements.
pub fn parse_template_with(t: &Vec<TokenTree>, ok: &Vec<bool>) -> (r: Result<Node, ParseFailure>)
    ensures
        template_is(r, template_p(t@, ok@)),
{
    let (n, q) = parse_node(t, ok, 0)?;
    if q == t.len() {
        Ok(n)
    } else {
        Err(ParseFailure { kind: ParseErrorKind::UnexpectedToken, at: q, pos: q })
    }
}

/// For each position of `t`, whether a brace group stands there that `syn`
/// reads as a block of statements.
pub fn block_verdicts(t: &Vec<TokenTree>) -> (r: Vec<bool>)
    ensures
        r@.len() == t@.len(),
        forall|p: int| 0 <= p < t@.len() && !brace_at(t@, p) ==> !r@[p],
{
    let mut r: Vec<bool> = Vec::new();
    let mut i: usize = 0;
    while i < t.len()
        invariant
            i <= t.len(),
            r@.len() == i,
            forall|p: int| 0 <= p < i && !brace_at(t@, p) ==> !r@[p],
        decreases t.len() - i,
    {
        let v = if brace_at_e(t, i) {
            let text = crate::tokens::token_to_string(&t[i]);
            block_stmts(text.as_str()).is_some()
        } else {
            false
        };
        r.push(v);
        i = i + 1;
    }
    r
}

/// Parses a whole template: one node that uses up all of `t`. Which brace
/// groups read as blocks of statements is `syn`'s verdict, taken for each
/// group in turn; the result is the template parse under those verdicts.
pub fn parse_template(t: &Vec<TokenTree>) -> (r: Result<Node, ParseFailure>)
    ensures
        exists|ok: Seq<bool>|
            ok.len() == t@.len()
            && (forall|p: int| 0 <= p < t@.len() && !brace_at(t@, p) ==> !ok[p])
            && #[trigger] template_is(r, template_p(t@, ok)),
{
    let ok = block_verdicts(t);
    let r = parse_template_with(t, &ok);
    assert(template_is(r, template_p(t@, ok@)));
    r
}

} // verus!

verus! {

// ---------------------------------------------------------------------------
// Short text of nodes

/// `<name>...</name>`.
pub open spec fn elided_element(name: Seq<char>) -> Seq<char> {
    "<"@ + name + ">...</"@ + name + ">"@
}

/// The short text a node stands for: blocks and text print in full, comments
/// wrap their content, the doctype prefixes its document, and elements and
/// fragments print their tags around `...`.
pub open spec fn node_text(n: NodeV) -> Seq<char>
    decreases n,
{
    match n {
        NodeV::Block { index: _, text } => text,
        NodeV::Comment(c) => "<!-- "@ + node_text(*c) + " -->"@,
        NodeV::CustomElement(e) => elided_element(e.name),
        NodeV::Doctype(c) => "<!doctype html>"@ + node_text(*c),
        NodeV::Element(e) => elided_element(e.name),
        NodeV::Fragment { children: _, is_top_level: _ } => "<>...</>"@,
        NodeV::Partial(e) => elided_element(e.name),
        NodeV::Text(t) => t,
    }
}

fn elided(name: &String) -> (r: String)
    ensures
        r@ == elided_element(name@),
{
    let mut s = String::from_str("<");
    s.append(name.as_str());
    s.append(">...</");
    s.append(name.as_str());
    s.append(">");
    s
}

impl Node {
    /// The short text this node stands for.
    pub fn to_string(&self) -> (r: String)
        ensures
            r@ == node_text(node_view(*self)),
        decreases self,
    {
        match self {
            Node::Block(b) => b.text.clone(),
            Node::Comment(c) => {
                let inner = c.comment.to_string();
                let mut s = String::from_str("<!-- ");
                s.append(inner.as_str());
                s.append(" -->");
                s
            },
            Node::CustomElement(e) => elided(&e.name),
            Node::Doctype(HtmlDoctype::Html5(c)) => {
                let inner = c.to_string();
                let mut s = String::from_str("<!doctype html>");
                s.append(inner.as_str());
                s
            },
            Node::Element(e) => elided(&e.name.name),
            Node::Fragment(_) => String::from_str("<>...</>"),
            Node::Partial(e) => elided(&e.name),
            Node::Text(t) => t.text.clone(),
        }
    }
}

/// The name an attribute is written under: its key and extensions joined by `-`.
pub open spec fn attribute_name(kv: AttributeKeyValueV) -> Seq<char> {
    join(seq![kv.key] + kv.extended, "-"@)
}

impl AttributeKeyValue {
    /// The name this attribute is written under, e.g. `data-tooltip`.
    pub fn full_key(&self) -> (r: String)
        ensures
            r@ == attribute_name(self.deep_view()),
    {
        let mut parts: Vec<String> = Vec::new();
        parts.push(self.key.clone());
        let mut i: usize = 0;
        while i < self.extended.len()
            invariant
                i <= self.extended.len(),
                views(parts@) == seq![self.key@] + views(self.extended@).take(i as int),
            decreases self.extended.len() - i,
        {
            let ghost before = parts@;
            parts.push(self.extended[i].clone());
            proof { crate::text::lemma_views_push(before, self.extended@[i as int]); }
            assert(views(self.extended@).take(i + 1) == views(self.extended@).take(i as int).push(self.extended@[i as int]@));
            i = i + 1;
        }
        assert(views(self.extended@).take(self.extended.len() as int) == views(self.extended@));
        crate::text::join_strings(&parts, "-")
    }
}

impl Attribute {
    /// Whether this is a key-value attribute whose key is `key`.
    pub fn key_exists(&self, key: &str) -> (r: bool)
        ensures
            r == (self matches Attribute::KeyValue(kv) && kv.key@ == key@),
    {
        match self {
            Attribute::Block(_) => false,
            Attribute::KeyValue(kv) => crate::text::str_eq(kv.key.as_str(), key),
        }
    }
}

// ---------------------------------------------------------------------------
// Emission

/// What `convert_case` gives for a name converted to kebab case.
pub uninterp spec fn kebab_case(s: Seq<char>) -> Seq<char>;

/// What the kebab case of an ASCII name always is: ASCII, with no capital
/// letter, no `_` and no space (those separate words, which are lowercased
/// and joined by `-`); a name of small letters only is its own kebab case.
pub open spec fn kebab_shape(s: Seq<char>, r: Seq<char>) -> bool {
    &&& is_ascii_text(r)
    &&& forall|i: int| 0 <= i < r.len() ==> !('A' <= #[trigger] r[i] && r[i] <= 'Z') && r[i] != '_' && r[i] != ' '
    &&& (forall|i: int| 0 <= i < s.len() ==> 'a' <= #[trigger] s[i] && s[i] <= 'z') ==> r == s
}

/// `convert_case::Casing::to_case(Case::Kebab)`: the name split at `-`,
/// `_`, spaces and camel-case boundaries, each word lowercased, joined by
/// `-`. The crate splits camel-case words at character counts used as byte
/// positions, which can land inside a multi-byte character and panic, so
/// the name must be ASCII. The result is named; of the boundary rules
/// (acronyms, digits, punctuation) only what `kebab_shape` says is claimed.
#[verifier::external_body]
fn to_kebab_case(s: &str) -> (r: String)
    requires
        is_ascii_text(s@),
    ensures
        r@ == kebab_case(s@),
        kebab_shape(s@, r@),
{
    convert_case::Casing::to_case(s, convert_case::Case::Kebab)
}

fn ascii_text(s: &str) -> (r: bool)
    ensures
        r == is_ascii_text(s@),
{
    let cs = crate::text::chars_of(s);
    let mut i: usize = 0;
    while i < cs.len()
        invariant
            cs@ == s@,
            i <= cs.len(),
            forall|j: int| 0 <= j < i ==> (#[trigger] cs@[j] as u32) < 128,
        decreases cs.len() - i,
    {
        if (cs[i] as u32) >= 128 {
            return false;
        }
        i = i + 1;
    }
    true
}

impl HtmlCustomElement {
    /// The tag name a custom element is rendered under: its name in kebab
    /// case (`MyButton` renders as `my-button`). The name must be ASCII.
    pub fn tag_name(&self) -> (r: String)
        requires
            is_ascii_text(self.name@),
        ensures
            r@ == kebab_case(self.name@),
            kebab_shape(self.name@, r@),
    {
        to_kebab_case(self.name.as_str())
    }

    /// The tag name as `tag_name` gives it, or `None` for a name that is not
    /// ASCII (the kebab-case conversion may not hold for those).
    pub fn checked_tag_name(&self) -> (r: Option<String>)
        ensures
            is_ascii_text(self.name@) ==> (r matches Some(t) && t@ == kebab_case(self.name@) && kebab_shape(self.name@, t@)),
            !is_ascii_text(self.name@) ==> r is None,
    {
        if ascii_text(self.name.as_str()) {
            Some(self.tag_name())
        } else {
            None
        }
    }
}

impl From<Vec<Attribute>> for Attributes {
    /// The attributes, in the given order.
    fn from(attrs: Vec<Attribute>) -> (r: Self) {
        Attributes { attrs }
    }
}

impl FromSpecImpl<Vec<Attribute>> for Attributes {
    open spec fn obeys_from_spec() -> bool {
        true
    }

    open spec fn from_spec(attrs: Vec<Attribute>) -> Self {
        Attributes { attrs }
    }
}

/// The id of a partial view: its struct's name.
pub fn partial_id(name: &str) -> (r: String)
    ensures
        r@ == name@,
{
    String::from_str(name)
}

/// A live view element: an element whose content the server keeps up to
/// date, under an id.
#[derive(Debug)]
pub struct LiveView {
    pub attributes: Attributes,
    pub children: Children,
    pub id: AttributeValue,
}

impl LiveView {
    /// The short text a live view stands for.
    pub fn to_string(&self) -> (r: String)
        ensures
            r@ == "<live-view >...</live-view>"@,
    {
        String::from_str("<live-view >...</live-view>")
    }
}

/// How a block is emitted: as the code it holds, evaluated dynamically when
/// it builds more markup.
#[derive(Debug)]
pub struct BlockEmission {
    /// The block as written when it holds a statement (`;`); otherwise its
    /// text without braces, so that the bare expression is emitted.
    pub code: String,
    /// Whether the block mentions `html!` or `ahecha::`.
    pub dynamic: bool,
}

pub open spec fn contains_seq(s: Seq<char>, p: Seq<char>) -> bool {
    exists|i: int| 0 <= i && i + p.len() <= s.len() && #[trigger] s.subrange(i, i + p.len()) == p
}

/// The text without any brace character.
pub open spec fn without_braces(s: Seq<char>) -> Seq<char>
    decreases s.len(),
{
    if s.len() == 0 {
        Seq::empty()
    } else {
        let prev = without_braces(s.drop_last());
        if s.last() == '{' || s.last() == '}' { prev } else { prev.push(s.last()) }
    }
}

fn str_contains(s: &str, p: &str) -> (r: bool)
    ensures
        r == contains_seq(s@, p@),
{
    let a = crate::text::chars_of(s);
    let b = crate::text::chars_of(p);
    if b.len() > a.len() {
        return false;
    }
    if b.len() == 0 {
        assert(s@.subrange(0int, 0int + p@.len()) =~= p@);
        return true;
    }
    let mut i: usize = 0;
    while i <= a.len() - b.len()
        invariant
            a@ == s@,
            b@ == p@,
            0 < b.len() <= a.len(),
            i <= a.len() - b.len() + 1,
            forall|j: int| 0 <= j < i ==> #[trigger] s@.subrange(j, j + p@.len()) != p@,
        decreases a.len() - b.len() + 1 - i,
    {
        if crate::text::matches_at(&a, &b, i) {
            return true;
        }
        i = i + 1;
    }
    false
}

impl HtmlBlock {
    /// How this block is emitted.
    pub fn emission(&self) -> (r: BlockEmission)
        ensures
            r.code@ == (if crate::text::contains_char(self.text@, ';') { self.text@ } else { without_braces(self.text@) }),
            r.dynamic == (contains_seq(self.text@, "html!"@) || contains_seq(self.text@, "ahecha::"@)),
    {
        let cs = crate::text::chars_of(self.text.as_str());
        let mut has_semi = false;
        let mut stripped = String::new();
        let mut i: usize = 0;
        while i < cs.len()
            invariant
                cs@ == self.text@,
                i <= cs.len(),
                has_semi == crate::text::contains_char(cs@.take(i as int), ';'),
                stripped@ == without_braces(cs@.take(i as int)),
            decreases cs.len() - i,
        {
            let c = cs[i];
            assert(cs@.take(i + 1).drop_last() == cs@.take(i as int));
            assert(cs@.take(i + 1).last() == c);
            if c == ';' {
                has_semi = true;
                assert(cs@.take(i + 1)[i as int] == ';');
            } else if has_semi {
                proof {
                    let j = choose|j: int| 0 <= j < i && cs@.take(i as int)[j] == ';';
                    assert(cs@.take(i + 1)[j] == ';');
                }
            } else {
                assert forall|j: int| 0 <= j < i + 1 implies #[trigger] cs@.take(i + 1)[j] != ';' by {
                    if j < i {
                        assert(cs@.take(i + 1)[j] == cs@.take(i as int)[j]);
                    }
                }
            }
            if c != '{' && c != '}' {
                crate::text::push_char(&mut stripped, c);
            }
            i = i + 1;
        }
        assert(cs@.take(cs.len() as int) == cs@);
        let code = if has_semi { self.text.clone() } else { stripped };
        let dynamic = str_contains(self.text.as_str(), "html!") || str_contains(self.text.as_str(), "ahecha::");
        BlockEmission { code, dynamic }
    }
}

/// The kind of a statement in a block.
#[derive(Clone, Copy, PartialEq, Eq, Structural, Debug)]
pub enum StmtKind {
    Local,
    Item,
    Expr,
    Semi,
}

pub open spec fn stmts_view(v: Seq<(StmtKind, String)>) -> Seq<(StmtKind, Seq<char>)> {
    Seq::new(v.len(), |i: int| (v[i].0, v[i].1@))
}

/// `syn::Block` parsed from a block's text, with the kind of each of its
/// statements and the printed tokens of each trailing expression (empty for
/// the other kinds), or `None` where `syn` refuses the text. Nothing is
/// claimed of the outcome: `syn` lexes through the compiler inside a macro
/// expansion and through its own lexer elsewhere, and the two can disagree
/// both on whether a text lexes and on how tokens print.
#[verifier::external_body]
fn block_stmts(text: &str) -> (r: Option<Vec<(StmtKind, String)>>)
{
    match syn::parse_str::<syn::Block>(text) {
        Ok(b) => Some(b.stmts.iter().map(|s| match s {
            syn::Stmt::Local(_) => (StmtKind::Local, String::new()),
            syn::Stmt::Item(_) => (StmtKind::Item, String::new()),
            syn::Stmt::Expr(e) => (StmtKind::Expr, quote::ToTokens::to_token_stream(e).to_string()),
            syn::Stmt::Semi(_, _) => (StmtKind::Semi, String::new()),
        }).collect()),
        Err(_) => None,
    }
}

/// Whether an expression's text is a string literal with a `{..}`
/// placeholder, to be expanded with `format!`.
pub open spec fn is_format_text(e: Seq<char>) -> bool {
    &&& crate::text::starts_with(e, "\""@)
    &&& crate::text::ends_with(e, "\""@)
    &&& crate::text::contains_char(e, '{')
    &&& crate::text::contains_char(e, '}')
}

/// The format string a block attribute value is expanded with, given the
/// statements read in the block: present when the block is a single
/// expression that is a string literal with a placeholder.
pub open spec fn format_value_of(stmts: Seq<(StmtKind, Seq<char>)>) -> Option<Seq<char>> {
    if stmts.len() == 1 && stmts[0].0 == StmtKind::Expr && is_format_text(stmts[0].1) {
        Some(stmts[0].1)
    } else {
        None
    }
}

fn has_char(s: &str, c: char) -> (r: bool)
    ensures
        r == crate::text::contains_char(s@, c),
{
    let cs = crate::text::chars_of(s);
    let mut i: usize = 0;
    while i < cs.len()
        invariant
            cs@ == s@,
            i <= cs.len(),
            forall|j: int| 0 <= j < i ==> cs@[j] != c,
        decreases cs.len() - i,
    {
        if cs[i] == c {
            return true;
        }
        i = i + 1;
    }
    false
}

/// The format string an attribute value is expanded with, given the
/// statements (kind and printed text) read in its block.
pub fn format_value_from(stmts: &Vec<(StmtKind, String)>) -> (r: Option<String>)
    ensures
        match format_value_of(stmts_view(stmts@)) {
            Some(e) => r matches Some(x) && x@ == e,
            None => r is None,
        },
{
    if stmts.len() == 1 {
        let (kind, text) = &stmts[0];
        if *kind == StmtKind::Expr
            && crate::text::str_starts_with(text.as_str(), "\"")
            && crate::text::str_ends_with(text.as_str(), "\"")
            && has_char(text.as_str(), '{')
            && has_char(text.as_str(), '}')
        {
            return Some(text.clone());
        }
    }
    None
}

/// The format string that an attribute value written as the block with
/// text `block_text` is expanded with, if any: `{ "a {b}" }` sets the
/// attribute to `format!("a {b}")`. The block's statements are read by
/// `syn`, whose verdict and printed text depend on where the macro runs, so
/// what is stated is what holds either way: a format string is always a
/// string literal with a placeholder. `format_value_from` gives the result
/// exactly for the statements read.
pub fn format_value(block_text: &str) -> (r: Option<String>)
    ensures
        r matches Some(e) ==> is_format_text(e@),
{
    match block_stmts(block_text) {
        Some(v) => format_value_from(&v),
        None => None,
    }
}

} // verus!
