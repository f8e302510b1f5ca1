//! The token trees that the macros read, held as plain values: each token
//! keeps the text that the compiler's token printer gives it.

use vstd::prelude::*;

verus! {

/// How a group of tokens is delimited.
#[derive(Clone, Copy, PartialEq, Eq, Structural, Debug)]
pub enum Delimiter {
    /// `( ... )`
    Parenthesis,
    /// `{ ... }`
    Brace,
    /// `[ ... ]`
    Bracket,
    /// An invisible group (no delimiter).
    Invisible,
}

/// A delimited group: its delimiter, its tokens and its printed text.
#[derive(Debug)]
pub struct Group {
    pub delimiter: Delimiter,
    pub stream: Vec<TokenTree>,
    pub text: String,
}

/// One token tree.
#[derive(Debug)]
pub enum TokenTree {
    /// A delimited group.
    Group(Group),
    /// An identifier or keyword, by its name.
    Ident(String),
    /// A single punctuation character.
    Punct(char),
    /// A literal, by its source text (quotes included).
    Literal(String),
}

/// The printed text of a token tree.
pub open spec fn token_text(t: TokenTree) -> Seq<char> {
    match t {
        TokenTree::Group(g) => g.text@,
        TokenTree::Ident(s) => s@,
        TokenTree::Punct(c) => seq![c],
        TokenTree::Literal(s) => s@,
    }
}

/// The printed text of a token tree.
pub fn token_to_string(t: &TokenTree) -> (r: String)
    ensures
        r@ == token_text(*t),
{
    match t {
        TokenTree::Group(g) => g.text.clone(),
        TokenTree::Ident(s) => s.clone(),
        TokenTree::Punct(c) => {
            let mut r = String::new();
            crate::text::push_char(&mut r, *c);
            assert(Seq::<char>::empty().push(*c) == seq![*c]);
            r
        },
        TokenTree::Literal(s) => s.clone(),
    }
}

pub open spec fn is_punct(t: TokenTree, c: char) -> bool {
    t matches TokenTree::Punct(p) && p == c
}

pub open spec fn is_group(t: TokenTree, d: Delimiter) -> bool {
    t matches TokenTree::Group(g) && g.delimiter == d
}

/// Whether `t` is the punctuation character `c`.
pub fn punct_is(t: &TokenTree, c: char) -> (r: bool)
    ensures
        r == is_punct(*t, c),
{
    match t {
        TokenTree::Punct(p) => *p == c,
        _ => false,
    }
}

/// Whether `t` is a group delimited by `d`.
pub fn group_is(t: &TokenTree, d: Delimiter) -> (r: bool)
    ensures
        r == is_group(*t, d),
{
    match t {
        TokenTree::Group(g) => g.delimiter == d,
        _ => false,
    }
}

} // verus!
