//! The typed HTML element table (`typed_html!`): element groups read from
//! a list of `name;` entries.

use vstd::prelude::*;
use crate::tokens::TokenTree;
use crate::html::{ident_at, ident_at_e};

verus! {

/// An attribute of an element and its Rust type.
#[derive(Debug)]
pub struct Attr {
    pub name: String,
    pub ty: String,
}

/// An element and its attributes.
#[derive(Debug)]
pub struct Tag {
    pub name: String,
    pub attrs: Vec<Attr>,
}

/// A named group of elements.
#[derive(Debug)]
pub struct ElementGroup {
    pub name: String,
    pub tags: Vec<Tag>,
}

/// The element table.
#[derive(Debug)]
pub struct TypedHtml {
    pub groups: Vec<ElementGroup>,
}

impl TypedHtml {
    /// Reads the element table. Reading an entry (which starts with an
    /// element name) is not supported, so the input must not start with one:
    /// an empty input gives the empty table, any other an error (an
    /// identifier was expected).
    pub fn parse(t: &Vec<TokenTree>) -> (r: Result<TypedHtml, ()>)
        requires
            !ident_at(t@, 0),
        ensures
            t@.len() == 0 ==> (r matches Ok(h) && h.groups@.len() == 0),
            t@.len() > 0 ==> r is Err,
    {
        if t.len() == 0 {
            Ok(TypedHtml { groups: Vec::new() })
        } else {
            Err(())
        }
    }

    /// Reads the element table as `parse` does, or `None` where the input
    /// starts with an entry.
    pub fn checked_parse(t: &Vec<TokenTree>) -> (r: Option<Result<TypedHtml, ()>>)
        ensures
            r is None <==> ident_at(t@, 0),
            r matches Some(res) ==> (t@.len() == 0 ==> (res matches Ok(h) && h.groups@.len() == 0))
                && (t@.len() > 0 ==> res is Err),
    {
        if ident_at_e(t, 0) {
            None
        } else {
            Some(TypedHtml::parse(t))
        }
    }
}

} // verus!
