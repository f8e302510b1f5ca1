//! Function components (`#[page]` and `#[api]` functions): what is read
//! from the function's signature, and the naming rules each kind follows.

use vstd::prelude::*;
use crate::text::{views, ends_with, lowercase, to_lowercase, str_ends_with, chars_of, push_char};
use crate::html::{unicode_is_uppercase, is_uppercase};

verus! {

/// A parameter of a component function.
#[derive(Debug)]
pub enum FnInput {
    /// A typed parameter, by the printed text of its pattern.
    Typed(String),
    /// A `self` parameter.
    Receiver,
}

/// What a component reads from its function.
#[derive(Debug)]
pub struct FnInfo {
    pub ident: String,
    /// The patterns of the typed parameters, in order.
    pub input_names: Vec<String>,
    pub is_async: bool,
    /// Whether the function's name starts with an uppercase character.
    pub is_ident_capitalized: bool,
    /// `__{name}_metadata`.
    pub metadata_ident: String,
}

pub open spec fn self_report() -> Seq<char> {
    "Don't use `self` on components"@
}

/// The patterns of the typed parameters.
pub open spec fn typed_inputs(inputs: Seq<FnInput>) -> Seq<Seq<char>>
    decreases inputs.len(),
{
    if inputs.len() == 0 {
        Seq::empty()
    } else {
        match inputs.last() {
            FnInput::Typed(p) => typed_inputs(inputs.drop_last()).push(p@),
            FnInput::Receiver => typed_inputs(inputs.drop_last()),
        }
    }
}

/// One report for each `self` parameter.
pub open spec fn receiver_reports(inputs: Seq<FnInput>) -> Seq<Seq<char>>
    decreases inputs.len(),
{
    if inputs.len() == 0 {
        Seq::empty()
    } else {
        match inputs.last() {
            FnInput::Typed(_) => receiver_reports(inputs.drop_last()),
            FnInput::Receiver => receiver_reports(inputs.drop_last()).push(self_report()),
        }
    }
}

/// The letters that name the type parameters of a route's `uri` function,
/// one for each dynamic part of the route.
pub open spec fn uri_letters() -> Seq<char> {
    "ABCDEFGHIJKLMNOPQRSTUVWXYZ"@
}

impl FnInfo {
    /// The names of the type parameters of a `uri` function with `count`
    /// dynamic route parts: `A`, `B`, ... in order. There are only as many
    /// names as letters.
    pub fn uri_generics(count: usize) -> (r: Vec<String>)
        requires
            count <= 26,
        ensures
            r@.len() == count,
            forall|i: int| 0 <= i < count ==> #[trigger] r@[i]@ == seq![uri_letters()[i]],
    {
        let letters = chars_of("ABCDEFGHIJKLMNOPQRSTUVWXYZ");
        proof { reveal_strlit("ABCDEFGHIJKLMNOPQRSTUVWXYZ"); }
        let mut r: Vec<String> = Vec::new();
        let mut i: usize = 0;
        while i < count
            invariant
                letters@ == uri_letters(),
                uri_letters().len() == 26,
                count <= 26,
                i <= count,
                r@.len() == i,
                forall|j: int| 0 <= j < i ==> #[trigger] r@[j]@ == seq![uri_letters()[j]],
            decreases count - i,
        {
            let mut name = String::new();
            push_char(&mut name, letters[i]);
            assert(name@ == seq![uri_letters()[i as int]]);
            r.push(name);
            i = i + 1;
        }
        r
    }

    /// Reads the function named `ident` with the given parameters; also
    /// returns the reports on its `self` parameters.
    pub fn new(ident: String, is_async: bool, inputs: &Vec<FnInput>) -> (r: (FnInfo, Vec<String>))
        requires
            ident@.len() > 0,
        ensures
            r.0.ident == ident,
            r.0.is_async == is_async,
            r.0.is_ident_capitalized == unicode_is_uppercase(ident@[0]),
            r.0.metadata_ident@ == "__"@ + ident@ + "_metadata"@,
            views(r.0.input_names@) == typed_inputs(inputs@),
            views(r.1@) == receiver_reports(inputs@),
    {
        let cs = crate::text::chars_of(ident.as_str());
        let capitalized = is_uppercase(cs[0]);
        let mut names: Vec<String> = Vec::new();
        let mut reports: Vec<String> = Vec::new();
        let mut i: usize = 0;
        while i < inputs.len()
            invariant
                i <= inputs.len(),
                views(names@) == typed_inputs(inputs@.take(i as int)),
                views(reports@) == receiver_reports(inputs@.take(i as int)),
            decreases inputs.len() - i,
        {
            assert(inputs@.take(i + 1).drop_last() == inputs@.take(i as int));
            assert(inputs@.take(i + 1).last() == inputs@[i as int]);
            match &inputs[i] {
                FnInput::Typed(p) => {
                    let c = p.clone();
                    let ghost before = names@;
                    names.push(c);
                    proof { crate::text::lemma_views_push(before, c); }
                },
                FnInput::Receiver => {
                    let m = String::from_str("Don't use `self` on components");
                    let ghost before = reports@;
                    reports.push(m);
                    proof { crate::text::lemma_views_push(before, m); }
                },
            }
            i = i + 1;
        }
        assert(inputs@.take(inputs.len() as int) == inputs@);
        let mut metadata_ident = String::from_str("__");
        metadata_ident.append(ident.as_str());
        metadata_ident.append("_metadata");
        (FnInfo { ident, input_names: names, is_async, is_ident_capitalized: capitalized, metadata_ident }, reports)
    }

    /// The reports on the name of a page function: it must start with an
    /// uppercase character and end with `Page`.
    pub fn page_name_reports(&self) -> (r: Vec<String>)
        ensures
            views(r@) == page_reports(self.ident@, self.is_ident_capitalized),
    {
        let mut r: Vec<String> = Vec::new();
        if !self.is_ident_capitalized {
            let m = String::from_str("Pages must start with a upper letter");
            r.push(m);
        }
        if !str_ends_with(self.ident.as_str(), "Page") {
            let mut m = String::from_str("Pages must have the `Page` suffix, example: `");
            m.append(self.ident.as_str());
            m.append("Page`");
            let ghost before = r@;
            r.push(m);
            proof { crate::text::lemma_views_push(before, m); }
        }
        assert(views(r@) =~= page_reports(self.ident@, self.is_ident_capitalized));
        r
    }
}

/// The reports on the name of a page function.
pub open spec fn page_reports(name: Seq<char>, capitalized: bool) -> Seq<Seq<char>> {
    let a: Seq<Seq<char>> = if capitalized { Seq::empty() } else { seq!["Pages must start with a upper letter"@] };
    if ends_with(name, "Page"@) {
        a
    } else {
        a.push("Pages must have the `Page` suffix, example: `"@ + name + "Page`"@)
    }
}

/// Whether the name of an API function keeps its first character when
/// lowercased.
pub open spec fn api_name_ok(name: Seq<char>) -> bool {
    lowercase(name)[0] == name[0]
}

/// The report on the name of an API function, which must start with a
/// character that lowercasing keeps.
pub fn api_name_report(name: &str) -> (r: Option<String>)
    requires
        name@.len() > 0,
    ensures
        api_name_ok(name@) ==> r is None,
        !api_name_ok(name@) ==> (r matches Some(m) && m@ == "Rest API functions must lower case"@),
{
    let lower = to_lowercase(name);
    let a = crate::text::chars_of(lower.as_str());
    let b = crate::text::chars_of(name);
    if a[0] != b[0] {
        Some(String::from_str("Rest API functions must lower case"))
    } else {
        None
    }
}

} // verus!
