//! Routes of controller functions: the URL path a controller's source file
//! stands for, and the names of the path functions generated beside it.

use vstd::prelude::*;
use crate::text::{join, views, split, ends_with, split_str, str_ends_with, join_strings};

verus! {

/// The HTTP methods a route answers.
#[derive(Clone, Copy, PartialEq, Eq, Structural, Debug)]
pub enum HttpMethod {
    Delete,
    Get,
    Patch,
    Post,
    Put,
}

/// Why a controller's source path cannot be turned into a route.
#[derive(Clone, Copy, PartialEq, Eq, Structural, Debug)]
pub enum RouteError {
    /// The path holds `src/` more than once.
    NestedSrc,
    /// A source file in the path is not named `{name}_controller.rs`.
    ControllerNaming,
}

/// The message a route error is reported with.
pub open spec fn route_error_message(e: RouteError) -> Seq<char> {
    match e {
        RouteError::NestedSrc => "We don't support routes under an src user module, this means that you can't name your module `src`"@,
        RouteError::ControllerNaming => "The naming convention dictates that this macro can only be used under a file named `{name}_controller.rs`"@,
    }
}

impl RouteError {
    /// The message this error is reported with.
    pub fn message(&self) -> (r: String)
        ensures
            r@ == route_error_message(*self),
    {
        match self {
            RouteError::NestedSrc => String::from_str("We don't support routes under an src user module, this means that you can't name your module `src`"),
            RouteError::ControllerNaming => String::from_str("The naming convention dictates that this macro can only be used under a file named `{name}_controller.rs`"),
        }
    }
}

/// The URL segments of source path segments, and the complaints about them:
/// a `.rs` file must be a `_controller.rs` file and contributes its name
/// without that suffix; other segments are kept as they are.
pub open spec fn route_segments(parts: Seq<Seq<char>>) -> (Seq<Seq<char>>, Seq<RouteError>)
    decreases parts.len(),
{
    if parts.len() == 0 {
        (Seq::empty(), Seq::empty())
    } else {
        let (kept, errors) = route_segments(parts.drop_last());
        let v = parts.last();
        if ends_with(v, ".rs"@) {
            if ends_with(v, "_controller.rs"@) {
                (kept.push(v.subrange(0, v.len() - "_controller.rs"@.len())), errors)
            } else {
                (kept, errors.push(RouteError::ControllerNaming))
            }
        } else {
            (kept.push(v), errors)
        }
    }
}

/// The route of a controller source file: the part of its path after `src/`,
/// with the controller file name cut to its stem, under a leading `/`.
pub open spec fn route_of(path: Seq<char>) -> (Seq<char>, Seq<RouteError>) {
    let segments = split(path, "src/"@);
    if segments.len() > 2 {
        (Seq::empty(), seq![RouteError::NestedSrc])
    } else {
        let (kept, errors) = route_segments(split(segments.last(), "/"@));
        ("/"@ + join(kept, "/"@), errors)
    }
}

/// A route and the complaints met while building it.
#[derive(Debug)]
pub struct RoutePath {
    pub url: String,
    pub errors: Vec<RouteError>,
}

/// The route of the controller whose source file is at `path`.
pub fn create_path(path: &str) -> (r: RoutePath)
    ensures
        (r.url@, r.errors@) == route_of(path@),
{
    proof {
        reveal_strlit("src/");
        reveal_strlit("/");
    }
    let segments = split_str(path, "src/");
    if segments.len() > 2 {
        return RoutePath { url: String::new(), errors: vec![RouteError::NestedSrc] };
    }
    assert(segments@.len() > 0) by {
        crate::text::lemma_split_nonempty(path@, "src/"@, 0, 0, Seq::empty());
    }
    let last = &segments[segments.len() - 1];
    assert(last@ == split(path@, "src/"@).last());
    let parts = split_str(last.as_str(), "/");
    let mut kept: Vec<String> = Vec::new();
    let mut errors: Vec<RouteError> = Vec::new();
    let mut i: usize = 0;
    while i < parts.len()
        invariant
            i <= parts.len(),
            (views(kept@), errors@) == route_segments(views(parts@).take(i as int)),
        decreases parts.len() - i,
    {
        let v = &parts[i];
        assert(views(parts@).take(i + 1).drop_last() == views(parts@).take(i as int));
        assert(views(parts@).take(i + 1).last() == v@);
        if str_ends_with(v.as_str(), ".rs") {
            if str_ends_with(v.as_str(), "_controller.rs") {
                let cs = crate::text::chars_of(v.as_str());
                let suffix = crate::text::chars_of("_controller.rs");
                let stem = crate::text::string_of_range(&cs, 0, cs.len() - suffix.len());
                let ghost before = kept@;
                kept.push(stem);
                proof { crate::text::lemma_views_push(before, stem); }
            } else {
                errors.push(RouteError::ControllerNaming);
            }
        } else {
            let ghost before = kept@;
            kept.push(v.clone());
            proof { crate::text::lemma_views_push(before, *v); }
        }
        i = i + 1;
    }
    assert(views(parts@).take(parts.len() as int) == views(parts@));
    let mut url = String::from_str("/");
    let joined = join_strings(&kept, "/");
    url.append(joined.as_str());
    RoutePath { url, errors }
}

/// The names of the functions generated beside a controller function
/// `name`: `{name}_path` and `{name}_route_path`.
pub fn route_fn_names(name: &str) -> (r: (String, String))
    ensures
        r.0@ == name@ + "_path"@,
        r.1@ == name@ + "_route_path"@,
{
    let mut a = String::from_str(name);
    a.append("_path");
    let mut b = String::from_str(name);
    b.append("_route_path");
    (a, b)
}

} // verus!
