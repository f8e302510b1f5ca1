//! The `#[page]` derive of a page struct: its route (with the struct fields
//! that the route's `:param` segments fill), its layout, the HTTP methods it
//! answers, and the names the generated handler and router code use.

use vstd::prelude::*;
use crate::text::{split, starts_with, views, lowercase, to_lowercase, split_str, str_eq, str_starts_with};

verus! {

// ---------------------------------------------------------------------------
// Methods

/// An HTTP method a page answers.
#[derive(Clone, Copy, PartialEq, Eq, Structural, Debug)]
pub enum Method {
    DELETE,
    GET,
    PATCH,
    POST,
    PUT,
}

/// The method a lowercase name stands for.
pub open spec fn method_named(s: Seq<char>) -> Option<Method> {
    if s == "delete"@ {
        Some(Method::DELETE)
    } else if s == "get"@ {
        Some(Method::GET)
    } else if s == "patch"@ {
        Some(Method::PATCH)
    } else if s == "post"@ {
        Some(Method::POST)
    } else if s == "put"@ {
        Some(Method::PUT)
    } else {
        None
    }
}

/// The method a name stands for, in any letter case.
pub open spec fn method_of(name: Seq<char>) -> Option<Method> {
    method_named(lowercase(name))
}

/// The variant of the framework's `HttpMethod` that a method is emitted as
/// (the patch method is emitted as `PATH`).
pub open spec fn variant_ident(m: Method) -> Seq<char> {
    match m {
        Method::DELETE => "DELETE"@,
        Method::GET => "GET"@,
        Method::PATCH => "PATH"@,
        Method::POST => "POST"@,
        Method::PUT => "PUT"@,
    }
}

/// The typed router method that mounts a handler for a method.
pub open spec fn typed_route_fn(m: Method) -> Seq<char> {
    match m {
        Method::DELETE => "typed_delete"@,
        Method::GET => "typed_get"@,
        Method::PATCH => "typed_patch"@,
        Method::POST => "typed_post"@,
        Method::PUT => "typed_put"@,
    }
}

fn lowercase_method(lower: &str) -> (r: Option<Method>)
    ensures
        r == method_named(lower@),
{
    if str_eq(lower, "delete") {
        Some(Method::DELETE)
    } else if str_eq(lower, "get") {
        Some(Method::GET)
    } else if str_eq(lower, "patch") {
        Some(Method::PATCH)
    } else if str_eq(lower, "post") {
        Some(Method::POST)
    } else if str_eq(lower, "put") {
        Some(Method::PUT)
    } else {
        None
    }
}

impl Method {
    /// The method named by the first segment of a `#[method(..)]` path, in
    /// any letter case. The name must be one of the five methods.
    pub fn from(name: &str) -> (r: Method)
        requires
            method_of(name@) is Some,
        ensures
            method_of(name@) == Some(r),
    {
        let lower = to_lowercase(name);
        lowercase_method(lower.as_str()).unwrap()
    }

    /// The method named by `name`, if it names one.
    pub fn parse(name: &str) -> (r: Option<Method>)
        ensures
            r == method_of(name@),
    {
        let lower = to_lowercase(name);
        if lowercase_method(lower.as_str()).is_some() {
            Some(Method::from(name))
        } else {
            None
        }
    }

    /// The `HttpMethod` variant this method is emitted as.
    pub fn variant(&self) -> (r: String)
        ensures
            r@ == variant_ident(*self),
    {
        match self {
            Method::DELETE => String::from_str("DELETE"),
            Method::GET => String::from_str("GET"),
            Method::PATCH => String::from_str("PATH"),
            Method::POST => String::from_str("POST"),
            Method::PUT => String::from_str("PUT"),
        }
    }

    /// The typed router method that mounts a handler for this method.
    pub fn typed_route(&self) -> (r: String)
        ensures
            r@ == typed_route_fn(*self),
    {
        match self {
            Method::DELETE => String::from_str("typed_delete"),
            Method::GET => String::from_str("typed_get"),
            Method::PATCH => String::from_str("typed_patch"),
            Method::POST => String::from_str("typed_post"),
            Method::PUT => String::from_str("typed_put"),
        }
    }
}

proof fn lemma_typed_route_parts(m: Method)
    ensures
        typed_route_fn(m).len() > 6,
        typed_route_fn(m).take(6) == "typed_"@,
        method_named(typed_route_fn(m).skip(6)) == Some(m),
{
    reveal_strlit("typed_");
    reveal_strlit("typed_delete");
    reveal_strlit("typed_get");
    reveal_strlit("typed_patch");
    reveal_strlit("typed_post");
    reveal_strlit("typed_put");
    reveal_strlit("delete");
    reveal_strlit("get");
    reveal_strlit("patch");
    reveal_strlit("post");
    reveal_strlit("put");
    let t = typed_route_fn(m);
    assert(t.take(6) =~= "typed_"@);
    match m {
        Method::DELETE => { assert(t.skip(6) =~= "delete"@); },
        Method::GET => {
            assert(t.skip(6) =~= "get"@);
            assert("get"@[0] != "delete"@[0]);
        },
        Method::PATCH => {
            assert(t.skip(6) =~= "patch"@);
            assert("patch"@[0] != "delete"@[0]);
            assert("patch"@[0] != "get"@[0]);
        },
        Method::POST => {
            assert(t.skip(6) =~= "post"@);
            assert("post"@[0] != "delete"@[0]);
            assert("post"@[0] != "get"@[0]);
            assert("post"@[1] != "patch"@[1]);
        },
        Method::PUT => {
            assert(t.skip(6) =~= "put"@);
            assert("put"@[0] != "get"@[0]);
            assert("put"@[1] != "post"@[1]);
            assert("put"@[0] != "delete"@[0]);
        },
    }
}

/// The typed router method that mounts a handler for a method is `typed_`
/// followed by a name that reads back, as a method name, as that same
/// method; so distinct methods are mounted by distinct router methods.
pub proof fn law_typed_route_names_its_method(m: Method, n: Method)
    ensures
        typed_route_fn(m).len() > 6,
        typed_route_fn(m).take(6) == "typed_"@,
        method_named(typed_route_fn(m).skip(6)) == Some(m),
        m != n ==> typed_route_fn(m) != typed_route_fn(n),
{
    lemma_typed_route_parts(m);
    lemma_typed_route_parts(n);
}

// ---------------------------------------------------------------------------
// Route path

/// The `:param` segments among the segments of a route.
pub open spec fn path_params(parts: Seq<Seq<char>>) -> Seq<Seq<char>>
    decreases parts.len(),
{
    if parts.len() == 0 {
        Seq::empty()
    } else if starts_with(parts.last(), ":"@) {
        path_params(parts.drop_last()).push(parts.last())
    } else {
        path_params(parts.drop_last())
    }
}

/// The positions of the named fields that a `:name` parameter fills, in
/// order.
pub open spec fn path_field_indices(fields: Seq<Option<String>>, params: Seq<Seq<char>>) -> Seq<usize>
    decreases fields.len(),
{
    if fields.len() == 0 {
        Seq::empty()
    } else {
        let prev = path_field_indices(fields.drop_last(), params);
        match fields.last() {
            Some(n) => if params.contains(":"@ + n@) {
                prev.push((fields.len() - 1) as usize)
            } else {
                prev
            },
            None => prev,
        }
    }
}

/// The typed path of a page: its route, the fields its parameters fill (by
/// position among the struct's fields) and the name of the path type.
#[derive(Debug)]
pub struct PagePath {
    pub fields: Vec<usize>,
    pub ident: String,
    pub path: String,
}

fn contains_string(v: &Vec<String>, s: &String) -> (r: bool)
    ensures
        r == views(v@).contains(s@),
{
    let mut i: usize = 0;
    while i < v.len()
        invariant
            i <= v.len(),
            forall|j: int| 0 <= j < i ==> v@[j]@ != s@,
        decreases v.len() - i,
    {
        if str_eq(v[i].as_str(), s.as_str()) {
            assert(views(v@)[i as int] == s@);
            return true;
        }
        i = i + 1;
    }
    assert forall|j: int| 0 <= j < views(v@).len() implies #[trigger] views(v@)[j] != s@ by {
        assert(v@[j]@ != s@);
    }
    false
}

impl PagePath {
    /// The typed path of the route `path` of the page struct `ident` whose
    /// fields have the given names (`None` for an unnamed field).
    pub fn new(path: String, ident: &str, fields: &Vec<Option<String>>) -> (r: PagePath)
        ensures
            r.path@ == path@,
            r.ident@ == ident@ + "Path"@,
            r.fields@ == path_field_indices(fields@, path_params(split(path@, "/"@))),
    {
        proof { reveal_strlit("/"); reveal_strlit(":"); }
        let parts = split_str(path.as_str(), "/");
        let mut params: Vec<String> = Vec::new();
        let mut i: usize = 0;
        while i < parts.len()
            invariant
                i <= parts.len(),
                views(params@) == path_params(views(parts@).take(i as int)),
            decreases parts.len() - i,
        {
            assert(views(parts@).take(i + 1).drop_last() == views(parts@).take(i as int));
            assert(views(parts@).take(i + 1).last() == parts@[i as int]@);
            if str_starts_with(parts[i].as_str(), ":") {
                let p = parts[i].clone();
                let ghost before = params@;
                params.push(p);
                proof { crate::text::lemma_views_push(before, p); }
            }
            i = i + 1;
        }
        assert(views(parts@).take(parts.len() as int) == views(parts@));
        let ghost ps = views(params@);
        let mut kept: Vec<usize> = Vec::new();
        let mut k: usize = 0;
        while k < fields.len()
            invariant
                k <= fields.len(),
                ps == views(params@),
                kept@ == path_field_indices(fields@.take(k as int), ps),
            decreases fields.len() - k,
        {
            assert(fields@.take(k + 1).drop_last() == fields@.take(k as int));
            assert(fields@.take(k + 1).last() == fields@[k as int]);
            match &fields[k] {
                Some(n) => {
                    let mut key = String::from_str(":");
                    key.append(n.as_str());
                    if contains_string(&params, &key) {
                        kept.push(k);
                    }
                },
                None => {},
            }
            k = k + 1;
        }
        assert(fields@.take(fields.len() as int) == fields@);
        let mut name = String::from_str(ident);
        name.append("Path");
        PagePath { fields: kept, ident: name, path }
    }
}

// ---------------------------------------------------------------------------
// Page attributes

/// The `#[method(..)]` attribute of a page, as its meta reads.
#[derive(Debug)]
pub enum MethodAttr {
    /// The attribute written as a bare path: the name of the path's first
    /// segment.
    Path(String),
    /// A list: for each item, the name of its first segment when the item is
    /// a path, else `None`.
    List(Vec<Option<String>>),
    /// Any other form.
    Other,
}

/// The attributes of a page struct that the derive reads, each absent or
/// read (its argument, or the parser's error message).
#[derive(Debug)]
pub struct PageAttrs {
    /// `#[route("...")]`: the route text.
    pub route: Option<Result<String, String>>,
    /// `#[layout(Ident)]`: the layout type's name.
    pub layout: Option<Result<String, String>>,
    /// `#[method(..)]`.
    pub method: Option<Result<MethodAttr, String>>,
}

/// Whether every method that a `#[method(..)]` attribute names is known (a
/// list item that is not a path names no method).
pub open spec fn method_attr_ok(a: MethodAttr) -> bool {
    match a {
        MethodAttr::Path(n) => method_of(n@) is Some,
        MethodAttr::List(items) => forall|i: int| 0 <= i < items@.len() ==>
            (#[trigger] items@[i] matches Some(n) && method_of(n@) is Some),
        MethodAttr::Other => true,
    }
}

/// The methods a `#[method(..)]` attribute names, in order.
pub open spec fn methods_of(a: MethodAttr) -> Seq<Method> {
    match a {
        MethodAttr::Path(n) => seq![method_of(n@).unwrap()],
        MethodAttr::List(items) => Seq::new(items@.len(), |i: int| method_of(items@[i].unwrap()@).unwrap()),
        MethodAttr::Other => Seq::empty(),
    }
}

pub open spec fn route_required() -> Seq<char> {
    "`#[route]` attribute is required"@
}

pub open spec fn layout_required() -> Seq<char> {
    "`#[layout]` attribute is required"@
}

pub open spec fn method_syntax() -> Seq<char> {
    "`#[method]` attribute doesn't support the specified syntax"@
}

/// What the method attribute of a page gives: the methods it names, or the
/// error it is reported with.
pub open spec fn read_methods(m: Option<Result<MethodAttr, String>>) -> Result<Seq<Method>, Seq<char>> {
    match m {
        None => Ok(Seq::empty()),
        Some(Err(e)) => Err(e@),
        Some(Ok(MethodAttr::Other)) => Err(method_syntax()),
        Some(Ok(a)) => Ok(methods_of(a)),
    }
}

/// What the derive reads from a page's attributes, in the order it reads
/// them: the route, the layout, then the methods (`GET` when none is named).
pub open spec fn page_outcome(attrs: PageAttrs) -> Result<(Seq<char>, Seq<char>, Seq<Method>), Seq<char>> {
    match attrs.route {
        None => Err(route_required()),
        Some(Err(e)) => Err(e@),
        Some(Ok(p)) => match attrs.layout {
            None => Err(layout_required()),
            Some(Err(e)) => Err(e@),
            Some(Ok(l)) => match read_methods(attrs.method) {
                Err(e) => Err(e),
                Ok(ms) => Ok((p@, l@, if ms.len() == 0 { seq![Method::GET] } else { ms })),
            },
        },
    }
}

/// What the nested-page derive reads: the route, then the methods (none by
/// default).
pub open spec fn page_v2_outcome(attrs: PageAttrs) -> Result<(Seq<char>, Seq<Method>), Seq<char>> {
    match attrs.route {
        None => Err(route_required()),
        Some(Err(e)) => Err(e@),
        Some(Ok(p)) => match read_methods(attrs.method) {
            Err(e) => Err(e),
            Ok(ms) => Ok((p@, ms)),
        },
    }
}

/// Whether reading a page's attributes gets as far as its method attribute
/// and finds a method it does not know there (the derive stops on that).
pub open spec fn page_stops(attrs: PageAttrs) -> bool {
    &&& attrs.route matches Some(Ok(_))
    &&& attrs.layout matches Some(Ok(_))
    &&& attrs.method matches Some(Ok(a)) && !method_attr_ok(a)
}

/// Whether reading a nested page's attributes finds a method it does not know.
pub open spec fn page_v2_stops(attrs: PageAttrs) -> bool {
    &&& attrs.route matches Some(Ok(_))
    &&& attrs.method matches Some(Ok(a)) && !method_attr_ok(a)
}

fn method_attr_valid(a: &MethodAttr) -> (r: bool)
    ensures
        r == method_attr_ok(*a),
{
    match a {
        MethodAttr::Path(n) => Method::parse(n.as_str()).is_some(),
        MethodAttr::List(items) => {
            let mut i: usize = 0;
            while i < items.len()
                invariant
                    *a == MethodAttr::List(*items),
                    i <= items@.len(),
                    forall|j: int| 0 <= j < i ==> (#[trigger] items@[j] matches Some(n) && method_of(n@) is Some),
                decreases items.len() - i,
            {
                match &items[i] {
                    Some(n) => {
                        if Method::parse(n.as_str()).is_none() {
                            assert(!(items@[i as int] matches Some(n) && method_of(n@) is Some));
                            return false;
                        }
                    },
                    None => {
                        assert(!(items@[i as int] matches Some(n) && method_of(n@) is Some));
                        return false;
                    },
                }
                i = i + 1;
            }
            true
        },
        MethodAttr::Other => true,
    }
}

fn read_method_attr(m: Option<Result<MethodAttr, String>>) -> (r: Result<Vec<Method>, String>)
    requires
        m matches Some(Ok(a)) ==> method_attr_ok(a),
    ensures
        match read_methods(m) {
            Ok(ms) => r matches Ok(v) && v@ == ms,
            Err(e) => r matches Err(x) && x@ == e,
        },
{
    match m {
        None => Ok(Vec::new()),
        Some(Err(e)) => Err(e),
        Some(Ok(MethodAttr::Path(n))) => {
            let mut v = Vec::new();
            v.push(Method::from(n.as_str()));
            assert(v@ == seq![method_of(n@).unwrap()]);
            Ok(v)
        },
        Some(Ok(MethodAttr::List(items))) => {
            let mut v: Vec<Method> = Vec::new();
            let mut i: usize = 0;
            while i < items.len()
                invariant
                    i <= items@.len(),
                    forall|j: int| 0 <= j < items@.len() ==> (#[trigger] items@[j] matches Some(n) && method_of(n@) is Some),
                    v@ == Seq::new(i as nat, |j: int| method_of(items@[j].unwrap()@).unwrap()),
                decreases items.len() - i,
            {
                let ghost it = items@[i as int];
                match &items[i] {
                    Some(n) => {
                        v.push(Method::from(n.as_str()));
                    },
                    None => {
                        assert(it matches Some(_));
                    },
                }
                assert(v@ =~= Seq::new((i + 1) as nat, |j: int| method_of(items@[j].unwrap()@).unwrap()));
                i = i + 1;
            }
            Ok(v)
        },
        Some(Ok(MethodAttr::Other)) => Err(String::from_str("`#[method]` attribute doesn't support the specified syntax")),
    }
}

// ---------------------------------------------------------------------------
// Pages

/// A page struct: its name, the names of its fields, its layout, the methods
/// it answers and its typed path.
#[derive(Debug)]
pub struct Page {
    pub ident: String,
    pub fields: Vec<Option<String>>,
    pub layout_ident: String,
    pub methods: Vec<Method>,
    pub path: PagePath,
}

/// The typed path of a page struct with route `route`.
pub open spec fn page_path_ok(p: PagePath, ident: Seq<char>, fields: Seq<Option<String>>, route: Seq<char>) -> bool {
    &&& p.path@ == route
    &&& p.ident@ == ident + "Path"@
    &&& p.fields@ == path_field_indices(fields, path_params(split(route, "/"@)))
}

impl Page {
    /// Reads a page struct named `ident`, with fields named `fields`, from its
    /// attributes. The methods it names must be known ones.
    pub fn parse(ident: String, fields: Vec<Option<String>>, attrs: PageAttrs) -> (r: Result<Page, String>)
        requires
            !page_stops(attrs),
        ensures
            match page_outcome(attrs) {
                Ok((route, layout, methods)) => r matches Ok(p) && p.ident == ident && p.fields == fields
                    && p.layout_ident@ == layout && p.methods@ == methods
                    && page_path_ok(p.path, ident@, fields@, route)
                    && page_wf(p.fields@, p.path.fields@),
                Err(e) => r matches Err(x) && x@ == e,
            },
    {
        let route = match attrs.route {
            None => {
                return Err(String::from_str("`#[route]` attribute is required"));
            },
            Some(Err(e)) => {
                return Err(e);
            },
            Some(Ok(p)) => p,
        };
        let path = PagePath::new(route, ident.as_str(), &fields);
        let _field_count = fields.len();
        proof { lemma_path_field_indices_wf(fields@, path_params(split(path.path@, "/"@))); }
        let layout_ident = match attrs.layout {
            None => {
                return Err(String::from_str("`#[layout]` attribute is required"));
            },
            Some(Err(e)) => {
                return Err(e);
            },
            Some(Ok(l)) => l,
        };
        let methods = match read_method_attr(attrs.method) {
            Err(e) => {
                return Err(e);
            },
            Ok(ms) => ms,
        };
        let methods = if methods.len() == 0 {
            let mut v = Vec::new();
            v.push(Method::GET);
            assert(v@ == seq![Method::GET]);
            v
        } else {
            methods
        };
        Ok(Page { ident, fields, layout_ident, methods, path })
    }

    /// Reads a page as `parse` does, or `None` where reading it would stop on
    /// a method it does not know.
    pub fn checked_parse(ident: String, fields: Vec<Option<String>>, attrs: PageAttrs) -> (r: Option<Result<Page, String>>)
        ensures
            page_stops(attrs) <==> r is None,
            r matches Some(res) ==> match page_outcome(attrs) {
                Ok((route, layout, methods)) => res matches Ok(p) && p.ident == ident && p.fields == fields
                    && p.layout_ident@ == layout && p.methods@ == methods
                    && page_path_ok(p.path, ident@, fields@, route),
                Err(e) => res matches Err(x) && x@ == e,
            },
    {
        let stops = match (&attrs.route, &attrs.layout, &attrs.method) {
            (Some(Ok(_)), Some(Ok(_)), Some(Ok(a))) => !method_attr_valid(a),
            _ => false,
        };
        if stops {
            None
        } else {
            Some(Page::parse(ident, fields, attrs))
        }
    }
}

/// A page mounted under another one.
#[derive(Debug)]
pub struct PageV2 {
    pub is_nested: bool,
    pub ident: String,
    pub fields: Vec<Option<String>>,
    pub methods: Vec<Method>,
    pub path: PagePath,
}

impl PageV2 {
    /// Marks the page as nested (or not).
    pub fn set_nested(&mut self, is_nested: bool)
        ensures
            final(self).is_nested == is_nested,
            final(self).ident == old(self).ident,
            final(self).fields == old(self).fields,
            final(self).methods == old(self).methods,
            final(self).path == old(self).path,
    {
        self.is_nested = is_nested;
    }

    /// Reads a nested page struct from its attributes; it is not nested yet.
    /// The methods it names must be known ones.
    pub fn parse(ident: String, fields: Vec<Option<String>>, attrs: PageAttrs) -> (r: Result<PageV2, String>)
        requires
            !page_v2_stops(attrs),
        ensures
            match page_v2_outcome(attrs) {
                Ok((route, methods)) => r matches Ok(p) && !p.is_nested && p.ident == ident
                    && p.fields == fields && p.methods@ == methods
                    && page_path_ok(p.path, ident@, fields@, route),
                Err(e) => r matches Err(x) && x@ == e,
            },
    {
        let route = match attrs.route {
            None => {
                return Err(String::from_str("`#[route]` attribute is required"));
            },
            Some(Err(e)) => {
                return Err(e);
            },
            Some(Ok(p)) => p,
        };
        let path = PagePath::new(route, ident.as_str(), &fields);
        let methods = match read_method_attr(attrs.method) {
            Err(e) => {
                return Err(e);
            },
            Ok(ms) => ms,
        };
        Ok(PageV2 { is_nested: false, ident, fields, methods, path })
    }

    /// Reads a nested page as `parse` does, or `None` where reading it would
    /// stop on a method it does not know.
    pub fn checked_parse(ident: String, fields: Vec<Option<String>>, attrs: PageAttrs) -> (r: Option<Result<PageV2, String>>)
        ensures
            page_v2_stops(attrs) <==> r is None,
            r matches Some(res) ==> match page_v2_outcome(attrs) {
                Ok((route, methods)) => res matches Ok(p) && !p.is_nested && p.ident == ident
                    && p.fields == fields && p.methods@ == methods
                    && page_path_ok(p.path, ident@, fields@, route),
                Err(e) => res matches Err(x) && x@ == e,
            },
    {
        let stops = match (&attrs.route, &attrs.method) {
            (Some(Ok(_)), Some(Ok(a))) => !method_attr_valid(a),
            _ => false,
        };
        if stops {
            None
        } else {
            Some(PageV2::parse(ident, fields, attrs))
        }
    }
}

// ---------------------------------------------------------------------------
// Generated handler and router

/// Whether the path fields of a page are positions of named fields.
pub open spec fn page_wf(fields: Seq<Option<String>>, path_fields: Seq<usize>) -> bool {
    forall|i: int| 0 <= i < path_fields.len() ==>
        (#[trigger] path_fields[i]) < fields.len() && fields[path_fields[i] as int] is Some
}

proof fn lemma_path_field_indices_wf(fields: Seq<Option<String>>, params: Seq<Seq<char>>)
    requires
        fields.len() <= usize::MAX,
    ensures
        page_wf(fields, path_field_indices(fields, params)),
    decreases fields.len(),
{
    if fields.len() > 0 {
        let t = fields.drop_last();
        lemma_path_field_indices_wf(t, params);
        let prev = path_field_indices(t, params);
        let cur = path_field_indices(fields, params);
        assert(cur == prev || (cur == prev.push((fields.len() - 1) as usize) && fields.last() is Some));
        assert forall|i: int| 0 <= i < cur.len() implies (#[trigger] cur[i]) < fields.len() && fields[cur[i] as int] is Some by {
            if i < prev.len() {
                assert(cur[i] == prev[i]);
                assert(prev[i] < t.len());
                assert(fields[prev[i] as int] == t[prev[i] as int]);
            } else {
                assert(cur == prev.push((fields.len() - 1) as usize));
            }
        }
    }
}

/// The names of the fields at the given positions.
pub open spec fn named_at(fields: Seq<Option<String>>, idx: Seq<usize>) -> Seq<Seq<char>> {
    Seq::new(idx.len(), |i: int| fields[idx[i] as int].unwrap()@)
}

/// The names of the named fields that are not among `taken`, in order.
pub open spec fn other_fields(fields: Seq<Option<String>>, taken: Seq<Seq<char>>) -> Seq<Seq<char>>
    decreases fields.len(),
{
    if fields.len() == 0 {
        Seq::empty()
    } else {
        let prev = other_fields(fields.drop_last(), taken);
        match fields.last() {
            Some(n) => if taken.contains(n@) { prev } else { prev.push(n@) },
            None => prev,
        }
    }
}

/// The typed router methods of a list of methods.
pub open spec fn typed_routes(ms: Seq<Method>) -> Seq<Seq<char>> {
    Seq::new(ms.len(), |i: int| typed_route_fn(ms[i]))
}

/// The `HttpMethod` variants of a list of methods.
pub open spec fn variants(ms: Seq<Method>) -> Seq<Seq<char>> {
    Seq::new(ms.len(), |i: int| variant_ident(ms[i]))
}

/// The names the generated handler module of a page uses: the module, the
/// path type, the fields the path fills, the other fields (taken from the
/// request), and the typed router methods that mount the handler.
#[derive(Debug)]
pub struct PageHandler {
    pub mod_ident: String,
    pub path_ident: String,
    pub path_params: Vec<String>,
    pub params: Vec<String>,
    pub typed_routes: Vec<String>,
}

fn names_at(fields: &Vec<Option<String>>, idx: &Vec<usize>) -> (r: Vec<String>)
    requires
        page_wf(fields@, idx@),
    ensures
        views(r@) == named_at(fields@, idx@),
{
    let mut r: Vec<String> = Vec::new();
    let mut i: usize = 0;
    while i < idx.len()
        invariant
            i <= idx.len(),
            page_wf(fields@, idx@),
            views(r@) == named_at(fields@, idx@).take(i as int),
        decreases idx.len() - i,
    {
        let k = idx[i];
        assert(k < fields@.len() && fields@[k as int] is Some);
        let n = fields[k].as_ref().unwrap().clone();
        let ghost before = r@;
        r.push(n);
        proof { crate::text::lemma_views_push(before, n); }
        assert(named_at(fields@, idx@).take(i + 1) =~= named_at(fields@, idx@).take(i as int).push(n@));
        i = i + 1;
    }
    assert(named_at(fields@, idx@).take(idx.len() as int) =~= named_at(fields@, idx@));
    r
}

fn route_names(ms: &Vec<Method>, typed: bool) -> (r: Vec<String>)
    ensures
        typed ==> views(r@) == typed_routes(ms@),
        !typed ==> views(r@) == variants(ms@),
{
    let mut r: Vec<String> = Vec::new();
    let mut i: usize = 0;
    while i < ms.len()
        invariant
            i <= ms.len(),
            typed ==> views(r@) == typed_routes(ms@).take(i as int),
            !typed ==> views(r@) == variants(ms@).take(i as int),
        decreases ms.len() - i,
    {
        let n = if typed { ms[i].typed_route() } else { ms[i].variant() };
        let ghost before = r@;
        r.push(n);
        proof { crate::text::lemma_views_push(before, n); }
        assert(typed_routes(ms@).take(i + 1) =~= typed_routes(ms@).take(i as int).push(typed_route_fn(ms@[i as int])));
        assert(variants(ms@).take(i + 1) =~= variants(ms@).take(i as int).push(variant_ident(ms@[i as int])));
        i = i + 1;
    }
    assert(typed_routes(ms@).take(ms.len() as int) =~= typed_routes(ms@));
    assert(variants(ms@).take(ms.len() as int) =~= variants(ms@));
    r
}

impl Page {
    /// The names the handler module generated for this page uses.
    pub fn handler(&self) -> (r: PageHandler)
        requires
            page_wf(self.fields@, self.path.fields@),
        ensures
            r.mod_ident@ == "__internal__"@ + self.ident@,
            r.path_ident@ == self.path.ident@,
            views(r.path_params@) == named_at(self.fields@, self.path.fields@),
            views(r.params@) == other_fields(self.fields@, named_at(self.fields@, self.path.fields@)),
            views(r.typed_routes@) == typed_routes(self.methods@),
    {
        let mut mod_ident = String::from_str("__internal__");
        mod_ident.append(self.ident.as_str());
        let path_params = names_at(&self.fields, &self.path.fields);
        let ghost taken = views(path_params@);
        let mut params: Vec<String> = Vec::new();
        let mut k: usize = 0;
        while k < self.fields.len()
            invariant
                k <= self.fields.len(),
                taken == views(path_params@),
                views(params@) == other_fields(self.fields@.take(k as int), taken),
            decreases self.fields.len() - k,
        {
            assert(self.fields@.take(k + 1).drop_last() == self.fields@.take(k as int));
            assert(self.fields@.take(k + 1).last() == self.fields@[k as int]);
            match &self.fields[k] {
                Some(n) => {
                    if !contains_string(&path_params, n) {
                        let c = n.clone();
                        let ghost before = params@;
                        params.push(c);
                        proof { crate::text::lemma_views_push(before, c); }
                    }
                },
                None => {},
            }
            k = k + 1;
        }
        assert(self.fields@.take(self.fields.len() as int) == self.fields@);
        PageHandler {
            mod_ident,
            path_ident: self.path.ident.clone(),
            path_params,
            params,
            typed_routes: route_names(&self.methods, true),
        }
    }
}

impl PageV2 {
    /// What the router code generated for this page uses: the name of its
    /// path type, the `HttpMethod` variants of its methods, and whether its
    /// handler renders into the page's layout (when it is not nested).
    pub fn mount_parts(&self) -> (r: (String, Vec<String>, bool))
        ensures
            r.0@ == self.ident@ + "Path"@,
            views(r.1@) == variants(self.methods@),
            r.2 == !self.is_nested,
    {
        let mut path_ident = self.ident.clone();
        path_ident.append("Path");
        (path_ident, route_names(&self.methods, false), !self.is_nested)
    }
}

// ---------------------------------------------------------------------------
// Laws

/// Whether a field is named `n` with `:n` among the route parameters.
pub open spec fn fills_param(f: Option<String>, params: Seq<Seq<char>>) -> bool {
    f matches Some(n) && params.contains(":"@ + n@)
}

/// The fields a route fills are exactly the named fields whose `:name` is a
/// parameter of the route, each once, in field order.
pub proof fn law_path_fields(fields: Seq<Option<String>>, params: Seq<Seq<char>>)
    requires
        fields.len() <= usize::MAX,
    ensures
        forall|i: int| 0 <= i < path_field_indices(fields, params).len() ==>
            (#[trigger] path_field_indices(fields, params)[i]) < fields.len()
            && fills_param(fields[path_field_indices(fields, params)[i] as int], params),
        forall|i: int, j: int| 0 <= i < j < path_field_indices(fields, params).len() ==>
            (#[trigger] path_field_indices(fields, params)[i]) < (#[trigger] path_field_indices(fields, params)[j]),
        forall|k: int| 0 <= k < fields.len() && fills_param(#[trigger] fields[k], params) ==>
            path_field_indices(fields, params).contains(k as usize),
    decreases fields.len(),
{
    if fields.len() > 0 {
        let t = fields.drop_last();
        law_path_fields(t, params);
        let prev = path_field_indices(t, params);
        let cur = path_field_indices(fields, params);
        let last = (fields.len() - 1) as usize;
        assert(cur == (if fills_param(fields.last(), params) { prev.push(last) } else { prev }));
        assert forall|i: int| 0 <= i < cur.len() implies (#[trigger] cur[i]) < fields.len()
            && fills_param(fields[cur[i] as int], params) by {
            if i < prev.len() {
                assert(cur[i] == prev[i]);
                assert(fields[prev[i] as int] == t[prev[i] as int]);
            }
        }
        assert forall|i: int, j: int| 0 <= i < j < cur.len() implies (#[trigger] cur[i]) < (#[trigger] cur[j]) by {
            if j < prev.len() {
                assert(cur[i] == prev[i] && cur[j] == prev[j]);
            } else {
                assert(cur[i] == prev[i]);
                assert(prev[i] < t.len());
            }
        }
        assert forall|k: int| 0 <= k < fields.len() && fills_param(#[trigger] fields[k], params) implies
            cur.contains(k as usize) by {
            if k < fields.len() - 1 {
                assert(t[k] == fields[k]);
                assert(fills_param(t[k], params));
                let i = choose|i: int| 0 <= i < prev.len() && prev[i] == k as usize;
                assert(cur[i] == prev[i]);
            } else {
                assert(cur[prev.len() as int] == last);
            }
        }
    }
}

/// Whether some field is named `n`.
pub open spec fn has_field_named(fields: Seq<Option<String>>, n: Seq<char>) -> bool {
    exists|k: int| 0 <= k < fields.len() && (#[trigger] fields[k] matches Some(m) && m@ == n)
}

/// The handler of a page takes each named field exactly once: from the path
/// when the path fills it, else as a parameter of its own.
pub proof fn law_handler_params(fields: Seq<Option<String>>, taken: Seq<Seq<char>>, n: Seq<char>)
    ensures
        other_fields(fields, taken).contains(n) <==> (has_field_named(fields, n) && !taken.contains(n)),
    decreases fields.len(),
{
    if fields.len() > 0 {
        let t = fields.drop_last();
        law_handler_params(t, taken, n);
        let prev = other_fields(t, taken);
        if has_field_named(t, n) {
            let k = choose|k: int| 0 <= k < t.len() && (#[trigger] t[k] matches Some(m) && m@ == n);
            assert(fields[k] == t[k]);
        }
        if has_field_named(fields, n) && !has_field_named(t, n) {
            let k = choose|k: int| 0 <= k < fields.len() && (#[trigger] fields[k] matches Some(m) && m@ == n);
            if k < t.len() {
                assert(t[k] == fields[k]);
            }
            assert(k == fields.len() - 1);
        }
        match fields.last() {
            Some(m) => {
                if !taken.contains(m@) {
                    assert(other_fields(fields, taken) == prev.push(m@));
                    if m@ == n {
                        assert(prev.push(m@)[prev.len() as int] == n);
                        assert(fields[fields.len() - 1] matches Some(x) && x@ == n);
                    } else {
                        if prev.push(m@).contains(n) {
                            let i = choose|i: int| 0 <= i < prev.push(m@).len() && prev.push(m@)[i] == n;
                            assert(prev[i] == n);
                        }
                        if prev.contains(n) {
                            let i = choose|i: int| 0 <= i < prev.len() && prev[i] == n;
                            assert(prev.push(m@)[i] == n);
                        }
                    }
                } else {
                    if m@ == n {
                        assert(taken.contains(n));
                    }
                }
            },
            None => {},
        }
    }
}

} // verus!
