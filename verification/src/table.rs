//! The `Table` and `Queryable` derives: the table name of a struct, and the
//! columns a queryable struct reads, with how each is bound.

use vstd::prelude::*;
use crate::text::{lowercase, to_lowercase, starts_with, str_eq, str_starts_with};

verus! {

// ---------------------------------------------------------------------------
// Table names

/// `inflection::plural`: the plural of a word by the crate's English rule
/// tables. Those tables are process-wide and can be changed at run time
/// (`add_plural`, `set_plural`, ...), so nothing is claimed of the result.
#[verifier::external_body]
fn plural(s: String) -> (r: String)
{
    inflection::plural::<_, String>(s)
}

/// A struct deriving `Table`: its table name (the plural of its lowercased
/// name) and its fields (none are read yet).
#[derive(Debug)]
pub struct Table {
    pub name: String,
    pub fields: Vec<String>,
}

pub open spec fn table_derive_error() -> Seq<char> {
    "The `Table` derive can be used only on `structs`"@
}

fn has_table_attr(attr_names: &Vec<String>) -> (r: bool)
    ensures
        r == attr_names@.map_values(|a: String| a@).contains("Table"@),
{
    let ghost names = attr_names@.map_values(|a: String| a@);
    let mut i: usize = 0;
    while i < attr_names.len()
        invariant
            i <= attr_names.len(),
            names == attr_names@.map_values(|a: String| a@),
            forall|j: int| 0 <= j < i ==> names[j] != "Table"@,
        decreases attr_names.len() - i,
    {
        if str_eq(attr_names[i].as_str(), "Table") {
            assert(names[i as int] == "Table"@);
            return true;
        }
        i = i + 1;
    }
    false
}

impl Table {
    /// The word a struct's table name is the plural of: its name, lowercased.
    pub fn table_word(ident: &str) -> (r: String)
        ensures
            r@ == lowercase(ident@),
    {
        to_lowercase(ident)
    }

    /// The table named `name` (the plural of the table word), with the
    /// report for an item that is not a struct.
    pub fn from_plural(name: String, is_struct: bool) -> (r: (Table, Option<String>))
        ensures
            r.0.name == name,
            r.0.fields@.len() == 0,
            is_struct ==> r.1 is None,
            !is_struct ==> (r.1 matches Some(e) && e@ == table_derive_error()),
    {
        let error = if is_struct {
            None
        } else {
            Some(String::from_str("The `Table` derive can be used only on `structs`"))
        };
        (Table { name, fields: Vec::new() }, error)
    }

    /// Reads the struct (or other item) named `ident` whose attributes' last
    /// path segments are `attr_names`: its table is named by
    /// `inflection::plural` of its table word (whatever the crate's rule
    /// tables give, so the name is left open here), and an item that is not
    /// a struct is reported. No attribute may be named `Table` (naming the
    /// table explicitly is not supported).
    pub fn parse(ident: &str, is_struct: bool, attr_names: &Vec<String>) -> (r: (Table, Option<String>))
        requires
            !attr_names@.map_values(|a: String| a@).contains("Table"@),
        ensures
            r.0.fields@.len() == 0,
            is_struct ==> r.1 is None,
            !is_struct ==> (r.1 matches Some(e) && e@ == table_derive_error()),
    {
        let word = Table::table_word(ident);
        Table::from_plural(plural(word), is_struct)
    }

    /// Reads a table as `parse` does, or `None` where an attribute is named
    /// `Table`.
    pub fn checked_parse(ident: &str, is_struct: bool, attr_names: &Vec<String>) -> (r: Option<(Table, Option<String>)>)
        ensures
            r is None <==> attr_names@.map_values(|a: String| a@).contains("Table"@),
            r matches Some(t) ==> t.0.fields@.len() == 0
                && (is_struct ==> t.1 is None)
                && (!is_struct ==> (t.1 matches Some(e) && e@ == table_derive_error())),
    {
        if has_table_attr(attr_names) {
            None
        } else {
            Some(Table::parse(ident, is_struct, attr_names))
        }
    }
}

// ---------------------------------------------------------------------------
// Queryable columns

/// The shape of a field's type.
#[derive(Debug)]
pub enum TypeKind {
    /// A path type, by the identifier of its last segment.
    Path(String),
    Array,
    Infer,
    Ptr,
    Reference,
    Slice,
    TraitObject,
    Tuple,
    Verbatim,
    /// A bare function, group, `impl Trait`, macro, never or parenthesised
    /// type.
    Unsupported,
}

/// A named field of a struct and the shape of its type.
#[derive(Debug)]
pub struct QueryField {
    pub name: String,
    pub ty: TypeKind,
}

/// The item deriving `Queryable`.
#[derive(Debug)]
pub enum ItemData {
    Struct(Vec<QueryField>),
    Enum,
    Union,
}

/// A column a queryable struct reads.
#[derive(Debug)]
pub struct TableColumn {
    pub name: String,
    pub is_primary_key: bool,
    pub sqlx_cast_as_underscore: bool,
}

/// The columns of a queryable struct and the reports on it.
#[derive(Debug)]
pub struct Queryable {
    pub columns: Vec<TableColumn>,
    pub errors: Vec<String>,
}

/// The type names that bind without a cast.
pub open spec fn is_known_type(s: Seq<char>) -> bool {
    s == "f32"@ || s == "f64"@ || s == "i8"@ || s == "i16"@ || s == "i32"@ || s == "i64"@
        || s == "i128"@ || s == "isize"@ || s == "u8"@ || s == "u16"@ || s == "u32"@
        || s == "u64"@ || s == "u128"@ || s == "usize"@ || s == "String"@ || s == "&str"@
        || s == "&'static str"@ || s == "bool"@ || s == "Uuid"@
}

/// Whether a column of this type is bound with `as _`.
pub open spec fn needs_cast(t: TypeKind) -> bool {
    match t {
        TypeKind::Path(s) => !is_known_type(s@),
        _ => true,
    }
}

pub open spec fn column_view(c: TableColumn) -> (Seq<char>, bool, bool) {
    (c.name@, c.is_primary_key, c.sqlx_cast_as_underscore)
}

pub open spec fn columns_view(v: Seq<TableColumn>) -> Seq<(Seq<char>, bool, bool)> {
    Seq::new(v.len(), |i: int| column_view(v[i]))
}

/// The columns of the fields: every field whose name does not start with
/// `__`; the one named `id` is the primary key.
pub open spec fn query_columns(fields: Seq<QueryField>) -> Seq<(Seq<char>, bool, bool)>
    decreases fields.len(),
{
    if fields.len() == 0 {
        Seq::empty()
    } else {
        let prev = query_columns(fields.drop_last());
        let f = fields.last();
        if starts_with(f.name@, "__"@) {
            prev
        } else {
            prev.push((f.name@, f.name@ == "id"@, needs_cast(f.ty)))
        }
    }
}

/// One report for each column whose type is not supported.
pub open spec fn query_errors(fields: Seq<QueryField>) -> Seq<Seq<char>>
    decreases fields.len(),
{
    if fields.len() == 0 {
        Seq::empty()
    } else {
        let prev = query_errors(fields.drop_last());
        let f = fields.last();
        if !starts_with(f.name@, "__"@) && f.ty is Unsupported {
            prev.push("Unsuported type"@)
        } else {
            prev
        }
    }
}

fn known_type(s: &str) -> (r: bool)
    ensures
        r == is_known_type(s@),
{
    str_eq(s, "f32") || str_eq(s, "f64") || str_eq(s, "i8") || str_eq(s, "i16") || str_eq(s, "i32")
        || str_eq(s, "i64") || str_eq(s, "i128") || str_eq(s, "isize") || str_eq(s, "u8")
        || str_eq(s, "u16") || str_eq(s, "u32") || str_eq(s, "u64") || str_eq(s, "u128")
        || str_eq(s, "usize") || str_eq(s, "String") || str_eq(s, "&str")
        || str_eq(s, "&'static str") || str_eq(s, "bool") || str_eq(s, "Uuid")
}

/// The columns a `Queryable` struct reads, in field order, with the reports
/// on unsupported field types; an enum or a union has no columns and one
/// report.
pub fn create_queryable(item: &ItemData) -> (r: Queryable)
    ensures
        match item {
            ItemData::Struct(fields) => columns_view(r.columns@) == query_columns(fields@)
                && crate::text::views(r.errors@) == query_errors(fields@),
            ItemData::Enum => r.columns@.len() == 0 && crate::text::views(r.errors@)
                == seq!["Cannot implement over an enum, only struct is supported"@],
            ItemData::Union => r.columns@.len() == 0 && crate::text::views(r.errors@)
                == seq!["Cannot implement over a union, only struct is supported"@],
        },
{
    match item {
        ItemData::Enum => {
            let e = String::from_str("Cannot implement over an enum, only struct is supported");
            let mut errors = Vec::new();
            errors.push(e);
            assert(crate::text::views(errors@) =~= seq![e@]);
            Queryable { columns: Vec::new(), errors }
        },
        ItemData::Union => {
            let e = String::from_str("Cannot implement over a union, only struct is supported");
            let mut errors = Vec::new();
            errors.push(e);
            assert(crate::text::views(errors@) =~= seq![e@]);
            Queryable { columns: Vec::new(), errors }
        },
        ItemData::Struct(fields) => {
            let mut columns: Vec<TableColumn> = Vec::new();
            let mut errors: Vec<String> = Vec::new();
            let mut i: usize = 0;
            while i < fields.len()
                invariant
                    i <= fields.len(),
                    columns_view(columns@) == query_columns(fields@.take(i as int)),
                    crate::text::views(errors@) == query_errors(fields@.take(i as int)),
                decreases fields.len() - i,
            {
                assert(fields@.take(i + 1).drop_last() == fields@.take(i as int));
                assert(fields@.take(i + 1).last() == fields@[i as int]);
                let f = &fields[i];
                if !str_starts_with(f.name.as_str(), "__") {
                    let cast = match &f.ty {
                        TypeKind::Path(s) => !known_type(s.as_str()),
                        TypeKind::Unsupported => {
                            let e = String::from_str("Unsuported type");
                            let ghost before = errors@;
                            errors.push(e);
                            proof { crate::text::lemma_views_push(before, e); }
                            true
                        },
                        _ => true,
                    };
                    let c = TableColumn {
                        name: f.name.clone(),
                        is_primary_key: str_eq(f.name.as_str(), "id"),
                        sqlx_cast_as_underscore: cast,
                    };
                    let ghost before = columns@;
                    columns.push(c);
                    assert(columns_view(columns@) =~= columns_view(before).push(column_view(c)));
                }
                i = i + 1;
            }
            assert(fields@.take(fields.len() as int) == fields@);
            Queryable { columns, errors }
        },
    }
}

} // verus!
