//! The `#[record(...)]` derive: reading its attribute arguments, and the SQL
//! statements and function signatures it generates for a record struct.

use vstd::prelude::*;
use crate::text::{join, views, decimal, join_strings, push_decimal};
use crate::tokens::{TokenTree, token_text, token_to_string};

verus! {

/// A statement that a record can be the subject of.
#[derive(Clone, Copy, PartialEq, Eq, Structural, Debug)]
pub enum Action {
    Delete,
    Insert,
    Update,
}

/// A column of a table as recorded in the project's records configuration.
#[derive(Debug)]
pub struct Column {
    pub name: String,
    pub ty: String,
    pub is_nullable: bool,
}

/// The configuration of one table: its columns, primary key columns and the
/// extra constraint columns that every statement is scoped by.
#[derive(Debug)]
pub struct TableConfig {
    pub columns: Vec<Column>,
    pub primary_keys: Vec<String>,
    pub constraints: Vec<String>,
}

/// A struct deriving `Record`, with what its `#[record(...)]` attribute and
/// the records configuration say about it.
#[derive(Debug)]
pub struct TableRecord {
    pub actions: Vec<Action>,
    pub config: TableConfig,
    pub fields: Vec<String>,
    pub ident: String,
    pub returning: Vec<String>,
    pub table_name: String,
}

/// The Rust types that database column types map to.
#[derive(Clone, Copy, PartialEq, Eq, Structural, Debug)]
pub enum RustType {
    /// `&str`, for `varchar`.
    Str,
    /// `i32`, for `int4`.
    I32,
    /// `ahecha::uuid::Uuid`, for `uuid`.
    Uuid,
}

/// The Rust type of a column: the base type, wrapped in `Option` when the
/// column is nullable.
#[derive(Clone, Copy, PartialEq, Eq, Structural, Debug)]
pub struct ColumnRustType {
    pub base: RustType,
    pub optional: bool,
}

/// What went wrong while reading a record definition.
#[derive(Clone, Copy, PartialEq, Eq, Structural, Debug)]
pub enum ErrorKind {
    /// A constraint or returned field names no column of the table.
    MissingColumn,
    /// A column's database type has no Rust type yet.
    UnmappedType,
    /// A delimited group where an argument was expected.
    UnsupportedGroup,
    /// A literal where an argument was expected.
    UnsupportedLiteral,
    /// An identifier that is no known argument.
    UnsupportedIdent,
    /// `table` not followed by `=`.
    ExpectedTableAssignment,
    /// `table =` not followed by anything.
    MissingTableName,
    /// `table =` not followed by a literal.
    ExpectedTableName,
    /// Something other than an identifier in the `returning(...)` list.
    ExpectedIdent,
    /// Something other than `,` after a returned field.
    ExpectedComma,
    /// `returning` not followed by a group.
    ExpectedReturningList,
    /// `returning` at the end of the arguments.
    MissingReturningList,
    /// The struct has no `#[record(...)]` attribute.
    MissingAttribute,
    /// The `#[record]` attribute has no arguments.
    EmptyAttribute,
    /// The `#[record]` attribute has more than one argument group.
    ExtraAttributeTokens,
    /// The `#[record]` attribute's argument is not a group.
    ExpectedAttributeGroup,
    /// The arguments do not name the table.
    MissingTableArgument,
    /// The table is not in the records configuration.
    UnknownTable,
}

/// An error of the record derive: its kind and the text it is about (a
/// column name, a type name or the offending token).
#[derive(Debug)]
pub struct RecordError {
    pub kind: ErrorKind,
    pub subject: String,
}

/// The view of a record error: its kind and subject text.
pub open spec fn error_view(e: RecordError) -> (ErrorKind, Seq<char>) {
    (e.kind, e.subject@)
}

/// The message a record error is reported with, for a record of the table
/// `table` (named in the message about a missing column).
pub open spec fn record_error_message(kind: ErrorKind, s: Seq<char>, table: Seq<char>) -> Seq<char> {
    match kind {
        ErrorKind::MissingColumn => "There is no column with name `"@ + s + "` found in `"@ + table
            + "` in the records.json, check it or run `ahecha` cli again"@,
        ErrorKind::UnmappedType => "The type `"@ + s + "` is not mapped to a rust type yet, please open an issue or PR"@,
        ErrorKind::UnsupportedGroup => "Unsupported group `"@ + s + "`"@,
        ErrorKind::UnsupportedLiteral => "Unsupported literal `"@ + s + "`"@,
        ErrorKind::UnsupportedIdent => "`"@ + s + "` is not supported"@,
        ErrorKind::ExpectedTableAssignment => "Expected table name assigment, but found "@ + s
            + ". Example: #[record(table=\"user\")"@,
        ErrorKind::MissingTableName => "Expected table name. Example: #[record(table=\"user\")"@,
        ErrorKind::ExpectedTableName => "Expected table name, but found "@ + s + ". Example: #[record(table=\"user\")"@,
        ErrorKind::ExpectedIdent => "Expected ident, but found `"@ + s + "`"@,
        ErrorKind::ExpectedComma => "Expected `,`, but found `"@ + s + "`"@,
        ErrorKind::ExpectedReturningList => "Expected field and type list, but got `"@ + s + "`"@,
        ErrorKind::MissingReturningList => "Expected constraint field and type list,but got nothing"@,
        ErrorKind::MissingAttribute => "Missing the `#[record()]` attribute"@,
        ErrorKind::EmptyAttribute => "Expected record attributes"@,
        ErrorKind::ExtraAttributeTokens => "Expected record attributes, but got more than one token tree"@,
        ErrorKind::ExpectedAttributeGroup => "Expected attributes, but got "@ + s,
        ErrorKind::MissingTableArgument => "the #[record(table = \"table_name\")] is missing"@,
        ErrorKind::UnknownTable => "`"@ + s + "` is not present in record.json, please add it and run `ahecha` cli if needed"@,
    }
}

fn concat3(a: &str, b: &str, c: &str) -> (r: String)
    ensures
        r@ == a@ + b@ + c@,
{
    let mut r = String::from_str(a);
    r.append(b);
    r.append(c);
    r
}

impl RecordError {
    /// The message this error is reported with, for a record of the table
    /// `table`.
    pub fn message(&self, table: &str) -> (r: String)
        ensures
            r@ == record_error_message(self.kind, self.subject@, table@),
    {
        let s = self.subject.as_str();
        match self.kind {
            ErrorKind::MissingColumn => {
                let mut r = concat3("There is no column with name `", s, "` found in `");
                r.append(table);
                r.append("` in the records.json, check it or run `ahecha` cli again");
                r
            },
            ErrorKind::UnmappedType => concat3("The type `", s, "` is not mapped to a rust type yet, please open an issue or PR"),
            ErrorKind::UnsupportedGroup => concat3("Unsupported group `", s, "`"),
            ErrorKind::UnsupportedLiteral => concat3("Unsupported literal `", s, "`"),
            ErrorKind::UnsupportedIdent => concat3("`", s, "` is not supported"),
            ErrorKind::ExpectedTableAssignment => concat3("Expected table name assigment, but found ", s, ". Example: #[record(table=\"user\")"),
            ErrorKind::MissingTableName => String::from_str("Expected table name. Example: #[record(table=\"user\")"),
            ErrorKind::ExpectedTableName => concat3("Expected table name, but found ", s, ". Example: #[record(table=\"user\")"),
            ErrorKind::ExpectedIdent => concat3("Expected ident, but found `", s, "`"),
            ErrorKind::ExpectedComma => concat3("Expected `,`, but found `", s, "`"),
            ErrorKind::ExpectedReturningList => concat3("Expected field and type list, but got `", s, "`"),
            ErrorKind::MissingReturningList => String::from_str("Expected constraint field and type list,but got nothing"),
            ErrorKind::MissingAttribute => String::from_str("Missing the `#[record()]` attribute"),
            ErrorKind::EmptyAttribute => String::from_str("Expected record attributes"),
            ErrorKind::ExtraAttributeTokens => String::from_str("Expected record attributes, but got more than one token tree"),
            ErrorKind::ExpectedAttributeGroup => {
                let mut r = String::from_str("Expected attributes, but got ");
                r.append(s);
                r
            },
            ErrorKind::MissingTableArgument => String::from_str("the #[record(table = \"table_name\")] is missing"),
            ErrorKind::UnknownTable => concat3("`", s, "` is not present in record.json, please add it and run `ahecha` cli if needed"),
        }
    }
}

/// A parameter of a generated function: its name and type.
#[derive(Debug)]
pub struct FnArg {
    pub name: String,
    pub ty: ColumnRustType,
}

pub open spec fn arg_view(a: FnArg) -> (Seq<char>, ColumnRustType) {
    (a.name@, a.ty)
}

pub open spec fn arg_views(v: Seq<FnArg>) -> Seq<(Seq<char>, ColumnRustType)> {
    v.map_values(|a: FnArg| arg_view(a))
}

// ---------------------------------------------------------------------------
// Column types

/// The Rust type of a column, if its database type is mapped.
pub open spec fn rust_type_of(ty: Seq<char>, nullable: bool) -> Option<ColumnRustType> {
    if ty == "varchar"@ {
        Some(ColumnRustType { base: RustType::Str, optional: nullable })
    } else if ty == "int4"@ {
        Some(ColumnRustType { base: RustType::I32, optional: nullable })
    } else if ty == "uuid"@ {
        Some(ColumnRustType { base: RustType::Uuid, optional: nullable })
    } else {
        None
    }
}

/// The Rust type of a column; fails on database types that are not mapped.
pub fn get_type_for_column(column: &Column) -> (r: Result<ColumnRustType, RecordError>)
    ensures
        match rust_type_of(column.ty@, column.is_nullable) {
            Some(t) => r == Ok::<ColumnRustType, RecordError>(t),
            None => r matches Err(e) && error_view(e) == (ErrorKind::UnmappedType, column.ty@),
        },
{
    let ty = column.ty.as_str();
    if crate::text::str_eq(ty, "varchar") {
        Ok(ColumnRustType { base: RustType::Str, optional: column.is_nullable })
    } else if crate::text::str_eq(ty, "int4") {
        Ok(ColumnRustType { base: RustType::I32, optional: column.is_nullable })
    } else if crate::text::str_eq(ty, "uuid") {
        Ok(ColumnRustType { base: RustType::Uuid, optional: column.is_nullable })
    } else {
        Err(RecordError { kind: ErrorKind::UnmappedType, subject: column.ty.clone() })
    }
}

/// Index of the first column named `name`.
pub open spec fn column_index(columns: Seq<Column>, name: Seq<char>) -> Option<int>
    decreases columns.len(),
{
    if columns.len() == 0 {
        None
    } else if columns[0].name@ == name {
        Some(0)
    } else {
        match column_index(columns.drop_first(), name) {
            Some(i) => Some(i + 1),
            None => None,
        }
    }
}

proof fn lemma_column_index(columns: Seq<Column>, name: Seq<char>, i: int)
    requires
        0 <= i <= columns.len(),
        i < columns.len() ==> columns[i].name@ == name,
        forall|j: int| 0 <= j < i ==> columns[j].name@ != name,
    ensures
        i < columns.len() ==> column_index(columns, name) == Some(i),
        i == columns.len() ==> column_index(columns, name) is None,
    decreases i,
{
    if i > 0 {
        let rest = columns.drop_first();
        assert forall|j: int| 0 <= j < i - 1 implies rest[j].name@ != name by {
            assert(rest[j] == columns[j + 1]);
        }
        lemma_column_index(rest, name, i - 1);
    }
}

fn find_column(columns: &Vec<Column>, name: &String) -> (r: Option<usize>)
    ensures
        r matches Some(k) ==> k < columns@.len() && column_index(columns@, name@) == Some(k as int),
        r is None ==> column_index(columns@, name@) is None,
{
    let mut i: usize = 0;
    while i < columns.len()
        invariant
            i <= columns.len(),
            forall|j: int| 0 <= j < i ==> columns@[j].name@ != name@,
        decreases columns.len() - i,
    {
        if columns[i].name == *name {
            proof { lemma_column_index(columns@, name@, i as int); }
            return Some(i);
        }
        i = i + 1;
    }
    proof { lemma_column_index(columns@, name@, i as int); }
    None
}

/// The typed parameter for a column name of `table`.
pub open spec fn column_arg(columns: Seq<Column>, name: Seq<char>) -> Result<(Seq<char>, ColumnRustType), (ErrorKind, Seq<char>)> {
    match column_index(columns, name) {
        Some(k) => match rust_type_of(columns[k].ty@, columns[k].is_nullable) {
            Some(t) => Ok((name, t)),
            None => Err((ErrorKind::UnmappedType, columns[k].ty@)),
        },
        None => Err((ErrorKind::MissingColumn, name)),
    }
}

/// The typed parameters for the column names `names`: the first failure wins.
pub open spec fn column_args(columns: Seq<Column>, names: Seq<Seq<char>>) -> Result<Seq<(Seq<char>, ColumnRustType)>, (ErrorKind, Seq<char>)>
    decreases names.len(),
{
    if names.len() == 0 {
        Ok(Seq::empty())
    } else {
        match column_args(columns, names.drop_last()) {
            Ok(args) => match column_arg(columns, names.last()) {
                Ok(a) => Ok(args.push(a)),
                Err(e) => Err(e),
            },
            Err(e) => Err(e),
        }
    }
}

/// The typed parameters of a generated function for the column names
/// `field_names`; fails on the first name that is not a column of the table
/// or whose column type is not mapped.
pub fn get_fn_args(record: &TableRecord, field_names: &Vec<String>) -> (r: Result<Vec<FnArg>, RecordError>)
    ensures
        match column_args(record.config.columns@, views(field_names@)) {
            Ok(a) => r matches Ok(v) && arg_views(v@) == a,
            Err(e) => r matches Err(x) && error_view(x) == e,
        },
{
    let mut out: Vec<FnArg> = Vec::new();
    let n = field_names.len();
    let mut i: usize = 0;
    let ghost names = views(field_names@);
    while i < n
        invariant
            n == field_names.len(),
            i <= n,
            names == views(field_names@),
            column_args(record.config.columns@, names.take(i as int)) matches Ok(a) && arg_views(out@) == a,
        decreases n - i,
    {
        let ghost before = out@;
        proof {
            assert(names.take(i + 1).drop_last() == names.take(i as int));
            assert(names.take(i + 1).last() == field_names@[i as int]@);
        }
        let name = &field_names[i];
        match find_column(&record.config.columns, name) {
            Some(k) => {
                match get_type_for_column(&record.config.columns[k]) {
                    Ok(t) => {
                        out.push(FnArg { name: name.clone(), ty: t });
                        assert(arg_views(out@) == arg_views(before).push(arg_view(out@.last())));
                    },
                    Err(e) => {
                        proof { lemma_column_args_prefix_err(record.config.columns@, names, i as int + 1); }
                        return Err(e);
                    },
                }
            },
            None => {
                proof { lemma_column_args_prefix_err(record.config.columns@, names, i as int + 1); }
                return Err(RecordError { kind: ErrorKind::MissingColumn, subject: name.clone() });
            },
        }
        i = i + 1;
    }
    assert(names.take(n as int) == names);
    Ok(out)
}

proof fn lemma_column_args_prefix_err(columns: Seq<Column>, names: Seq<Seq<char>>, k: int)
    requires
        0 <= k <= names.len(),
        column_args(columns, names.take(k)) is Err,
    ensures
        column_args(columns, names) == column_args(columns, names.take(k)),
    decreases names.len() - k,
{
    if k < names.len() {
        assert(names.take(k + 1).drop_last() == names.take(k));
        lemma_column_args_prefix_err(columns, names, k + 1);
    } else {
        assert(names.take(k) == names);
    }
}

// ---------------------------------------------------------------------------
// Statement text

/// `name = $k` for the names, with `k` counting from `first`.
pub open spec fn assignments(names: Seq<Seq<char>>, first: nat) -> Seq<Seq<char>> {
    Seq::new(names.len(), |i: int| names[i] + " = $"@ + decimal((i + first) as nat))
}

/// `$k` for each item of a list of `n` items, counting from 1.
pub open spec fn placeholders(n: nat) -> Seq<Seq<char>> {
    Seq::new(n, |i: int| "$"@ + decimal((i + 1) as nat))
}

/// The columns every statement of a record is scoped by: the primary key
/// columns followed by the constraint columns.
pub open spec fn scope_columns(config: TableConfig) -> Seq<Seq<char>> {
    views(config.primary_keys@) + views(config.constraints@)
}

/// The `WHERE` clause over the scope columns, whose placeholders start after
/// `offset` earlier ones; empty when there are no scope columns.
pub open spec fn where_clause(config: TableConfig, offset: nat) -> Seq<char> {
    let c = scope_columns(config);
    if c.len() == 0 {
        Seq::empty()
    } else {
        "WHERE "@ + join(assignments(c, offset + 1), " AND "@)
    }
}

/// The name of a scoped function: `{prefix}_where_{a}_and_{b}...`, or just
/// the prefix when there are no scope columns.
pub open spec fn scoped_fn_name(config: TableConfig, prefix: Seq<char>) -> Seq<char> {
    let c = scope_columns(config);
    if c.len() == 0 {
        prefix
    } else {
        prefix + "_where_"@ + join(c, "_and_"@)
    }
}

/// The `WHERE` part of a generated statement: its SQL text, the names of the
/// arguments bound to it, the generated function's name and its parameters.
#[derive(Debug)]
pub struct WhereParts {
    pub query: String,
    pub args: Vec<String>,
    pub fn_name: String,
    pub fn_args: Vec<FnArg>,
}

fn concat_strings(a: &Vec<String>, b: &Vec<String>) -> (r: Vec<String>)
    ensures
        views(r@) == views(a@) + views(b@),
{
    let mut r: Vec<String> = Vec::new();
    let mut i: usize = 0;
    while i < a.len()
        invariant
            i <= a.len(),
            views(r@) == views(a@.take(i as int)),
        decreases a.len() - i,
    {
        let ghost before = r@;
        r.push(a[i].clone());
        proof {
            assert(a@.take(i + 1) == a@.take(i as int).push(a@[i as int]));
            crate::text::lemma_views_push(before, a@[i as int]);
            crate::text::lemma_views_push(a@.take(i as int), a@[i as int]);
        }
        i = i + 1;
    }
    assert(a@.take(a.len() as int) == a@);
    let mut j: usize = 0;
    while j < b.len()
        invariant
            j <= b.len(),
            views(r@) == views(a@) + views(b@.take(j as int)),
        decreases b.len() - j,
    {
        let ghost before = r@;
        r.push(b[j].clone());
        proof {
            assert(b@.take(j + 1) == b@.take(j as int).push(b@[j as int]));
            crate::text::lemma_views_push(before, b@[j as int]);
            crate::text::lemma_views_push(b@.take(j as int), b@[j as int]);
        }
        j = j + 1;
    }
    assert(b@.take(b.len() as int) == b@);
    r
}

/// `name = $k` for each name, with `k` counting from `first`.
pub(crate) fn build_assignments(names: &Vec<String>, first: u128) -> (r: Vec<String>)
    requires
        first <= usize::MAX + 1,
    ensures
        views(r@) == assignments(views(names@), first as nat),
{
    let mut r: Vec<String> = Vec::new();
    let mut i: usize = 0;
    while i < names.len()
        invariant
            i <= names.len(),
            first <= usize::MAX + 1,
            views(r@) == assignments(views(names@), first as nat).take(i as int),
        decreases names.len() - i,
    {
        let mut s = names[i].clone();
        s.append(" = $");
        push_decimal(&mut s, i as u128 + first);
        r.push(s);
        assert(assignments(views(names@), first as nat).take(i + 1)
            == assignments(views(names@), first as nat).take(i as int).push(s@));
        i = i + 1;
    }
    assert(assignments(views(names@), first as nat).take(names.len() as int) == assignments(views(names@), first as nat));
    r
}

/// The `WHERE` clause of a record's statements; the placeholders start after
/// `index_offset` earlier ones.
pub fn where_query(record: &TableRecord, index_offset: usize) -> (r: String)
    ensures
        r@ == where_clause(record.config, index_offset as nat),
{
    let constraints = concat_strings(&record.config.primary_keys, &record.config.constraints);
    if constraints.len() == 0 {
        String::new()
    } else {
        let parts = build_assignments(&constraints, index_offset as u128 + 1);
        let mut q = String::from_str("WHERE ");
        let body = join_strings(&parts, " AND ");
        q.append(body.as_str());
        q
    }
}

/// The name of a generated function scoped by the record's scope columns.
pub fn scoped_name(record: &TableRecord, method_prefix: &str) -> (r: String)
    ensures
        r@ == scoped_fn_name(record.config, method_prefix@),
{
    let constraints = concat_strings(&record.config.primary_keys, &record.config.constraints);
    let mut name = String::from_str(method_prefix);
    if constraints.len() != 0 {
        name.append("_where_");
        let tail = join_strings(&constraints, "_and_");
        name.append(tail.as_str());
    }
    name
}

/// The `WHERE` part of the statement generated for `method_prefix`: the SQL
/// clause, the bound argument names (the scope columns), the function name and
/// its typed parameters. Fails when a scope column is not a column of the table
/// or has an unmapped type.
pub fn where_parts(record: &TableRecord, method_prefix: &str, index_offset: usize) -> (r: Result<WhereParts, RecordError>)
    ensures
        match column_args(record.config.columns@, scope_columns(record.config)) {
            Ok(a) => r matches Ok(p) && p.query@ == where_clause(record.config, index_offset as nat)
                && views(p.args@) == scope_columns(record.config)
                && p.fn_name@ == scoped_fn_name(record.config, method_prefix@)
                && arg_views(p.fn_args@) == a,
            Err(e) => r matches Err(x) && error_view(x) == e,
        },
{
    let constraints = concat_strings(&record.config.primary_keys, &record.config.constraints);
    let fn_args = get_fn_args(record, &constraints)?;
    let query = where_query(record, index_offset);
    let fn_name = scoped_name(record, method_prefix);
    Ok(WhereParts { query, args: constraints, fn_name, fn_args })
}

pub open spec fn delete_text(record: TableRecord) -> Seq<char> {
    "DELETE FROM "@ + record.table_name@ + " "@ + where_clause(record.config, 0)
}

/// The `DELETE` statement of a record. Fails as `where_parts` does.
pub fn delete_query(record: &TableRecord) -> (r: Result<String, RecordError>)
    ensures
        match column_args(record.config.columns@, scope_columns(record.config)) {
            Ok(_) => r matches Ok(s) && s@ == delete_text(*record),
            Err(e) => r matches Err(x) && error_view(x) == e,
        },
{
    let parts = where_parts(record, "delete", 0)?;
    let mut q = String::from_str("DELETE FROM ");
    q.append(record.table_name.as_str());
    q.append(" ");
    q.append(parts.query.as_str());
    Ok(q)
}

/// The columns an `INSERT` of a record writes: its fields, then the
/// constraint columns.
pub open spec fn insert_columns(record: TableRecord) -> Seq<Seq<char>> {
    views(record.fields@) + views(record.config.constraints@)
}

pub open spec fn insert_text(record: TableRecord) -> Seq<char> {
    let cols = insert_columns(record);
    "INSERT INTO "@ + record.table_name@ + " ("@ + join(cols, ", "@) + ") VALUES ("@
        + join(placeholders(cols.len()), ", "@) + ")"@
}

pub(crate) fn build_placeholders(n: usize) -> (r: Vec<String>)
    ensures
        views(r@) == placeholders(n as nat),
{
    let mut r: Vec<String> = Vec::new();
    let mut i: usize = 0;
    while i < n
        invariant
            i <= n,
            views(r@) == placeholders(n as nat).take(i as int),
        decreases n - i,
    {
        let mut s = String::from_str("$");
        push_decimal(&mut s, i as u128 + 1);
        r.push(s);
        assert(placeholders(n as nat).take(i + 1) == placeholders(n as nat).take(i as int).push(s@));
        i = i + 1;
    }
    assert(placeholders(n as nat).take(n as int) == placeholders(n as nat));
    r
}

/// The `INSERT` statement of a record: the fields and constraint columns,
/// with one numbered placeholder each.
pub fn insert_query(record: &TableRecord) -> (r: String)
    ensures
        r@ == insert_text(*record),
{
    let fields = concat_strings(&record.fields, &record.config.constraints);
    let values = build_placeholders(fields.len());
    let mut q = String::from_str("INSERT INTO ");
    q.append(record.table_name.as_str());
    q.append(" (");
    let cols = join_strings(&fields, ", ");
    q.append(cols.as_str());
    q.append(") VALUES (");
    let vals = join_strings(&values, ", ");
    q.append(vals.as_str());
    q.append(")");
    q
}

/// The placeholders of an `UPDATE` number its bound values consecutively
/// from `$1`: first the set fields, then the scope columns of its `WHERE`
/// clause (whose numbering starts after the fields).
pub proof fn law_update_placeholders_consecutive(fields: Seq<Seq<char>>, scope: Seq<Seq<char>>)
    ensures
        assignments(fields, 1) + assignments(scope, fields.len() + 1) == assignments(fields + scope, 1),
{
    assert forall|i: int| 0 <= i < fields.len() + scope.len() implies
        #[trigger] (assignments(fields, 1) + assignments(scope, fields.len() + 1))[i] == assignments(fields + scope, 1)[i] by {
        if i >= fields.len() {
            assert((i - fields.len()) + (fields.len() + 1) == i + 1);
        }
    }
    assert(assignments(fields, 1) + assignments(scope, fields.len() + 1) =~= assignments(fields + scope, 1));
}

/// An `UPDATE` plan binds its values in placeholder order: the `i`-th bound
/// value (the set fields, then the scope columns) is the column that the
/// `i`-th assignment, `column = $(i + 1)`, names.
pub proof fn law_update_binding_order(fields: Seq<Seq<char>>, scope: Seq<Seq<char>>)
    ensures
        (tagged(1, fields) + tagged(2, scope)).len() == (fields + scope).len(),
        forall|i: int| 0 <= i < (fields + scope).len() ==>
            #[trigger] (tagged(1, fields) + tagged(2, scope))[i].1 == (fields + scope)[i]
            && (assignments(fields, 1) + assignments(scope, fields.len() + 1))[i]
                == (fields + scope)[i] + " = $"@ + decimal((i + 1) as nat),
{
    law_update_placeholders_consecutive(fields, scope);
    assert forall|i: int| 0 <= i < (fields + scope).len() implies
        #[trigger] (tagged(1, fields) + tagged(2, scope))[i].1 == (fields + scope)[i] by {
        if i >= fields.len() {
            assert((tagged(1, fields) + tagged(2, scope))[i] == tagged(2, scope)[i - fields.len()]);
        }
    }
}

/// An `INSERT` plan binds one value per placeholder, in column order: the
/// `i`-th bound value (the fields, then the constraint columns) is the
/// `i`-th column, written to `$(i + 1)`.
pub proof fn law_insert_binding_order(fields: Seq<Seq<char>>, constraints: Seq<Seq<char>>)
    ensures
        (tagged(0, fields) + tagged(2, constraints)).len() == placeholders((fields + constraints).len()).len(),
        forall|i: int| 0 <= i < (fields + constraints).len() ==>
            #[trigger] (tagged(0, fields) + tagged(2, constraints))[i].1 == (fields + constraints)[i]
            && placeholders((fields + constraints).len())[i] == "$"@ + decimal((i + 1) as nat),
{
    assert forall|i: int| 0 <= i < (fields + constraints).len() implies
        #[trigger] (tagged(0, fields) + tagged(2, constraints))[i].1 == (fields + constraints)[i] by {
        if i >= fields.len() {
            assert((tagged(0, fields) + tagged(2, constraints))[i] == tagged(2, constraints)[i - fields.len()]);
        }
    }
}

pub open spec fn update_text(record: TableRecord) -> Seq<char> {
    "UPDATE "@ + record.table_name@ + " SET "@ + join(assignments(views(record.fields@), 1), ", "@)
        + " "@ + where_clause(record.config, record.fields@.len())
}

/// The `UPDATE` statement of a record: its fields are set from the first
/// placeholders, the scope columns are matched by the following ones. Fails
/// as `where_parts` does.
pub fn update_string(record: &TableRecord) -> (r: Result<String, RecordError>)
    ensures
        match column_args(record.config.columns@, scope_columns(record.config)) {
            Ok(_) => r matches Ok(s) && s@ == update_text(*record),
            Err(e) => r matches Err(x) && error_view(x) == e,
        },
{
    let parts = where_parts(record, "update", record.fields.len())?;
    let set = build_assignments(&record.fields, 1);
    let mut q = String::from_str("UPDATE ");
    q.append(record.table_name.as_str());
    q.append(" SET ");
    let s = join_strings(&set, ", ");
    q.append(s.as_str());
    q.append(" ");
    q.append(parts.query.as_str());
    Ok(q)
}

} // verus!

verus! {

// ---------------------------------------------------------------------------
// The `#[record(...)]` arguments

/// The arguments of a `#[record(...)]` attribute: the table name, the
/// statements to generate and the columns that statements return.
#[derive(Debug)]
pub struct AttrArgs {
    pub table_name: Option<String>,
    pub actions: Vec<Action>,
    pub returning: Vec<String>,
}

/// The view of attribute arguments.
pub type AttrState = (Option<Seq<char>>, Seq<Action>, Seq<Seq<char>>);

pub open spec fn attr_view(a: AttrArgs) -> AttrState {
    (match a.table_name { Some(t) => Some(t@), None => None }, a.actions@, views(a.returning@))
}

/// `s` without its `"` characters.
pub open spec fn strip_quotes(s: Seq<char>) -> Seq<char>
    decreases s.len(),
{
    if s.len() == 0 {
        Seq::empty()
    } else if s.last() == '"' {
        strip_quotes(s.drop_last())
    } else {
        strip_quotes(s.drop_last()).push(s.last())
    }
}

/// The action that an argument identifier asks for, if it is one.
pub open spec fn action_named(s: Seq<char>) -> Option<Action> {
    if s == "deleteable"@ || s == "deletable"@ {
        Some(Action::Delete)
    } else if s == "insertable"@ {
        Some(Action::Insert)
    } else if s == "updateable"@ || s == "updatable"@ {
        Some(Action::Update)
    } else {
        None
    }
}

/// Reads the arguments from position `pos`. While `list` is `Some(items)`, the
/// reader is inside a `returning(...)` group at its item `gi`; after each
/// returned field it takes one more argument token, which must be a `,`.
pub open spec fn attr_machine(
    toks: Seq<TokenTree>,
    pos: int,
    list: Option<Seq<TokenTree>>,
    gi: int,
    st: AttrState,
) -> Result<AttrState, (ErrorKind, Seq<char>)>
    decreases toks.len() - pos, (match list { Some(items) => items.len() - gi + 1, None => 0 }),
{
    if pos < 0 || pos > toks.len() {
        Ok(st)
    } else {
        match list {
            Some(items) => {
                if gi < 0 || gi > items.len() {
                    Ok(st)
                } else if gi == items.len() {
                    attr_machine(toks, pos, None, 0, st)
                } else {
                    match items[gi] {
                        TokenTree::Ident(name) => {
                            let st2 = (st.0, st.1, st.2.push(name@));
                            if pos < toks.len() {
                                if is_comma(toks[pos]) {
                                    attr_machine(toks, pos + 1, Some(items), gi + 1, st2)
                                } else {
                                    Err((ErrorKind::ExpectedComma, token_text(toks[pos])))
                                }
                            } else {
                                attr_machine(toks, pos, Some(items), gi + 1, st2)
                            }
                        },
                        _ => Err((ErrorKind::ExpectedIdent, token_text(items[gi]))),
                    }
                }
            },
            None => {
                if pos == toks.len() {
                    Ok(st)
                } else {
                    match toks[pos] {
                        TokenTree::Group(g) => Err((ErrorKind::UnsupportedGroup, g.text@)),
                        TokenTree::Literal(l) => Err((ErrorKind::UnsupportedLiteral, l@)),
                        TokenTree::Punct(_) => attr_machine(toks, pos + 1, None, 0, st),
                        TokenTree::Ident(s) => {
                            match action_named(s@) {
                                Some(a) => attr_machine(toks, pos + 1, None, 0, (st.0, st.1.push(a), st.2)),
                                None => if s@ == "table"@ {
                                    if pos + 1 >= toks.len() {
                                        Err((ErrorKind::MissingTableName, s@))
                                    } else if !is_eq_sign(toks[pos + 1]) {
                                        Err((ErrorKind::ExpectedTableAssignment, token_text(toks[pos + 1])))
                                    } else if pos + 2 >= toks.len() {
                                        Err((ErrorKind::MissingTableName, s@))
                                    } else {
                                        match toks[pos + 2] {
                                            TokenTree::Literal(l) =>
                                                attr_machine(toks, pos + 3, None, 0, (Some(strip_quotes(l@)), st.1, st.2)),
                                            _ => Err((ErrorKind::ExpectedTableName, token_text(toks[pos + 2]))),
                                        }
                                    }
                                } else if s@ == "returning"@ {
                                    if pos + 1 >= toks.len() {
                                        Err((ErrorKind::MissingReturningList, s@))
                                    } else {
                                        match toks[pos + 1] {
                                            TokenTree::Group(g) => attr_machine(toks, pos + 2, Some(g.stream@), 0, st),
                                            _ => Err((ErrorKind::ExpectedReturningList, token_text(toks[pos + 1]))),
                                        }
                                    }
                                } else {
                                    Err((ErrorKind::UnsupportedIdent, s@))
                                }
                            }
                        },
                    }
                }
            },
        }
    }
}

pub open spec fn is_comma(t: TokenTree) -> bool {
    t matches TokenTree::Punct(c) && c == ','
}

pub open spec fn is_eq_sign(t: TokenTree) -> bool {
    t matches TokenTree::Punct(c) && c == '='
}

/// What the arguments `toks` of a `#[record(...)]` attribute say.
pub open spec fn attr_args_of(toks: Seq<TokenTree>) -> Result<AttrState, (ErrorKind, Seq<char>)> {
    attr_machine(toks, 0, None, 0, (None, Seq::empty(), Seq::empty()))
}

fn strip_quote_chars(s: &String) -> (r: String)
    ensures
        r@ == strip_quotes(s@),
{
    let cs = crate::text::chars_of(s.as_str());
    let mut r = String::new();
    let mut i: usize = 0;
    while i < cs.len()
        invariant
            i <= cs.len(),
            cs@ == s@,
            r@ == strip_quotes(cs@.take(i as int)),
        decreases cs.len() - i,
    {
        let c = cs[i];
        assert(cs@.take(i + 1).drop_last() == cs@.take(i as int));
        if c != '"' {
            crate::text::push_char(&mut r, c);
        }
        i = i + 1;
    }
    assert(cs@.take(cs.len() as int) == cs@);
    r
}

fn ident_action(s: &String) -> (r: Option<Action>)
    ensures
        r == action_named(s@),
{
    let v = s.as_str();
    if crate::text::str_eq(v, "deleteable") || crate::text::str_eq(v, "deletable") {
        Some(Action::Delete)
    } else if crate::text::str_eq(v, "insertable") {
        Some(Action::Insert)
    } else if crate::text::str_eq(v, "updateable") || crate::text::str_eq(v, "updatable") {
        Some(Action::Update)
    } else {
        None
    }
}

fn err(kind: ErrorKind, subject: String) -> (r: RecordError)
    ensures
        error_view(r) == (kind, subject@),
{
    RecordError { kind, subject }
}

/// Reads the arguments of a `#[record(...)]` attribute: `deleteable`,
/// `insertable`, `updateable` (and their other spellings), `table = "name"`
/// and `returning(a, b, ...)`; other punctuation is skipped.
pub fn parse_attr_args(toks: &Vec<TokenTree>) -> (r: Result<AttrArgs, RecordError>)
    ensures
        match attr_args_of(toks@) {
            Ok(st) => r matches Ok(a) && attr_view(a) == st,
            Err(e) => r matches Err(x) && error_view(x) == e,
        },
{
    let mut table_name: Option<String> = None;
    let mut actions: Vec<Action> = Vec::new();
    let mut returning: Vec<String> = Vec::new();
    let n = toks.len();
    let mut pos: usize = 0;
    assert(views(returning@) =~= Seq::<Seq<char>>::empty());
    assert(actions@ =~= Seq::<Action>::empty());
    while pos < n
        invariant
            n == toks.len(),
            pos <= n,
            attr_args_of(toks@) == attr_machine(toks@, pos as int, None, 0,
                attr_view(AttrArgs { table_name, actions, returning })),
        decreases n - pos,
    {
        match &toks[pos] {
            TokenTree::Group(g) => {
                return Err(err(ErrorKind::UnsupportedGroup, g.text.clone()));
            },
            TokenTree::Literal(l) => {
                return Err(err(ErrorKind::UnsupportedLiteral, l.clone()));
            },
            TokenTree::Punct(_) => {
                pos = pos + 1;
            },
            TokenTree::Ident(s) => {
                match ident_action(s) {
                    Some(a) => {
                        actions.push(a);
                        pos = pos + 1;
                    },
                    None => {
                        if crate::text::str_eq(s.as_str(), "table") {
                            if pos + 1 >= n {
                                return Err(err(ErrorKind::MissingTableName, s.clone()));
                            }
                            if !crate::tokens::punct_is(&toks[pos + 1], '=') {
                                return Err(err(ErrorKind::ExpectedTableAssignment, token_to_string(&toks[pos + 1])));
                            }
                            if pos + 2 >= n {
                                return Err(err(ErrorKind::MissingTableName, s.clone()));
                            }
                            match &toks[pos + 2] {
                                TokenTree::Literal(l) => {
                                    table_name = Some(strip_quote_chars(l));
                                    pos = pos + 3;
                                },
                                other => {
                                    return Err(err(ErrorKind::ExpectedTableName, token_to_string(other)));
                                },
                            }
                        } else if crate::text::str_eq(s.as_str(), "returning") {
                            if pos + 1 >= n {
                                return Err(err(ErrorKind::MissingReturningList, s.clone()));
                            }
                            match &toks[pos + 1] {
                                TokenTree::Group(g) => {
                                    let items = &g.stream;
                                    let mut gi: usize = 0;
                                    let mut p: usize = pos + 2;
                                    while gi < items.len()
                                        invariant
                                            n == toks.len(),
                                            pos + 2 <= p <= n,
                                            gi <= items.len(),
                                            attr_args_of(toks@) == attr_machine(toks@, p as int, Some(items@), gi as int,
                                                attr_view(AttrArgs { table_name, actions, returning })),
                                        decreases items.len() - gi,
                                    {
                                        match &items[gi] {
                                            TokenTree::Ident(name) => {
                                                if p < n {
                                                    if !crate::tokens::punct_is(&toks[p], ',') {
                                                        return Err(err(ErrorKind::ExpectedComma, token_to_string(&toks[p])));
                                                    }
                                                    p = p + 1;
                                                }
                                                let ghost before = returning@;
                                                returning.push(name.clone());
                                                proof { crate::text::lemma_views_push(before, *name); }
                                            },
                                            other => {
                                                return Err(err(ErrorKind::ExpectedIdent, token_to_string(other)));
                                            },
                                        }
                                        gi = gi + 1;
                                    }
                                    pos = p;
                                },
                                other => {
                                    return Err(err(ErrorKind::ExpectedReturningList, token_to_string(other)));
                                },
                            }
                        } else {
                            return Err(err(ErrorKind::UnsupportedIdent, s.clone()));
                        }
                    },
                }
            },
        }
    }
    Ok(AttrArgs { table_name, actions, returning })
}

} // verus!

verus! {

// ---------------------------------------------------------------------------
// Generated statements

/// A value bound to a statement placeholder.
#[derive(Debug)]
pub enum BoundArg {
    /// A field of the record, read through `&self`.
    SelfRef(String),
    /// A field of the record, read from `self`.
    SelfField(String),
    /// A parameter of the generated function.
    Param(String),
}

pub open spec fn bound_view(b: BoundArg) -> (u8, Seq<char>) {
    match b {
        BoundArg::SelfRef(s) => (0, s@),
        BoundArg::SelfField(s) => (1, s@),
        BoundArg::Param(s) => (2, s@),
    }
}

pub open spec fn bound_views(v: Seq<BoundArg>) -> Seq<(u8, Seq<char>)> {
    Seq::new(v.len(), |i: int| bound_view(v[i]))
}

pub open spec fn tagged(tag: u8, names: Seq<Seq<char>>) -> Seq<(u8, Seq<char>)> {
    Seq::new(names.len(), |i: int| (tag, names[i]))
}

/// What the record derive generates for one statement: the function's name
/// and parameters, the SQL text, the values bound to its placeholders in
/// order, and whether it returns the record's returned columns.
#[derive(Debug)]
pub struct StatementPlan {
    pub fn_name: String,
    pub fn_args: Vec<FnArg>,
    pub query: String,
    pub args: Vec<BoundArg>,
    pub returns_record: bool,
}

/// `query` followed by ` RETURNING a, b` when the record returns columns.
pub open spec fn with_returning(record: TableRecord, query: Seq<char>) -> Seq<char> {
    if record.returning@.len() == 0 {
        query
    } else {
        query + " RETURNING "@ + join(views(record.returning@), ", "@)
    }
}

/// Where the `i`-th item of a list joined by `, ` starts.
pub open spec fn list_item_start(items: Seq<Seq<char>>, i: int) -> int
    decreases i,
{
    if i <= 0 { 0 } else { list_item_start(items, i - 1) + items[i - 1].len() + 2 }
}

proof fn lemma_list_item_start_prefix(items: Seq<Seq<char>>, n: int, i: int)
    requires
        0 <= i <= n <= items.len(),
    ensures
        list_item_start(items.take(n), i) == list_item_start(items, i),
    decreases i,
{
    if i > 0 {
        lemma_list_item_start_prefix(items, n, i - 1);
        assert(items.take(n)[i - 1] == items[i - 1]);
    }
}

proof fn lemma_list_item_start_grows(items: Seq<Seq<char>>, i: int, j: int)
    requires
        0 <= i <= j,
    ensures
        list_item_start(items, i) <= list_item_start(items, j),
    decreases j,
{
    if i < j {
        lemma_list_item_start_grows(items, i, j - 1);
    }
}

proof fn lemma_subrange_right(a: Seq<char>, b: Seq<char>, s: int, e: int)
    requires
        a.len() <= s <= e <= a.len() + b.len(),
    ensures
        (a + b).subrange(s, e) == b.subrange(s - a.len(), e - a.len()),
{
    assert((a + b).subrange(s, e) =~= b.subrange(s - a.len(), e - a.len()));
}

proof fn lemma_subrange_left(a: Seq<char>, b: Seq<char>, s: int, e: int)
    requires
        0 <= s <= e <= a.len(),
    ensures
        (a + b).subrange(s, e) == a.subrange(s, e),
{
    assert((a + b).subrange(s, e) =~= a.subrange(s, e));
}

/// A list joined by `, ` holds each item at its start, in order, with `, `
/// between each item and the next, and nothing after the last.
proof fn lemma_join_layout(items: Seq<Seq<char>>)
    requires
        items.len() > 0,
    ensures
        join(items, ", "@).len() == list_item_start(items, items.len() - 1) + items.last().len(),
        forall|i: int| 0 <= i < items.len() ==> join(items, ", "@).subrange(
            list_item_start(items, i), list_item_start(items, i) + items[i].len()) == #[trigger] items[i],
        forall|i: int| 0 <= i < items.len() - 1 ==> join(items, ", "@).subrange(
            list_item_start(items, i) + items[i].len(), #[trigger] list_item_start(items, i + 1)) == ", "@,
    decreases items.len(),
{
    reveal_strlit(", ");
    assert(", "@.len() == 2);
    let n = items.len() as int;
    let j = join(items, ", "@);
    if n == 1 {
        assert(j == items[0]);
        assert(j.subrange(0, items[0].len() as int) =~= items[0]);
    } else {
        let p = items.drop_last();
        assert(p == items.take(n - 1));
        lemma_join_layout(p);
        let jp = join(p, ", "@);
        assert(j == jp + ", "@ + items.last());
        assert forall|i: int| 0 <= i <= n - 1 implies list_item_start(p, i) == list_item_start(items, i) by {
            lemma_list_item_start_prefix(items, n - 1, i);
        }
        assert(list_item_start(items, n - 1) == jp.len() + 2);
        assert forall|i: int| 0 <= i < n implies j.subrange(
            list_item_start(items, i), list_item_start(items, i) + items[i].len()) == #[trigger] items[i] by {
            if i < n - 1 {
                assert(p[i] == items[i]);
                lemma_list_item_start_grows(items, i + 1, n - 1);
                lemma_list_item_start_grows(items, 0, i);
                assert(list_item_start(items, i) + items[i].len() <= jp.len());
                lemma_subrange_left(jp + ", "@, items.last(), list_item_start(items, i), list_item_start(items, i) + items[i].len());
                lemma_subrange_left(jp, ", "@, list_item_start(items, i), list_item_start(items, i) + items[i].len());
            } else {
                lemma_subrange_right(jp + ", "@, items.last(), list_item_start(items, i), list_item_start(items, i) + items[i].len());
                assert(items.last().subrange(0, items.last().len() as int) =~= items.last());
            }
        }
        assert forall|i: int| 0 <= i < n - 1 implies j.subrange(
            list_item_start(items, i) + items[i].len(), #[trigger] list_item_start(items, i + 1)) == ", "@ by {
            assert(p[i] == items[i]);
            lemma_list_item_start_grows(items, 0, i);
            if i < n - 2 {
                lemma_list_item_start_grows(items, i + 1, n - 2);
                assert(list_item_start(items, i + 1) <= jp.len());
                lemma_subrange_left(jp + ", "@, items.last(), list_item_start(items, i) + items[i].len(), list_item_start(items, i + 1));
                lemma_subrange_left(jp, ", "@, list_item_start(items, i) + items[i].len(), list_item_start(items, i + 1));
            } else {
                lemma_subrange_left(jp + ", "@, items.last(), list_item_start(items, i) + items[i].len(), list_item_start(items, i + 1));
                lemma_subrange_right(jp, ", "@, list_item_start(items, i) + items[i].len(), list_item_start(items, i + 1));
                assert(", "@.subrange(0, 2) =~= ", "@);
            }
        }
    }
}

/// Where the `i`-th item of a joined list ends: within the list.
proof fn lemma_list_item_end(items: Seq<Seq<char>>, i: int)
    requires
        0 <= i < items.len(),
    ensures
        0 <= list_item_start(items, i),
        list_item_start(items, i) + items[i].len() <= list_item_start(items, items.len() - 1) + items.last().len(),
{
    lemma_list_item_start_grows(items, 0, i);
    if i < items.len() - 1 {
        assert(list_item_start(items, i + 1) == list_item_start(items, i) + items[i].len() + 2);
        lemma_list_item_start_grows(items, i + 1, items.len() - 1);
    }
}

/// `head` followed by a list joined by `, ` holds each item after `head`,
/// at its start, with `, ` between each item and the next.
proof fn lemma_prefixed_list_layout(head: Seq<char>, cols: Seq<Seq<char>>)
    requires
        cols.len() > 0,
    ensures
        (head + join(cols, ", "@)).subrange(0, head.len() as int) == head,
        (head + join(cols, ", "@)).len() == head.len() + list_item_start(cols, cols.len() - 1) + cols.last().len(),
        forall|i: int| 0 <= i < cols.len() ==> (head + join(cols, ", "@)).subrange(head.len() + list_item_start(cols, i),
            head.len() + list_item_start(cols, i) + cols[i].len()) == #[trigger] cols[i],
        forall|i: int| 0 <= i < cols.len() - 1 ==> (head + join(cols, ", "@)).subrange(head.len() + list_item_start(cols, i) + cols[i].len(),
            head.len() + #[trigger] list_item_start(cols, i + 1)) == ", "@,
{
    let j = join(cols, ", "@);
    lemma_join_layout(cols);
    lemma_subrange_left(head, j, 0, head.len() as int);
    assert(head.subrange(0, head.len() as int) =~= head);
    assert forall|i: int| 0 <= i < cols.len() implies (head + j).subrange(head.len() + list_item_start(cols, i),
        head.len() + list_item_start(cols, i) + cols[i].len()) == #[trigger] cols[i] by {
        lemma_list_item_end(cols, i);
        lemma_subrange_right(head, j, head.len() + list_item_start(cols, i), head.len() + list_item_start(cols, i) + cols[i].len());
    }
    assert forall|i: int| 0 <= i < cols.len() - 1 implies (head + j).subrange(head.len() + list_item_start(cols, i) + cols[i].len(),
        head.len() + #[trigger] list_item_start(cols, i + 1)) == ", "@ by {
        lemma_list_item_end(cols, i + 1);
        lemma_list_item_start_grows(cols, 0, i);
        lemma_subrange_right(head, j, head.len() + list_item_start(cols, i) + cols[i].len(), head.len() + list_item_start(cols, i + 1));
    }
}

/// A record that returns nothing adds nothing to its statements. One that
/// returns columns ends each of them with ` RETURNING ` and then every
/// returned column, in order, each separated from the next by `, `, and
/// nothing after the last.
pub proof fn law_returning_lists_every_column(record: TableRecord, query: Seq<char>)
    ensures
        record.returning@.len() == 0 ==> with_returning(record, query) == query,
        record.returning@.len() > 0 ==> returning_layout(with_returning(record, query), query + " RETURNING "@, views(record.returning@)),
{
    if record.returning@.len() > 0 {
        lemma_prefixed_list_layout(query + " RETURNING "@, views(record.returning@));
    }
}

/// `w` is `head` followed by the items `cols`, in order, each separated from
/// the next by `, `, with nothing after the last.
pub open spec fn returning_layout(w: Seq<char>, head: Seq<char>, cols: Seq<Seq<char>>) -> bool {
    &&& w.subrange(0, head.len() as int) == head
    &&& w.len() == head.len() + list_item_start(cols, cols.len() - 1) + cols.last().len()
    &&& forall|i: int| 0 <= i < cols.len() ==> w.subrange(head.len() + list_item_start(cols, i),
            head.len() + list_item_start(cols, i) + cols[i].len()) == #[trigger] cols[i]
    &&& forall|i: int| 0 <= i < cols.len() - 1 ==> w.subrange(head.len() + list_item_start(cols, i) + cols[i].len(),
            head.len() + #[trigger] list_item_start(cols, i + 1)) == ", "@
}

/// The name of the module that holds the record's returned columns.
pub open spec fn mod_ident_text(record: TableRecord) -> Seq<char> {
    "AhechaRecord"@ + record.ident@
}

impl TableRecord {
    /// The name of the module that holds the record's returned columns.
    pub fn mod_ident(&self) -> (r: String)
        ensures
            r@ == mod_ident_text(*self),
    {
        let mut s = String::from_str("AhechaRecord");
        s.append(self.ident.as_str());
        s
    }

    /// The typed fields of the record's returned-columns struct; fails on a
    /// returned field that is not a column or has an unmapped type.
    pub fn mod_record(&self) -> (r: Result<Vec<FnArg>, RecordError>)
        ensures
            match column_args(self.config.columns@, views(self.returning@)) {
                Ok(a) => r matches Ok(v) && arg_views(v@) == a,
                Err(e) => r matches Err(x) && error_view(x) == e,
            },
    {
        get_fn_args(self, &self.returning)
    }
}

fn append_returning(record: &TableRecord, query: String) -> (r: String)
    ensures
        r@ == with_returning(*record, query@),
{
    if record.returning.len() == 0 {
        query
    } else {
        let mut q = query;
        q.append(" RETURNING ");
        let list = join_strings(&record.returning, ", ");
        q.append(list.as_str());
        q
    }
}

fn tag_all(names: &Vec<String>, tag: u8) -> (r: Vec<BoundArg>)
    requires
        tag <= 2,
    ensures
        bound_views(r@) == tagged(tag, views(names@)),
{
    let mut r: Vec<BoundArg> = Vec::new();
    let mut i: usize = 0;
    while i < names.len()
        invariant
            tag <= 2,
            i <= names.len(),
            bound_views(r@) == tagged(tag, views(names@)).take(i as int),
        decreases names.len() - i,
    {
        let n = names[i].clone();
        let b = if tag == 0 { BoundArg::SelfRef(n) } else if tag == 1 { BoundArg::SelfField(n) } else { BoundArg::Param(n) };
        let ghost before = r@;
        r.push(b);
        assert(bound_views(r@) =~= bound_views(before).push(bound_view(b)));
        assert(tagged(tag, views(names@)).take(i + 1) =~= tagged(tag, views(names@)).take(i as int).push((tag, n@)));
        i = i + 1;
    }
    assert(tagged(tag, views(names@)).take(names.len() as int) =~= tagged(tag, views(names@)));
    r
}

fn append_bound(a: Vec<BoundArg>, b: Vec<BoundArg>) -> (r: Vec<BoundArg>)
    ensures
        bound_views(r@) == bound_views(a@) + bound_views(b@),
{
    let mut r = a;
    let ghost a0 = bound_views(r@);
    let mut i: usize = 0;
    while i < b.len()
        invariant
            i <= b.len(),
            bound_views(r@) == a0 + bound_views(b@).take(i as int),
        decreases b.len() - i,
    {
        let x = match &b[i] {
            BoundArg::SelfRef(s) => BoundArg::SelfRef(s.clone()),
            BoundArg::SelfField(s) => BoundArg::SelfField(s.clone()),
            BoundArg::Param(s) => BoundArg::Param(s.clone()),
        };
        let ghost before = r@;
        r.push(x);
        assert(bound_views(r@) =~= bound_views(before).push(bound_view(x)));
        assert(bound_views(b@).take(i + 1) =~= bound_views(b@).take(i as int).push(bound_view(b@[i as int])));
        i = i + 1;
    }
    assert(bound_views(b@).take(b.len() as int) =~= bound_views(b@));
    r
}

/// The `DELETE` function of a record, when the record is deletable: named
/// and scoped like the `WHERE` clause, binding the scope columns.
pub fn delete_plan(record: &TableRecord) -> (r: Result<Option<StatementPlan>, RecordError>)
    ensures
        !record.actions@.contains(Action::Delete) ==> r matches Ok(None),
        record.actions@.contains(Action::Delete) ==> match column_args(record.config.columns@, scope_columns(record.config)) {
            Ok(a) => r matches Ok(Some(p))
                && p.fn_name@ == scoped_fn_name(record.config, "delete"@)
                && arg_views(p.fn_args@) == a
                && p.query@ == delete_text(*record)
                && bound_views(p.args@) == tagged(2, scope_columns(record.config))
                && !p.returns_record,
            Err(e) => r matches Err(x) && error_view(x) == e,
        },
{
    if !contains_action(&record.actions, Action::Delete) {
        return Ok(None);
    }
    let parts = where_parts(record, "delete", 0)?;
    let query = delete_query(record)?;
    let args = tag_all(&parts.args, 2);
    Ok(Some(StatementPlan { fn_name: parts.fn_name, fn_args: parts.fn_args, query, args, returns_record: false }))
}

/// The name of a record's `INSERT` function: `insert_for_` followed by its
/// constraint columns joined by `_and_`.
pub open spec fn insert_fn_name(record: TableRecord) -> Seq<char> {
    "insert_for_"@ + join(views(record.config.constraints@), "_and_"@)
}

/// The `INSERT` function of a record, when the record is insertable: it
/// binds the record's fields (by reference) and then its constraint columns
/// (as parameters), and returns the returned columns when there are any.
pub fn insert_plan(record: &TableRecord) -> (r: Result<Option<StatementPlan>, RecordError>)
    ensures
        !record.actions@.contains(Action::Insert) ==> r matches Ok(None),
        record.actions@.contains(Action::Insert) ==> match column_args(record.config.columns@, views(record.config.constraints@)) {
            Ok(a) => r matches Ok(Some(p))
                && p.fn_name@ == insert_fn_name(*record)
                && arg_views(p.fn_args@) == a
                && p.query@ == with_returning(*record, insert_text(*record))
                && bound_views(p.args@) == tagged(0, views(record.fields@)) + tagged(2, views(record.config.constraints@))
                && p.returns_record == (record.returning@.len() > 0),
            Err(e) => r matches Err(x) && error_view(x) == e,
        },
{
    if !contains_action(&record.actions, Action::Insert) {
        return Ok(None);
    }
    let query = insert_query(record);
    let args = append_bound(tag_all(&record.fields, 0), tag_all(&record.config.constraints, 2));
    let mut fn_name = String::from_str("insert_for_");
    let tail = join_strings(&record.config.constraints, "_and_");
    fn_name.append(tail.as_str());
    let fn_args = get_fn_args(record, &record.config.constraints)?;
    let query = append_returning(record, query);
    Ok(Some(StatementPlan { fn_name, fn_args, query, args, returns_record: record.returning.len() != 0 }))
}

/// The `UPDATE` function of a record, when the record is updatable: it binds
/// the record's fields and then the scope columns.
pub fn update_plan(record: &TableRecord) -> (r: Result<Option<StatementPlan>, RecordError>)
    ensures
        !record.actions@.contains(Action::Update) ==> r matches Ok(None),
        record.actions@.contains(Action::Update) ==> match column_args(record.config.columns@, scope_columns(record.config)) {
            Ok(a) => r matches Ok(Some(p))
                && p.fn_name@ == scoped_fn_name(record.config, "update"@)
                && arg_views(p.fn_args@) == a
                && p.query@ == with_returning(*record, update_text(*record))
                && bound_views(p.args@) == tagged(1, views(record.fields@)) + tagged(2, scope_columns(record.config))
                && p.returns_record == (record.returning@.len() > 0),
            Err(e) => r matches Err(x) && error_view(x) == e,
        },
{
    if !contains_action(&record.actions, Action::Update) {
        return Ok(None);
    }
    let parts = where_parts(record, "update", record.fields.len())?;
    let query = update_string(record)?;
    let args = append_bound(tag_all(&record.fields, 1), tag_all(&parts.args, 2));
    let query = append_returning(record, query);
    Ok(Some(StatementPlan { fn_name: parts.fn_name, fn_args: parts.fn_args, query, args, returns_record: record.returning.len() != 0 }))
}

fn contains_action(actions: &Vec<Action>, a: Action) -> (r: bool)
    ensures
        r == actions@.contains(a),
{
    let mut i: usize = 0;
    while i < actions.len()
        invariant
            i <= actions.len(),
            forall|j: int| 0 <= j < i ==> actions@[j] != a,
        decreases actions.len() - i,
    {
        if actions[i] == a {
            return true;
        }
        i = i + 1;
    }
    false
}

} // verus!

verus! {

/// What the `#[record(...)]` attribute of a struct says, given the tokens
/// that follow the attribute's path (`None` when the struct has no such
/// attribute): a single group of arguments that names the table.
pub open spec fn record_attribute_of(attr: Option<Seq<TokenTree>>) -> Result<AttrState, (ErrorKind, Seq<char>)> {
    match attr {
        None => Err((ErrorKind::MissingAttribute, Seq::empty())),
        Some(t) => if t.len() == 0 {
            Err((ErrorKind::EmptyAttribute, Seq::empty()))
        } else if t.len() > 1 {
            Err((ErrorKind::ExtraAttributeTokens, Seq::empty()))
        } else {
            match t[0] {
                TokenTree::Group(g) => match attr_args_of(g.stream@) {
                    Ok(st) => if st.0 is None {
                        Err((ErrorKind::MissingTableArgument, Seq::empty()))
                    } else {
                        Ok(st)
                    },
                    Err(e) => Err(e),
                },
                _ => Err((ErrorKind::ExpectedAttributeGroup, token_text(t[0]))),
            }
        },
    }
}

/// Reads the `#[record(...)]` attribute of a struct from the tokens after
/// its path; the table must be named.
pub fn record_attribute(attr: Option<&Vec<TokenTree>>) -> (r: Result<AttrArgs, RecordError>)
    ensures
        match record_attribute_of(match attr { Some(t) => Some(t@), None => None }) {
            Ok(st) => r matches Ok(a) && attr_view(a) == st && a.table_name is Some,
            Err(e) => r matches Err(x) && error_view(x) == e,
        },
{
    match attr {
        None => Err(err(ErrorKind::MissingAttribute, String::new())),
        Some(t) => {
            if t.len() == 0 {
                return Err(err(ErrorKind::EmptyAttribute, String::new()));
            }
            if t.len() > 1 {
                return Err(err(ErrorKind::ExtraAttributeTokens, String::new()));
            }
            match &t[0] {
                TokenTree::Group(g) => {
                    let args = parse_attr_args(&g.stream)?;
                    if args.table_name.is_none() {
                        return Err(err(ErrorKind::MissingTableArgument, String::new()));
                    }
                    Ok(args)
                },
                other => Err(err(ErrorKind::ExpectedAttributeGroup, token_to_string(other))),
            }
        },
    }
}

impl TableRecord {
    /// A record from its struct's name and field names, its attribute
    /// arguments, and the configuration of its table (`None` when the
    /// records configuration has no such table).
    pub fn new(ident: String, fields: Vec<String>, args: AttrArgs, config: Option<TableConfig>) -> (r: Result<TableRecord, RecordError>)
        ensures
            args.table_name is None ==> (r matches Err(e) && error_view(e) == (ErrorKind::MissingTableArgument, Seq::<char>::empty())),
            args.table_name is Some && config is None ==> (r matches Err(e) && error_view(e) == (ErrorKind::UnknownTable, args.table_name.unwrap()@)),
            args.table_name is Some && config is Some ==> (r matches Ok(rec) && rec.actions == args.actions && rec.config == config.unwrap()
                && rec.fields == fields && rec.ident == ident && rec.returning == args.returning
                && rec.table_name == args.table_name.unwrap()),
    {
        let table_name = match args.table_name {
            Some(t) => t,
            None => {
                return Err(err(ErrorKind::MissingTableArgument, String::new()));
            },
        };
        match config {
            None => Err(err(ErrorKind::UnknownTable, table_name)),
            Some(c) => Ok(TableRecord {
                actions: args.actions,
                config: c,
                fields,
                ident,
                returning: args.returning,
                table_name,
            }),
        }
    }
}

} // verus!
