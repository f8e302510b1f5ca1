//! The column lists of the generated `INSERT` and `UPDATE` statements.

use vstd::prelude::*;
use crate::config::Field;
use crate::text::{join, views, join_strings};
use crate::record::{assignments, placeholders, build_assignments, build_placeholders};

verus! {

/// The names of a list of fields.
pub open spec fn field_names(fields: Seq<Field>) -> Seq<Seq<char>> {
    Seq::new(fields.len(), |i: int| fields[i].name@)
}

fn names_of(fields: &Vec<Field>) -> (r: Vec<String>)
    ensures
        views(r@) == field_names(fields@),
{
    let mut r: Vec<String> = Vec::new();
    let mut i: usize = 0;
    while i < fields.len()
        invariant
            i <= fields.len(),
            views(r@) == field_names(fields@).take(i as int),
        decreases fields.len() - i,
    {
        let n = fields[i].name.clone();
        let ghost before = r@;
        r.push(n);
        proof { crate::text::lemma_views_push(before, n); }
        assert(field_names(fields@).take(i + 1) =~= field_names(fields@).take(i as int).push(n@));
        i = i + 1;
    }
    assert(field_names(fields@).take(fields.len() as int) =~= field_names(fields@));
    r
}

/// The fields an `INSERT` statement writes.
#[derive(Debug)]
pub struct InsertFieldsValues {
    pub fields: Vec<Field>,
}

/// The fields an `INSERT` statement is scoped by.
#[derive(Debug)]
pub struct InsertConstraint {
    pub fields: Vec<Field>,
}

impl InsertFieldsValues {
    /// The column names, their numbered placeholders `$1`, `$2`, ... and the
    /// fields whose values are bound to them, in order.
    pub fn build(&self) -> (r: (Vec<String>, Vec<String>, Vec<String>))
        ensures
            views(r.0@) == field_names(self.fields@),
            views(r.1@) == placeholders(self.fields@.len()),
            views(r.2@) == field_names(self.fields@),
    {
        (names_of(&self.fields), build_placeholders(self.fields.len()), names_of(&self.fields))
    }
}

/// The fields an `UPDATE` statement sets.
#[derive(Debug)]
pub struct UpdateFieldsSet {
    pub fields: Vec<Field>,
}

impl UpdateFieldsSet {
    /// The `SET` list `a = $1, b = $2, ...` and the fields whose values are
    /// bound to its placeholders, in order.
    pub fn build(&self) -> (r: (String, Vec<String>))
        ensures
            r.0@ == join(assignments(field_names(self.fields@), 1), ", "@),
            views(r.1@) == field_names(self.fields@),
    {
        let names = names_of(&self.fields);
        let sets = build_assignments(&names, 1);
        (join_strings(&sets, ", "), names)
    }
}

/// An `INSERT` statement of a table: the fields it writes, the fields it is
/// scoped by, and the columns it returns (none when it returns nothing).
#[derive(Debug)]
pub struct InsertStatement {
    pub table_name: String,
    pub constraint: InsertConstraint,
    pub fields: InsertFieldsValues,
    pub returning: Vec<String>,
}

/// The SQL text of an insert into `table` of the columns `names`, returning
/// the columns `returning` when there are any.
pub open spec fn insert_statement_text(table: Seq<char>, names: Seq<Seq<char>>, returning: Seq<Seq<char>>) -> Seq<char> {
    "INSERT INTO "@ + table + " ("@ + join(names, ", "@) + ") VALUES ("@
        + join(placeholders(names.len()), ", "@) + ")"@
        + (if returning.len() == 0 { Seq::empty() } else { " RETURNING "@ + join(returning, ", "@) })
        + ";"@
}

/// The name of the generated insert function: `insert`, or
/// `insert_where_{a}_and_{b}...` over the constraint fields.
pub open spec fn insert_statement_fn(constraint: Seq<Seq<char>>) -> Seq<char> {
    if constraint.len() == 0 { "insert"@ } else { "insert_where_"@ + join(constraint, "_and_"@) }
}

impl InsertStatement {
    /// The SQL text of this statement.
    pub fn query(&self) -> (r: String)
        ensures
            r@ == insert_statement_text(self.table_name@, field_names(self.fields.fields@), views(self.returning@)),
    {
        let (columns, values, _) = self.fields.build();
        let mut q = String::from_str("INSERT INTO ");
        q.append(self.table_name.as_str());
        q.append(" (");
        let c = join_strings(&columns, ", ");
        q.append(c.as_str());
        q.append(") VALUES (");
        let v = join_strings(&values, ", ");
        q.append(v.as_str());
        q.append(")");
        if self.returning.len() > 0 {
            q.append(" RETURNING ");
            let r = join_strings(&self.returning, ", ");
            q.append(r.as_str());
        }
        q.append(";");
        proof {
            let names = field_names(self.fields.fields@);
            assert(names.len() == self.fields.fields@.len());
        }
        q
    }

    /// The name of the generated insert function.
    pub fn fn_name(&self) -> (r: String)
        ensures
            r@ == insert_statement_fn(field_names(self.constraint.fields@)),
    {
        if self.constraint.fields.len() == 0 {
            String::from_str("insert")
        } else {
            let names = names_of(&self.constraint.fields);
            let mut s = String::from_str("insert_where_");
            let j = join_strings(&names, "_and_");
            s.append(j.as_str());
            s
        }
    }

    /// The values bound to the statement, in placeholder order: the written
    /// fields (read from the record) and then the constraint fields (taken
    /// as parameters of the function).
    pub fn query_params(&self) -> (r: (Vec<String>, Vec<String>))
        ensures
            views(r.0@) == field_names(self.fields.fields@),
            views(r.1@) == field_names(self.constraint.fields@),
    {
        (names_of(&self.fields.fields), names_of(&self.constraint.fields))
    }
}

/// The fields an `UPDATE` statement is scoped by.
#[derive(Debug)]
pub struct WhereConstraint {
    pub fields: Vec<Field>,
}

/// The `WHERE` clause over `names`, whose placeholders come after `offset`
/// earlier ones: `WHERE a = $(offset + 1) AND b = $(offset + 2) ...`, or
/// nothing when there are no names.
pub open spec fn where_text(names: Seq<Seq<char>>, offset: nat) -> Seq<char> {
    if names.len() == 0 { Seq::empty() } else { "WHERE "@ + join(assignments(names, offset + 1), " AND "@) }
}

impl WhereConstraint {
    /// The `WHERE` clause, its placeholders numbered after `offset` earlier
    /// ones, and the fields bound to them, in order.
    pub fn build(&self, offset: usize) -> (r: (String, Vec<String>))
        ensures
            r.0@ == where_text(field_names(self.fields@), offset as nat),
            views(r.1@) == field_names(self.fields@),
    {
        let names = names_of(&self.fields);
        if names.len() == 0 {
            (String::new(), names)
        } else {
            let parts = build_assignments(&names, offset as u128 + 1);
            let mut q = String::from_str("WHERE ");
            let body = join_strings(&parts, " AND ");
            q.append(body.as_str());
            (q, names)
        }
    }
}

/// An `UPDATE` statement of a table: the fields it sets, the fields it is
/// scoped by, and the columns it returns (none when it returns nothing).
#[derive(Debug)]
pub struct UpdateStatement {
    pub table_name: String,
    pub fields: UpdateFieldsSet,
    pub constraint: WhereConstraint,
    pub returning: Vec<String>,
}

/// The SQL text of an update of `table` setting `sets`, scoped by `scope`,
/// returning `returning` when there are any columns to return.
pub open spec fn update_statement_text(table: Seq<char>, sets: Seq<Seq<char>>, scope: Seq<Seq<char>>, returning: Seq<Seq<char>>) -> Seq<char> {
    "UPDATE "@ + table + " SET "@ + join(assignments(sets, 1), ", "@) + " "@
        + where_text(scope, sets.len())
        + (if returning.len() == 0 { Seq::empty() } else { " RETURNING "@ + join(returning, ", "@) })
}

/// The name of the generated update function: `insert` when it is scoped by
/// nothing, else `update_where_{a}_and_{b}...` over the scope fields.
pub open spec fn update_statement_fn(scope: Seq<Seq<char>>) -> Seq<char> {
    if scope.len() == 0 { "insert"@ } else { "update_where_"@ + join(scope, "_and_"@) }
}

impl UpdateStatement {
    /// The SQL text of this statement.
    pub fn query(&self) -> (r: String)
        ensures
            r@ == update_statement_text(self.table_name@, field_names(self.fields.fields@),
                field_names(self.constraint.fields@), views(self.returning@)),
    {
        let (sets, set_params) = self.fields.build();
        let (where_query, _) = self.constraint.build(set_params.len());
        let mut q = String::from_str("UPDATE ");
        q.append(self.table_name.as_str());
        q.append(" SET ");
        q.append(sets.as_str());
        q.append(" ");
        q.append(where_query.as_str());
        if self.returning.len() > 0 {
            q.append(" RETURNING ");
            let r = join_strings(&self.returning, ", ");
            q.append(r.as_str());
        }
        q
    }

    /// The name of the generated function.
    pub fn fn_name(&self) -> (r: String)
        ensures
            r@ == update_statement_fn(field_names(self.constraint.fields@)),
    {
        if self.constraint.fields.len() == 0 {
            String::from_str("insert")
        } else {
            let names = names_of(&self.constraint.fields);
            let mut s = String::from_str("update_where_");
            let j = join_strings(&names, "_and_");
            s.append(j.as_str());
            s
        }
    }

    /// The values bound to the statement, in placeholder order: the set
    /// fields (read from the record) and then the scope fields (taken as
    /// parameters of the function).
    pub fn query_params(&self) -> (r: Vec<String>)
        ensures
            views(r@) == field_names(self.fields.fields@) + field_names(self.constraint.fields@),
    {
        let (_, set_params) = self.fields.build();
        let (_, where_params) = self.constraint.build(set_params.len());
        let mut r = set_params;
        let mut w = where_params;
        let ghost a = r@;
        let ghost b = w@;
        r.append(&mut w);
        assert(r@ == a + b);
        assert(views(a + b) =~= views(a) + views(b));
        r
    }
}

} // verus!
