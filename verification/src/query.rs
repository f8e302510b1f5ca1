//! The `query!` and `prepare_columns_statement!` macros: reading a query
//! statement, and reading the column list of a prepared statement with the
//! placeholders and bindings it gets.

use vstd::prelude::*;
use crate::text::{views, lowercase, to_lowercase, str_eq, decimal, push_decimal};
use crate::tokens::{TokenTree, Delimiter, token_text, token_to_string, is_group};
use crate::html::{
    Lit, PR, lit_p, ident_at, any_ident_at, punct_at, brace_at, ident_name,
    punct_at_e, brace_at_e, ident_at_e, any_ident_at_e, parse_lit,
};

verus! {

// ---------------------------------------------------------------------------
// Outside facts

/// `syn::LitStr` parsed from a literal token's text, and its `value()` (the
/// text between the quotes with escapes resolved), or `None` where `syn`
/// refuses the text. Nothing is claimed of the outcome: `syn` lexes through
/// the compiler inside a macro expansion and through its own lexer
/// elsewhere.
#[verifier::external_body]
fn lit_str_value(text: &str) -> (r: Option<String>)
{
    match syn::parse_str::<syn::LitStr>(text) {
        Ok(lit) => Some(lit.value()),
        Err(_) => None,
    }
}

// ---------------------------------------------------------------------------
// Errors

/// Why a statement failed to read.
#[derive(Clone, Copy, PartialEq, Eq, Structural, Debug)]
pub enum QueryErrorKind {
    /// An identifier (not a keyword) was expected.
    ExpectedIdent,
    /// This punctuation character was expected.
    ExpectedPunct(char),
    ExpectedStringLiteral,
    ExpectedLiteral,
    ExpectedBrackets,
    ExpectedBraces,
    /// Tokens are left over.
    UnexpectedToken,
    /// The statement keyword is none of `DELETE`, `INSERT`, `SELECT`, `UPDATE`.
    UnknownStatement,
    /// `INTO` was expected.
    ExpectedInto,
    /// `TableColumn` was expected.
    ExpectedTableColumn,
    /// `vec` was expected.
    ExpectedVec,
    /// A `TableColumn` lacks one of its three keys.
    IncompleteColumn,
}

/// A failed read: why, and the text of the token it stopped at (empty at the
/// end of the input).
#[derive(Debug)]
pub struct QueryError {
    pub kind: QueryErrorKind,
    pub found: String,
}

pub open spec fn found_at(t: Seq<TokenTree>, p: int) -> Seq<char> {
    if 0 <= p < t.len() { token_text(t[p]) } else { Seq::empty() }
}

/// The message an error is reported with.
pub open spec fn error_message(kind: QueryErrorKind, found: Seq<char>) -> Seq<char> {
    match kind {
        QueryErrorKind::ExpectedIdent => "expected identifier"@,
        QueryErrorKind::ExpectedPunct(c) => "expected `"@ + seq![c] + "`"@,
        QueryErrorKind::ExpectedStringLiteral => "expected string literal"@,
        QueryErrorKind::ExpectedLiteral => "expected literal"@,
        QueryErrorKind::ExpectedBrackets => "expected square brackets"@,
        QueryErrorKind::ExpectedBraces => "expected curly braces"@,
        QueryErrorKind::UnexpectedToken => "unexpected token"@,
        QueryErrorKind::UnknownStatement => "Expected DELETE, INSERT, SELECT or UPDATE keyword but found "@ + found,
        QueryErrorKind::ExpectedInto => "Expected token INTO, but found "@ + found,
        QueryErrorKind::ExpectedTableColumn => "Expected token `TableColumn`, but found "@ + found,
        QueryErrorKind::ExpectedVec => "Expected token `vec` but found "@ + found,
        QueryErrorKind::IncompleteColumn => "Couldn't parse the TableColumn struct"@,
    }
}

impl QueryError {
    /// The message this error is reported with.
    pub fn message(&self) -> (r: String)
        ensures
            r@ == error_message(self.kind, self.found@),
    {
        match self.kind {
            QueryErrorKind::ExpectedIdent => String::from_str("expected identifier"),
            QueryErrorKind::ExpectedPunct(c) => {
                let mut s = String::from_str("expected `");
                crate::text::push_char(&mut s, c);
                s.append("`");
                s
            },
            QueryErrorKind::ExpectedStringLiteral => String::from_str("expected string literal"),
            QueryErrorKind::ExpectedLiteral => String::from_str("expected literal"),
            QueryErrorKind::ExpectedBrackets => String::from_str("expected square brackets"),
            QueryErrorKind::ExpectedBraces => String::from_str("expected curly braces"),
            QueryErrorKind::UnexpectedToken => String::from_str("unexpected token"),
            QueryErrorKind::UnknownStatement => {
                let mut s = String::from_str("Expected DELETE, INSERT, SELECT or UPDATE keyword but found ");
                s.append(self.found.as_str());
                s
            },
            QueryErrorKind::ExpectedInto => {
                let mut s = String::from_str("Expected token INTO, but found ");
                s.append(self.found.as_str());
                s
            },
            QueryErrorKind::ExpectedTableColumn => {
                let mut s = String::from_str("Expected token `TableColumn`, but found ");
                s.append(self.found.as_str());
                s
            },
            QueryErrorKind::ExpectedVec => {
                let mut s = String::from_str("Expected token `vec` but found ");
                s.append(self.found.as_str());
                s
            },
            QueryErrorKind::IncompleteColumn => String::from_str("Couldn't parse the TableColumn struct"),
        }
    }
}

pub open spec fn qerr_view(e: QueryError) -> (QueryErrorKind, Seq<char>) {
    (e.kind, e.found@)
}

fn found(t: &Vec<TokenTree>, p: usize) -> (r: String)
    ensures
        r@ == found_at(t@, p as int),
{
    if p < t.len() { token_to_string(&t[p]) } else { String::new() }
}

fn qerr(kind: QueryErrorKind, t: &Vec<TokenTree>, p: usize) -> (r: QueryError)
    ensures
        qerr_view(r) == (kind, found_at(t@, p as int)),
{
    QueryError { kind, found: found(t, p) }
}

// ---------------------------------------------------------------------------
// `query!` statements

/// `data INTO table`: insert the record `data` into `table`.
#[derive(Debug)]
pub struct InsertStatement {
    pub table: String,
    pub data: String,
}

/// A statement of the `query!` macro (only inserts are read so far).
#[derive(Debug)]
pub enum Statement {
    Insert(InsertStatement),
}

/// The statement keyword at the start of a query, in lower case, if the
/// query starts with an identifier.
pub open spec fn statement_keyword(t: Seq<TokenTree>) -> Option<Seq<char>> {
    if ident_at(t, 0) { Some(lowercase(ident_name(t, 0))) } else { None }
}

/// Whether a query names a statement kind that is not read yet (`DELETE`,
/// `SELECT` or `UPDATE`); the macro stops on those.
pub open spec fn unread_statement(t: Seq<TokenTree>) -> bool {
    statement_keyword(t) matches Some(k) && (k == "delete"@ || k == "select"@ || k == "update"@)
}

/// What a query reads as: the data and table of an insert, or an error.
pub open spec fn statement_of(t: Seq<TokenTree>) -> Result<(Seq<char>, Seq<char>), (QueryErrorKind, Seq<char>)> {
    if !ident_at(t, 0) {
        Err((QueryErrorKind::ExpectedIdent, found_at(t, 0)))
    } else if statement_keyword(t) != Some("insert"@) {
        Err((QueryErrorKind::UnknownStatement, ident_name(t, 0)))
    } else if !any_ident_at(t, 1) {
        Err((QueryErrorKind::ExpectedIdent, found_at(t, 1)))
    } else if !any_ident_at(t, 2) {
        Err((QueryErrorKind::ExpectedIdent, found_at(t, 2)))
    } else if lowercase(ident_name(t, 2)) != "into"@ {
        Err((QueryErrorKind::ExpectedInto, ident_name(t, 2)))
    } else if !any_ident_at(t, 3) {
        Err((QueryErrorKind::ExpectedIdent, found_at(t, 3)))
    } else if t.len() > 4 {
        Err((QueryErrorKind::UnexpectedToken, found_at(t, 4)))
    } else {
        Ok((ident_name(t, 1), ident_name(t, 3)))
    }
}

fn ident_string(t: &Vec<TokenTree>, p: usize) -> (r: String)
    requires
        any_ident_at(t@, p as int),
    ensures
        r@ == ident_name(t@, p as int),
{
    match &t[p] {
        TokenTree::Ident(s) => s.clone(),
        _ => String::new(),
    }
}

impl Statement {
    /// Reads the tokens of a `query!` call. The statement must not be one of
    /// the kinds not read yet.
    pub fn parse(t: &Vec<TokenTree>) -> (r: Result<Statement, QueryError>)
        requires
            !unread_statement(t@),
        ensures
            match statement_of(t@) {
                Ok((data, table)) => r matches Ok(Statement::Insert(s)) && s.data@ == data && s.table@ == table,
                Err(e) => r matches Err(x) && qerr_view(x) == e,
            },
    {
        if !ident_at_e(t, 0) {
            return Err(qerr(QueryErrorKind::ExpectedIdent, t, 0));
        }
        let keyword = ident_string(t, 0);
        let lower = to_lowercase(keyword.as_str());
        if !str_eq(lower.as_str(), "insert") {
            return Err(QueryError { kind: QueryErrorKind::UnknownStatement, found: keyword });
        }
        if !any_ident_at_e(t, 1) {
            return Err(qerr(QueryErrorKind::ExpectedIdent, t, 1));
        }
        let data = ident_string(t, 1);
        if !any_ident_at_e(t, 2) {
            return Err(qerr(QueryErrorKind::ExpectedIdent, t, 2));
        }
        let into = ident_string(t, 2);
        let into_lower = to_lowercase(into.as_str());
        if !str_eq(into_lower.as_str(), "into") {
            return Err(QueryError { kind: QueryErrorKind::ExpectedInto, found: into });
        }
        if !any_ident_at_e(t, 3) {
            return Err(qerr(QueryErrorKind::ExpectedIdent, t, 3));
        }
        let table = ident_string(t, 3);
        if t.len() > 4 {
            return Err(qerr(QueryErrorKind::UnexpectedToken, t, 4));
        }
        Ok(Statement::Insert(InsertStatement { table, data }))
    }

    /// Reads a query as `parse` does, or `None` where it names a statement
    /// kind that is not read yet.
    pub fn checked_parse(t: &Vec<TokenTree>) -> (r: Option<Result<Statement, QueryError>>)
        ensures
            r is None <==> unread_statement(t@),
            r matches Some(res) ==> match statement_of(t@) {
                Ok((data, table)) => res matches Ok(Statement::Insert(s)) && s.data@ == data && s.table@ == table,
                Err(e) => res matches Err(x) && qerr_view(x) == e,
            },
    {
        if ident_at_e(t, 0) {
            let keyword = ident_string(t, 0);
            let lower = to_lowercase(keyword.as_str());
            if str_eq(lower.as_str(), "delete") || str_eq(lower.as_str(), "select") || str_eq(lower.as_str(), "update") {
                return None;
            }
        }
        Some(Statement::parse(t))
    }
}

// ---------------------------------------------------------------------------
// `prepare_columns_statement!`

/// A column of a prepared statement: its field, whether it is the primary
/// key, and whether its value is bound with `as _`.
#[derive(Debug)]
pub struct Column {
    pub ident: String,
    pub is_primary_key: bool,
    pub sqlx_cast_as_underscore: bool,
}

pub type ColumnV = (Seq<char>, bool, bool);

pub open spec fn column_view(c: Column) -> ColumnV {
    (c.ident@, c.is_primary_key, c.sqlx_cast_as_underscore)
}

pub open spec fn columns_view(v: Seq<Column>) -> Seq<ColumnV> {
    Seq::new(v.len(), |i: int| column_view(v[i]))
}

/// The keys of a `TableColumn { .. }` read so far.
pub type ColumnKeys = (Option<Seq<char>>, Option<bool>, Option<bool>);

pub type QErr = (QueryErrorKind, Seq<char>);

/// The values of string literals, by the literal token's text: `None` for a
/// literal that is no string literal.
pub type LitValues = Seq<(Seq<char>, Option<Seq<char>>)>;

pub open spec fn lit_values(v: Seq<(String, Option<String>)>) -> LitValues {
    Seq::new(v.len(), |i: int| (v[i].0@, opt_view(v[i].1)))
}

/// The value the first entry for `text` gives, or `None` where no entry
/// names it.
pub open spec fn lit_value(vals: LitValues, text: Seq<char>) -> Option<Seq<char>>
    decreases vals.len(),
{
    if vals.len() == 0 {
        None
    } else if vals[0].0 == text {
        vals[0].1
    } else {
        lit_value(vals.drop_first(), text)
    }
}

fn lookup_lit(lits: &Vec<(String, Option<String>)>, text: &str) -> (r: Option<String>)
    ensures
        opt_view(r) == lit_value(lit_values(lits@), text@),
{
    let ghost vals = lit_values(lits@);
    assert(vals.skip(0) =~= vals);
    let mut i: usize = 0;
    while i < lits.len()
        invariant
            i <= lits.len(),
            vals == lit_values(lits@),
            lit_value(vals, text@) == lit_value(vals.skip(i as int), text@),
        decreases lits.len() - i,
    {
        assert(vals.skip(i as int)[0] == vals[i as int]);
        if str_eq(lits[i].0.as_str(), text) {
            return lits[i].1.clone();
        }
        assert(vals.skip(i as int).drop_first() =~= vals.skip(i + 1));
        i = i + 1;
    }
    None
}

/// The keys after reading `key: value`, and the report it gives (if any).
pub open spec fn apply_key(vals: LitValues, c: Seq<TokenTree>, keys: ColumnKeys, key: Seq<char>, l: Lit) -> (ColumnKeys, Option<Seq<char>>) {
    if key == "ident"@ {
        match l {
            Lit::Token(i) => match lit_value(vals, token_text(c[i as int])) {
                Some(v) => ((Some(v), keys.1, keys.2), None),
                None => (keys, Some("Expected a `&str`"@)),
            },
            _ => (keys, Some("Expected a `&str`"@)),
        }
    } else if key == "is_primary_key"@ {
        match l {
            Lit::Bool(b) => ((keys.0, Some(b), keys.2), None),
            _ => (keys, Some("Expected a `bool`"@)),
        }
    } else if key == "sqlx_cast_as_underscore"@ {
        match l {
            Lit::Bool(b) => ((keys.0, keys.1, Some(b)), None),
            _ => (keys, Some("Expected a `bool`"@)),
        }
    } else {
        (keys, Some("Unhandled key"@))
    }
}

pub open spec fn with_report(reports: Seq<Seq<char>>, r: Option<Seq<char>>) -> Seq<Seq<char>> {
    match r {
        Some(m) => reports.push(m),
        None => reports,
    }
}

/// Reads `key: value,` entries of a `TableColumn { .. }` body from position
/// `q` for as long as an identifier comes: the keys and the position it
/// stopped at, or an error; and the reports given on the way.
pub open spec fn column_keys_p(vals: LitValues, c: Seq<TokenTree>, q: int, keys: ColumnKeys, reports: Seq<Seq<char>>) -> (Result<(ColumnKeys, int), QErr>, Seq<Seq<char>>)
    decreases c.len() - q,
{
    if q < 0 || !ident_at(c, q) {
        (Ok((keys, q)), reports)
    } else if !punct_at(c, q + 1, ':') {
        (Err((QueryErrorKind::ExpectedPunct(':'), found_at(c, q + 1))), reports)
    } else {
        match lit_p(c, q + 2) {
            PR::Fail(_, _, _) => (Err((QueryErrorKind::ExpectedLiteral, found_at(c, q + 2))), reports),
            PR::Done(l, q2) => if !punct_at(c, q2, ',') {
                (Err((QueryErrorKind::ExpectedPunct(','), found_at(c, q2))), reports)
            } else if q2 + 1 <= q {
                (Ok((keys, q)), reports)
            } else {
                let (k2, rep) = apply_key(vals, c, keys, ident_name(c, q), l);
                column_keys_p(vals, c, q2 + 1, k2, with_report(reports, rep))
            },
        }
    }
}

pub open spec fn group_stream(t: TokenTree) -> Seq<TokenTree> {
    match t {
        TokenTree::Group(g) => g.stream@,
        _ => Seq::empty(),
    }
}

/// The first leftover recorded: the one already recorded, else the token at
/// `q` if the list goes on past it.
pub open spec fn record_leftover(pending: Option<Seq<char>>, c: Seq<TokenTree>, q: int) -> Option<Seq<char>> {
    if pending is Some { pending } else if 0 <= q < c.len() { Some(token_text(c[q])) } else { None }
}

/// Reads `TableColumn { .. }` at position `p`: the column and the position
/// after it, or an error; with the reports and the first leftover recorded.
pub open spec fn column_p(vals: LitValues, t: Seq<TokenTree>, p: int, reports: Seq<Seq<char>>, pending: Option<Seq<char>>)
    -> (Result<(ColumnV, int), QErr>, Seq<Seq<char>>, Option<Seq<char>>)
{
    if !ident_at(t, p) {
        (Err((QueryErrorKind::ExpectedIdent, found_at(t, p))), reports, pending)
    } else if ident_name(t, p) != "TableColumn"@ {
        (Err((QueryErrorKind::ExpectedTableColumn, ident_name(t, p))), reports, pending)
    } else if !brace_at(t, p + 1) {
        (Err((QueryErrorKind::ExpectedBraces, found_at(t, p + 1))), reports, pending)
    } else {
        let c = group_stream(t[p + 1]);
        match column_keys_p(vals, c, 0, (None, None, None), reports) {
            (Err(e), rs) => (Err(e), rs, pending),
            (Ok((keys, q)), rs) => {
                let pend = record_leftover(pending, c, q);
                match keys {
                    (Some(i), Some(pk), Some(cast)) => (Ok(((i, pk, cast), p + 2)), rs, pend),
                    _ => (Err((QueryErrorKind::IncompleteColumn, Seq::empty())), rs, pend),
                }
            },
        }
    }
}

/// Reads columns from position `q` for as long as an identifier comes.
pub open spec fn columns_p(vals: LitValues, c: Seq<TokenTree>, q: int, cols: Seq<ColumnV>, reports: Seq<Seq<char>>, pending: Option<Seq<char>>)
    -> (Result<Seq<ColumnV>, QErr>, Seq<Seq<char>>, Option<Seq<char>>)
    decreases c.len() - q,
{
    if q < 0 || !ident_at(c, q) {
        (Ok(cols), reports, record_leftover(pending, c, q))
    } else {
        match column_p(vals, c, q, reports, pending) {
            (Err(e), rs, pe) => (Err(e), rs, pe),
            (Ok((col, q2)), rs, pe) => if q2 <= q {
                (Ok(cols), rs, pe)
            } else {
                columns_p(vals, c, q2, cols.push(col), rs, pe)
            },
        }
    }
}

/// What the arguments of `prepare_columns_statement!` read as: the SQL
/// format text, the record's name and the columns, or an error; and the
/// reports given on the way. Leftover tokens inside a group are reported
/// (as the first of them) only when nothing else failed.
pub open spec fn prepare_p(vals: LitValues, t: Seq<TokenTree>) -> (Result<(Seq<char>, Seq<char>, Seq<ColumnV>), QErr>, Seq<Seq<char>>) {
    let sql = if 0 < t.len() && t[0] is Literal { lit_value(vals, token_text(t[0])) } else { None };
    if sql is None {
        (Err((QueryErrorKind::ExpectedStringLiteral, found_at(t, 0))), Seq::empty())
    } else if !punct_at(t, 1, ',') {
        (Err((QueryErrorKind::ExpectedPunct(','), found_at(t, 1))), Seq::empty())
    } else if !any_ident_at(t, 2) {
        (Err((QueryErrorKind::ExpectedIdent, found_at(t, 2))), Seq::empty())
    } else if !punct_at(t, 3, ',') {
        (Err((QueryErrorKind::ExpectedPunct(','), found_at(t, 3))), Seq::empty())
    } else if !ident_at(t, 4) {
        (Err((QueryErrorKind::ExpectedIdent, found_at(t, 4))), Seq::empty())
    } else if ident_name(t, 4) != "vec"@ {
        (Err((QueryErrorKind::ExpectedVec, ident_name(t, 4))), Seq::empty())
    } else if !punct_at(t, 5, '!') {
        (Err((QueryErrorKind::ExpectedPunct('!'), found_at(t, 5))), Seq::empty())
    } else if !(6 < t.len() && is_group(t[6], Delimiter::Bracket)) {
        (Err((QueryErrorKind::ExpectedBrackets, found_at(t, 6))), Seq::empty())
    } else {
        prepare_tail(t, sql.unwrap(), ident_name(t, 2), columns_p(vals, group_stream(t[6]), 0, Seq::empty(), Seq::empty(), None))
    }
}

/// The end of a prepared-statement read, once its columns are read.
pub open spec fn prepare_tail(t: Seq<TokenTree>, sql: Seq<char>, name: Seq<char>,
    cres: (Result<Seq<ColumnV>, QErr>, Seq<Seq<char>>, Option<Seq<char>>))
    -> (Result<(Seq<char>, Seq<char>, Seq<ColumnV>), QErr>, Seq<Seq<char>>)
{
    match cres {
        (Err(e), rs, _) => (Err(e), rs),
        (Ok(cols), rs, pending) => match pending {
            Some(x) => (Err((QueryErrorKind::UnexpectedToken, x)), rs),
            None => if t.len() > 7 {
                (Err((QueryErrorKind::UnexpectedToken, found_at(t, 7))), rs)
            } else {
                (Ok((sql, name, cols)), rs)
            },
        },
    }
}

fn lit_str_at(lits: &Vec<(String, Option<String>)>, t: &Vec<TokenTree>, p: usize) -> (r: Option<String>)
    ensures
        match (if (p as int) < t@.len() && t@[p as int] is Literal { lit_value(lit_values(lits@), token_text(t@[p as int])) } else { None }) {
            Some(v) => r matches Some(s) && s@ == v,
            None => r is None,
        },
{
    if p < t.len() {
        match &t[p] {
            TokenTree::Literal(text) => lookup_lit(lits, text.as_str()),
            _ => None,
        }
    } else {
        None
    }
}

fn push_report(reports: &mut Vec<String>, m: &str)
    ensures
        views(final(reports)@) == views(old(reports)@).push(m@),
{
    let s = String::from_str(m);
    let ghost before = reports@;
    reports.push(s);
    proof { crate::text::lemma_views_push(before, s); }
}

pub open spec fn opt_view(o: Option<String>) -> Option<Seq<char>> {
    match o {
        Some(s) => Some(s@),
        None => None,
    }
}

/// Reads `TableColumn { .. }` at position `p` as `column_p` does, adding to
/// the reports and recording the first leftover.
fn parse_column(lits: &Vec<(String, Option<String>)>, t: &Vec<TokenTree>, p: usize, reports: &mut Vec<String>, pending: &mut Option<String>) -> (r: Result<(Column, usize), QueryError>)
    requires
        p <= t.len(),
    ensures
        ({
            let (res, rs, pe) = column_p(lit_values(lits@), t@, p as int, views(old(reports)@), opt_view(*old(pending)));
            &&& views(final(reports)@) == rs
            &&& opt_view(*final(pending)) == pe
            &&& match res {
                Ok((col, q)) => r matches Ok((c, q2)) && column_view(c) == col && q2 == q,
                Err(e) => r matches Err(x) && qerr_view(x) == e,
            }
        }),
{
    if !ident_at_e(t, p) {
        return Err(qerr(QueryErrorKind::ExpectedIdent, t, p));
    }
    let name = ident_string(t, p);
    if !str_eq(name.as_str(), "TableColumn") {
        return Err(QueryError { kind: QueryErrorKind::ExpectedTableColumn, found: name });
    }
    if !brace_at_e(t, p + 1) {
        return Err(qerr(QueryErrorKind::ExpectedBraces, t, p + 1));
    }
    let c = match &t[p + 1] {
        TokenTree::Group(g) => &g.stream,
        _ => { return Err(qerr(QueryErrorKind::ExpectedBraces, t, p + 1)); },
    };
    assert(c@ == group_stream(t@[p + 1]));
    let mut ident: Option<String> = None;
    let mut pk: Option<bool> = None;
    let mut cast: Option<bool> = None;
    let ghost start_reports = views(reports@);
    let mut q: usize = 0;
    proof { reveal_strlit("TableColumn"); }
    while ident_at_e(c, q)
        invariant
            q <= c.len(),
            p + 1 < t@.len(),
            ident_at(t@, p as int),
            ident_name(t@, p as int) == "TableColumn"@,
            brace_at(t@, p + 1),
            c@ == group_stream(t@[p + 1]),
            start_reports == views(old(reports)@),
            *pending == *old(pending),
            column_keys_p(lit_values(lits@), c@, 0, (None, None, None), start_reports)
                == column_keys_p(lit_values(lits@), c@, q as int, (opt_view(ident), pk, cast), views(reports@)),
        decreases c.len() - q,
    {
        let ghost keys = (opt_view(ident), pk, cast);
        let ghost rs = views(reports@);
        if !punct_at_e(c, q + 1, ':') {
            return Err(qerr(QueryErrorKind::ExpectedPunct(':'), c, q + 1));
        }
        let (l, q2) = match parse_lit(c, q + 2) {
            Ok(x) => x,
            Err(_) => { return Err(qerr(QueryErrorKind::ExpectedLiteral, c, q + 2)); },
        };
        if !punct_at_e(c, q2, ',') {
            return Err(qerr(QueryErrorKind::ExpectedPunct(','), c, q2));
        }
        let key = ident_string(c, q);
        if str_eq(key.as_str(), "ident") {
            let v = match l {
                Lit::Token(i) => match &c[i] {
                    TokenTree::Literal(text) => lookup_lit(lits, text.as_str()),
                    _ => None,
                },
                _ => None,
            };
            match v {
                Some(s) => { ident = Some(s); },
                None => { push_report(reports, "Expected a `&str`"); },
            }
        } else if str_eq(key.as_str(), "is_primary_key") {
            match l {
                Lit::Bool(b) => { pk = Some(b); },
                _ => { push_report(reports, "Expected a `bool`"); },
            }
        } else if str_eq(key.as_str(), "sqlx_cast_as_underscore") {
            match l {
                Lit::Bool(b) => { cast = Some(b); },
                _ => { push_report(reports, "Expected a `bool`"); },
            }
        } else {
            push_report(reports, "Unhandled key");
        }
        let ghost applied = apply_key(lit_values(lits@), c@, keys, key@, l);
        assert((opt_view(ident), pk, cast) == applied.0);
        assert(views(reports@) == with_report(rs, applied.1));
        q = q2 + 1;
    }
    if q < c.len() && pending.is_none() {
        *pending = Some(token_to_string(&c[q]));
    }
    match (ident, pk, cast) {
        (Some(i), Some(k), Some(s)) => Ok((Column { ident: i, is_primary_key: k, sqlx_cast_as_underscore: s }, p + 2)),
        _ => Err(QueryError { kind: QueryErrorKind::IncompleteColumn, found: String::new() }),
    }
}

/// The arguments of `prepare_columns_statement!`: the SQL format text, the
/// record's name and its columns.
#[derive(Debug)]
pub struct PrepareColumnsStatement {
    pub sql: String,
    pub name: String,
    pub columns: Vec<Column>,
}

/// Whether a prepared-statement read agrees with the specification's.
pub open spec fn prepare_is(r: (Result<PrepareColumnsStatement, QueryError>, Vec<String>),
    s: (Result<(Seq<char>, Seq<char>, Seq<ColumnV>), QErr>, Seq<Seq<char>>)) -> bool
{
    &&& views(r.1@) == s.1
    &&& match s.0 {
        Ok((sql, name, cols)) => r.0 matches Ok(st) && st.sql@ == sql && st.name@ == name
            && columns_view(st.columns@) == cols,
        Err(e) => r.0 matches Err(x) && qerr_view(x) == e,
    }
}

/// Appends the value `syn` reads for each literal token of `t` (not inside
/// its groups).
fn collect_lits(t: &Vec<TokenTree>, lits: &mut Vec<(String, Option<String>)>)
{
    let mut i: usize = 0;
    while i < t.len()
        decreases t.len() - i,
    {
        match &t[i] {
            TokenTree::Literal(text) => {
                let v = lit_str_value(text.as_str());
                lits.push((text.clone(), v));
            },
            _ => {},
        }
        i = i + 1;
    }
}

impl PrepareColumnsStatement {
    /// Reads the arguments of `prepare_columns_statement!` from its tokens,
    /// with `syn`'s value for each string literal (the macro reads string
    /// literals two groups deep at most): the statement or the error, and the
    /// reports given on the way, as `parse_with` gives them under those
    /// values.
    pub fn parse(t: &Vec<TokenTree>) -> (r: (Result<PrepareColumnsStatement, QueryError>, Vec<String>))
        ensures
            exists|vals: LitValues| #[trigger] prepare_is(r, prepare_p(vals, t@)),
    {
        let mut lits: Vec<(String, Option<String>)> = Vec::new();
        collect_lits(t, &mut lits);
        let mut i: usize = 0;
        while i < t.len()
            decreases t.len() - i,
        {
            match &t[i] {
                TokenTree::Group(g) => {
                    collect_lits(&g.stream, &mut lits);
                    let mut j: usize = 0;
                    while j < g.stream.len()
                        decreases g.stream.len() - j,
                    {
                        match &g.stream[j] {
                            TokenTree::Group(h) => { collect_lits(&h.stream, &mut lits); },
                            _ => {},
                        }
                        j = j + 1;
                    }
                },
                _ => {},
            }
            i = i + 1;
        }
        let r = PrepareColumnsStatement::parse_with(t, &lits);
        assert(prepare_is(r, prepare_p(lit_values(lits@), t@)));
        r
    }

    /// Reads the arguments of `prepare_columns_statement!`, where `lits`
    /// gives the value of each string literal by its token's text: the
    /// statement or the error, and the reports given on the way.
    pub fn parse_with(t: &Vec<TokenTree>, lits: &Vec<(String, Option<String>)>) -> (r: (Result<PrepareColumnsStatement, QueryError>, Vec<String>))
        ensures
            prepare_is(r, prepare_p(lit_values(lits@), t@)),
    {
        let mut reports: Vec<String> = Vec::new();
        assert(views(reports@) =~= Seq::<Seq<char>>::empty());
        let sql = match lit_str_at(lits, t, 0) {
            Some(s) => s,
            None => { return (Err(qerr(QueryErrorKind::ExpectedStringLiteral, t, 0)), reports); },
        };
        if !punct_at_e(t, 1, ',') {
            return (Err(qerr(QueryErrorKind::ExpectedPunct(','), t, 1)), reports);
        }
        if !any_ident_at_e(t, 2) {
            return (Err(qerr(QueryErrorKind::ExpectedIdent, t, 2)), reports);
        }
        let name = ident_string(t, 2);
        if !punct_at_e(t, 3, ',') {
            return (Err(qerr(QueryErrorKind::ExpectedPunct(','), t, 3)), reports);
        }
        if !ident_at_e(t, 4) {
            return (Err(qerr(QueryErrorKind::ExpectedIdent, t, 4)), reports);
        }
        let v = ident_string(t, 4);
        if !str_eq(v.as_str(), "vec") {
            return (Err(QueryError { kind: QueryErrorKind::ExpectedVec, found: v }), reports);
        }
        if !punct_at_e(t, 5, '!') {
            return (Err(qerr(QueryErrorKind::ExpectedPunct('!'), t, 5)), reports);
        }
        let c = if t.len() > 6 {
            match &t[6] {
                TokenTree::Group(g) => if g.delimiter == Delimiter::Bracket {
                    &g.stream
                } else {
                    return (Err(qerr(QueryErrorKind::ExpectedBrackets, t, 6)), reports);
                },
                _ => { return (Err(qerr(QueryErrorKind::ExpectedBrackets, t, 6)), reports); },
            }
        } else {
            return (Err(qerr(QueryErrorKind::ExpectedBrackets, t, 6)), reports);
        };
        assert(c@ == group_stream(t@[6]));
        let mut pending: Option<String> = None;
        let mut columns: Vec<Column> = Vec::new();
        let mut q: usize = 0;
        assert(columns_view(columns@) =~= Seq::<ColumnV>::empty());
        assert(prepare_p(lit_values(lits@), t@) == prepare_tail(t@, sql@, name@, columns_p(lit_values(lits@), c@, 0, Seq::empty(), Seq::empty(), None)));
        while ident_at_e(c, q)
            invariant
                q <= c.len(),
                prepare_p(lit_values(lits@), t@) == prepare_tail(t@, sql@, name@, columns_p(lit_values(lits@), c@, 0, Seq::empty(), Seq::empty(), None)),
                columns_p(lit_values(lits@), c@, 0, Seq::empty(), Seq::empty(), None)
                    == columns_p(lit_values(lits@), c@, q as int, columns_view(columns@), views(reports@), opt_view(pending)),
            decreases c.len() - q,
        {
            let ghost before = columns@;
            let (col, q2) = match parse_column(lits, c, q, &mut reports, &mut pending) {
                Ok(x) => x,
                Err(e) => {
                    return (Err(e), reports);
                },
            };
            columns.push(col);
            assert(columns_view(columns@) =~= columns_view(before).push(column_view(col)));
            q = q2;
        }
        if q < c.len() && pending.is_none() {
            pending = Some(token_to_string(&c[q]));
        }
        match pending {
            Some(x) => {
                return (Err(QueryError { kind: QueryErrorKind::UnexpectedToken, found: x }), reports);
            },
            None => {},
        }
        if t.len() > 7 {
            return (Err(qerr(QueryErrorKind::UnexpectedToken, t, 7)), reports);
        }
        (Ok(PrepareColumnsStatement { sql, name, columns }), reports)
    }

    /// What the prepared statement is expanded with: a numbered placeholder
    /// `$1`, `$2`, ... for each column, and the columns bound to the values
    /// (all but the primary key), each with whether it is bound `as _`.
    pub fn bindings(&self) -> (r: (Vec<String>, Vec<(String, bool)>))
        ensures
            views(r.0@) == crate::record::placeholders(self.columns@.len()),
            bound_view(r.1@) == bound_columns(columns_view(self.columns@)),
    {
        let numbers = crate::record::build_placeholders(self.columns.len());
        let mut bound: Vec<(String, bool)> = Vec::new();
        let mut i: usize = 0;
        while i < self.columns.len()
            invariant
                i <= self.columns.len(),
                bound_view(bound@) == bound_columns(columns_view(self.columns@).take(i as int)),
            decreases self.columns.len() - i,
        {
            assert(columns_view(self.columns@).take(i + 1).drop_last() == columns_view(self.columns@).take(i as int));
            let c = &self.columns[i];
            if !c.is_primary_key {
                let ghost before = bound@;
                let item = (c.ident.clone(), c.sqlx_cast_as_underscore);
                bound.push(item);
                assert(bound_view(bound@) =~= bound_view(before).push((item.0@, item.1)));
            }
            i = i + 1;
        }
        assert(columns_view(self.columns@).take(self.columns.len() as int) == columns_view(self.columns@));
        (numbers, bound)
    }
}

pub open spec fn bound_view(v: Seq<(String, bool)>) -> Seq<(Seq<char>, bool)> {
    Seq::new(v.len(), |i: int| (v[i].0@, v[i].1))
}

/// The columns bound to values: those that are not the primary key, with
/// whether each is bound `as _`.
pub open spec fn bound_columns(cols: Seq<ColumnV>) -> Seq<(Seq<char>, bool)>
    decreases cols.len(),
{
    if cols.len() == 0 {
        Seq::empty()
    } else {
        let prev = bound_columns(cols.drop_last());
        let c = cols.last();
        if c.1 { prev } else { prev.push((c.0, c.2)) }
    }
}

} // verus!
