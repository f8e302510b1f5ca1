//! The statement grammar checked against the offline database description:
//! the statement keyword and the record a `SELECT` reads.

use vstd::prelude::*;
use crate::text::{uppercase, unicode_upper_first, to_uppercase, upper_first, str_eq};
use crate::tokens::TokenTree;
use crate::html::{ident_at, ident_name, ident_at_e};

verus! {

/// Whether a `SELECT` reads all rows or distinct ones.
#[derive(Clone, Copy, PartialEq, Eq, Structural, Debug)]
pub enum SelectType {
    All,
    Distinct,
}

impl Default for SelectType {
    /// Reads all rows.
    fn default() -> (r: Self)
        ensures
            r == SelectType::All,
    {
        SelectType::All
    }
}

/// The record a statement reads.
#[derive(Debug)]
pub struct TableIdent {
    pub ident: String,
}

/// A condition of a `WHERE` clause: `a = b`.
#[derive(Debug)]
pub enum ConditionStatement {
    Eq(String, String),
}

/// A `WHERE` clause.
#[derive(Debug)]
pub enum WhereStatement {
    Condition(ConditionStatement),
}

/// A `DELETE` statement (not read yet).
#[derive(Debug)]
pub struct DeleteStatement;

/// An `INSERT` statement (not read yet).
#[derive(Debug)]
pub struct InsertStatement;

/// An `UPDATE` statement (not read yet).
#[derive(Debug)]
pub struct UpdateStatement;

/// `SELECT Record`.
#[derive(Debug)]
pub struct SelectStatement {
    pub select_type: SelectType,
    pub table_ident: TableIdent,
}

/// A statement (only `SELECT` is read so far).
#[derive(Debug)]
pub enum Ast {
    Select(SelectStatement),
}

/// Why a statement failed to read.
#[derive(Clone, Copy, PartialEq, Eq, Structural, Debug)]
pub enum AstErrorKind {
    /// An identifier (not a keyword) was expected.
    ExpectedIdent,
    /// The keyword is none of `DELETE`, `INSERT`, `SELECT`, `UPDATE`.
    UnknownStatement,
    /// The record's name does not start with a capital.
    ExpectedStruct,
}

/// A failed read: why, and the identifier it stopped at (if any).
#[derive(Debug)]
pub struct AstError {
    pub kind: AstErrorKind,
    pub found: String,
}

/// The message an error is reported with.
pub open spec fn ast_error_message(kind: AstErrorKind, found: Seq<char>) -> Seq<char> {
    match kind {
        AstErrorKind::ExpectedIdent => "expected identifier"@,
        AstErrorKind::UnknownStatement => "Expected DELETE, INSERT, SELECT or UPDATE token, but found `"@ + found + "`"@,
        AstErrorKind::ExpectedStruct => "Expected a struct type"@,
    }
}

impl AstError {
    /// The message this error is reported with.
    pub fn message(&self) -> (r: String)
        ensures
            r@ == ast_error_message(self.kind, self.found@),
    {
        match self.kind {
            AstErrorKind::ExpectedIdent => String::from_str("expected identifier"),
            AstErrorKind::UnknownStatement => {
                let mut s = String::from_str("Expected DELETE, INSERT, SELECT or UPDATE token, but found `");
                s.append(self.found.as_str());
                s.append("`");
                s
            },
            AstErrorKind::ExpectedStruct => String::from_str("Expected a struct type"),
        }
    }
}

/// Whether a name starts with a character that its uppercase mapping keeps.
pub open spec fn starts_capitalised(s: Seq<char>) -> bool {
    s.len() > 0 && s[0] == unicode_upper_first(s[0])
}

/// What the record of a `SELECT` at position `p` reads as.
pub open spec fn select_of(t: Seq<TokenTree>, p: int) -> Result<Seq<char>, (AstErrorKind, Seq<char>)> {
    if !ident_at(t, p) {
        Err((AstErrorKind::ExpectedIdent, Seq::empty()))
    } else if !starts_capitalised(ident_name(t, p)) {
        Err((AstErrorKind::ExpectedStruct, ident_name(t, p)))
    } else {
        Ok(ident_name(t, p))
    }
}

/// The statement keyword, in upper case, if the input starts with an
/// identifier.
pub open spec fn ast_keyword(t: Seq<TokenTree>) -> Option<Seq<char>> {
    if ident_at(t, 0) { Some(uppercase(ident_name(t, 0))) } else { None }
}

/// Whether the statement is of a kind not read yet (`DELETE`, `INSERT` or
/// `UPDATE`); reading stops on those.
pub open spec fn unread_ast(t: Seq<TokenTree>) -> bool {
    ast_keyword(t) matches Some(k) && (k == "DELETE"@ || k == "INSERT"@ || k == "UPDATE"@)
}

/// What a statement reads as: the record of a `SELECT`, or an error.
pub open spec fn ast_of(t: Seq<TokenTree>) -> Result<Seq<char>, (AstErrorKind, Seq<char>)> {
    if !ident_at(t, 0) {
        Err((AstErrorKind::ExpectedIdent, Seq::empty()))
    } else if ast_keyword(t) != Some("SELECT"@) {
        Err((AstErrorKind::UnknownStatement, ident_name(t, 0)))
    } else {
        select_of(t, 1)
    }
}

pub open spec fn ast_err_view(e: AstError) -> (AstErrorKind, Seq<char>) {
    (e.kind, e.found@)
}

fn name_at(t: &Vec<TokenTree>, p: usize) -> (r: String)
    requires
        ident_at(t@, p as int),
    ensures
        r@ == ident_name(t@, p as int),
{
    match &t[p] {
        TokenTree::Ident(s) => s.clone(),
        _ => String::new(),
    }
}

impl SelectStatement {
    /// Reads the record of a `SELECT` at position `p`: a name that starts
    /// with a character its uppercase mapping keeps.
    pub fn parse(t: &Vec<TokenTree>, p: usize) -> (r: Result<SelectStatement, AstError>)
        ensures
            match select_of(t@, p as int) {
                Ok(name) => r matches Ok(s) && s.table_ident.ident@ == name && s.select_type == SelectType::All,
                Err(e) => r matches Err(x) && ast_err_view(x) == e,
            },
    {
        if !ident_at_e(t, p) {
            return Err(AstError { kind: AstErrorKind::ExpectedIdent, found: String::new() });
        }
        let name = name_at(t, p);
        let cs = crate::text::chars_of(name.as_str());
        if cs.len() == 0 || cs[0] != upper_first(cs[0]) {
            return Err(AstError { kind: AstErrorKind::ExpectedStruct, found: name });
        }
        Ok(SelectStatement { select_type: SelectType::All, table_ident: TableIdent { ident: name } })
    }
}

impl Ast {
    /// Reads a statement. It must not be of a kind not read yet.
    pub fn parse(t: &Vec<TokenTree>) -> (r: Result<Ast, AstError>)
        requires
            !unread_ast(t@),
        ensures
            match ast_of(t@) {
                Ok(name) => r matches Ok(Ast::Select(s)) && s.table_ident.ident@ == name && s.select_type == SelectType::All,
                Err(e) => r matches Err(x) && ast_err_view(x) == e,
            },
    {
        if !ident_at_e(t, 0) {
            return Err(AstError { kind: AstErrorKind::ExpectedIdent, found: String::new() });
        }
        let name = name_at(t, 0);
        let upper = to_uppercase(name.as_str());
        if str_eq(upper.as_str(), "SELECT") {
            match SelectStatement::parse(t, 1) {
                Ok(s) => Ok(Ast::Select(s)),
                Err(e) => Err(e),
            }
        } else {
            Err(AstError { kind: AstErrorKind::UnknownStatement, found: name })
        }
    }

    /// Reads a statement as `parse` does, or `None` where it is of a kind not
    /// read yet.
    pub fn checked_parse(t: &Vec<TokenTree>) -> (r: Option<Result<Ast, AstError>>)
        ensures
            r is None <==> unread_ast(t@),
            r matches Some(res) ==> match ast_of(t@) {
                Ok(name) => res matches Ok(Ast::Select(s)) && s.table_ident.ident@ == name && s.select_type == SelectType::All,
                Err(e) => res matches Err(x) && ast_err_view(x) == e,
            },
    {
        if ident_at_e(t, 0) {
            let name = name_at(t, 0);
            let upper = to_uppercase(name.as_str());
            if str_eq(upper.as_str(), "DELETE") || str_eq(upper.as_str(), "INSERT") || str_eq(upper.as_str(), "UPDATE") {
                return None;
            }
        }
        Some(Ast::parse(t))
    }
}

} // verus!
