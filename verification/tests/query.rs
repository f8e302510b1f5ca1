use ahecha_macro::backend::{Ast, AstErrorKind, SelectStatement, SelectType};
use ahecha_macro::query::{PrepareColumnsStatement, QueryErrorKind, Statement};
use ahecha_macro::tokens::{Delimiter, Group, TokenTree};

fn ident(s: &str) -> TokenTree {
    TokenTree::Ident(s.to_string())
}

fn punct(c: char) -> TokenTree {
    TokenTree::Punct(c)
}

fn lit(s: &str) -> TokenTree {
    TokenTree::Literal(s.to_string())
}

fn group(delimiter: Delimiter, stream: Vec<TokenTree>) -> TokenTree {
    let text = format!("{:?}", delimiter);
    TokenTree::Group(Group { delimiter, stream, text })
}

fn column(ident_value: &str, pk: &str, cast: &str) -> Vec<TokenTree> {
    vec![
        ident("TableColumn"),
        group(
            Delimiter::Brace,
            vec![
                ident("ident"), punct(':'), lit(ident_value), punct(','),
                ident("is_primary_key"), punct(':'), ident(pk), punct(','),
                ident("sqlx_cast_as_underscore"), punct(':'), ident(cast), punct(','),
            ],
        ),
    ]
}

fn prepare(columns: Vec<TokenTree>) -> Vec<TokenTree> {
    vec![
        lit("\"INSERT INTO {} ({}) VALUES ($) RETURNING id\""),
        punct(','),
        ident("User"),
        punct(','),
        ident("vec"),
        punct('!'),
        group(Delimiter::Bracket, columns),
    ]
}

#[test]
fn insert_statement_is_read() {
    let t = vec![ident("INSERT"), ident("post"), ident("into"), ident("Post")];
    match Statement::parse(&t) {
        Ok(Statement::Insert(s)) => {
            assert_eq!(s.data, "post");
            assert_eq!(s.table, "Post");
        }
        Err(_) => panic!("expected an insert"),
    }
}

#[test]
fn statement_errors() {
    let e = Statement::parse(&vec![ident("upsert")]).err().unwrap();
    assert_eq!(e.kind, QueryErrorKind::UnknownStatement);
    assert_eq!(e.message(), "Expected DELETE, INSERT, SELECT or UPDATE keyword but found upsert");
    let e = Statement::parse(&vec![ident("insert"), ident("post"), ident("in"), ident("Post")]).err().unwrap();
    assert_eq!(e.kind, QueryErrorKind::ExpectedInto);
    assert_eq!(e.message(), "Expected token INTO, but found in");
    let e = Statement::parse(&vec![ident("insert"), ident("post"), ident("INTO")]).err().unwrap();
    assert_eq!(e.kind, QueryErrorKind::ExpectedIdent);
    let e = Statement::parse(&vec![ident("insert"), ident("a"), ident("into"), ident("b"), punct(';')]).err().unwrap();
    assert_eq!(e.kind, QueryErrorKind::UnexpectedToken);
    let e = Statement::parse(&vec![lit("1")]).err().unwrap();
    assert_eq!(e.kind, QueryErrorKind::ExpectedIdent);
    assert_eq!(e.message(), "expected identifier");
    assert!(Statement::checked_parse(&vec![ident("select"), ident("User")]).is_none());
    assert!(Statement::checked_parse(&vec![ident("Delete")]).is_none());
}

#[test]
fn prepared_columns_are_read() {
    let mut cols = column("\"id\"", "true", "false");
    cols.extend(column("\"name\"", "false", "false"));
    cols.extend(column("\"kind\"", "false", "true"));
    let (r, reports) = PrepareColumnsStatement::parse(&prepare(cols));
    assert!(reports.is_empty());
    let st = r.ok().unwrap();
    assert_eq!(st.sql, "INSERT INTO {} ({}) VALUES ($) RETURNING id");
    assert_eq!(st.name, "User");
    assert_eq!(st.columns.len(), 3);
    assert_eq!(st.columns[2].ident, "kind");
    assert!(st.columns[0].is_primary_key);
    let (numbers, bound) = st.bindings();
    assert_eq!(numbers, vec!["$1".to_string(), "$2".to_string(), "$3".to_string()]);
    assert_eq!(bound, vec![("name".to_string(), false), ("kind".to_string(), true)]);
}

#[test]
fn prepared_column_reports_and_errors() {
    // A wrong kind of value is reported, and the column then lacks a key.
    let cols = column("\"id\"", "true", "false");
    let mut cols2 = cols.clone_tokens();
    cols2[1] = group(
        Delimiter::Brace,
        vec![
            ident("ident"), punct(':'), ident("true"), punct(','),
            ident("other"), punct(':'), lit("1"), punct(','),
        ],
    );
    let (r, reports) = PrepareColumnsStatement::parse(&prepare(cols2));
    assert_eq!(reports, vec!["Expected a `&str`".to_string(), "Unhandled key".to_string()]);
    let e = r.err().unwrap();
    assert_eq!(e.kind, QueryErrorKind::IncompleteColumn);
    assert_eq!(e.message(), "Couldn't parse the TableColumn struct");

    let mut t = prepare(vec![]);
    t[4] = ident("Vec");
    let e = PrepareColumnsStatement::parse(&t).0.err().unwrap();
    assert_eq!(e.message(), "Expected token `vec` but found Vec");

    let mut t = prepare(vec![ident("Column"), group(Delimiter::Brace, vec![])]);
    t.truncate(7);
    let e = PrepareColumnsStatement::parse(&t).0.err().unwrap();
    assert_eq!(e.message(), "Expected token `TableColumn`, but found Column");

    let t = prepare(vec![lit("1")]);
    let e = PrepareColumnsStatement::parse(&t).0.err().unwrap();
    assert_eq!(e.kind, QueryErrorKind::UnexpectedToken);
    assert_eq!(e.found, "1");

    let mut t = prepare(vec![]);
    t[0] = ident("sql");
    let e = PrepareColumnsStatement::parse(&t).0.err().unwrap();
    assert_eq!(e.kind, QueryErrorKind::ExpectedStringLiteral);
}

trait CloneTokens {
    fn clone_tokens(&self) -> Vec<TokenTree>;
}

impl CloneTokens for Vec<TokenTree> {
    fn clone_tokens(&self) -> Vec<TokenTree> {
        self.iter()
            .map(|t| match t {
                TokenTree::Ident(s) => TokenTree::Ident(s.clone()),
                TokenTree::Punct(c) => TokenTree::Punct(*c),
                TokenTree::Literal(s) => TokenTree::Literal(s.clone()),
                TokenTree::Group(g) => TokenTree::Group(Group {
                    delimiter: g.delimiter,
                    stream: g.stream.clone_tokens(),
                    text: g.text.clone(),
                }),
            })
            .collect()
    }
}

#[test]
fn select_statements_name_a_record() {
    match Ast::parse(&vec![ident("select"), ident("User")]) {
        Ok(Ast::Select(s)) => {
            assert_eq!(s.table_ident.ident, "User");
            assert_eq!(s.select_type, SelectType::All);
        }
        Err(_) => panic!("expected a select"),
    }
    let e = Ast::parse(&vec![ident("Select"), ident("user")]).err().unwrap();
    assert_eq!(e.kind, AstErrorKind::ExpectedStruct);
    assert_eq!(e.message(), "Expected a struct type");
    let e = Ast::parse(&vec![ident("merge")]).err().unwrap();
    assert_eq!(e.message(), "Expected DELETE, INSERT, SELECT or UPDATE token, but found `merge`");
    assert!(Ast::checked_parse(&vec![ident("insert"), ident("User")]).is_none());
    assert!(SelectStatement::parse(&vec![ident("user")], 0).is_err());
    assert!(SelectStatement::parse(&vec![ident("User")], 0).is_ok());
    assert_eq!(SelectType::default(), SelectType::All);
}

#[test]
fn prepared_columns_read_with_given_literal_values() {
    let cols = column("\"id\"", "false", "false");
    let lits = vec![
        ("\"INSERT INTO {} ({}) VALUES ($) RETURNING id\"".to_string(), Some("INSERT {}".to_string())),
        ("\"id\"".to_string(), Some("ident".to_string())),
    ];
    let (r, reports) = PrepareColumnsStatement::parse_with(&prepare(cols.clone_tokens()), &lits);
    assert!(reports.is_empty());
    let st = r.ok().unwrap();
    assert_eq!(st.sql, "INSERT {}");
    assert_eq!(st.columns[0].ident, "ident");
    // A literal with no value given is no string literal.
    let (r, _) = PrepareColumnsStatement::parse_with(&prepare(cols.clone_tokens()), &vec![]);
    assert_eq!(r.err().unwrap().kind, QueryErrorKind::ExpectedStringLiteral);
    let lits = vec![("\"INSERT INTO {} ({}) VALUES ($) RETURNING id\"".to_string(), Some("sql".to_string()))];
    let (r, reports) = PrepareColumnsStatement::parse_with(&prepare(cols), &lits);
    assert_eq!(reports, vec!["Expected a `&str`".to_string()]);
    assert_eq!(r.err().unwrap().kind, QueryErrorKind::IncompleteColumn);
}
