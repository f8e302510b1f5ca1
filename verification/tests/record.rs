use ahecha_macro::record::{
    delete_plan, delete_query, get_type_for_column, insert_plan, insert_query, parse_attr_args,
    record_attribute, update_plan, update_string, where_parts, Action, AttrArgs, BoundArg, Column,
    ColumnRustType, ErrorKind, RustType, TableConfig, TableRecord,
};
use ahecha_macro::tokens::{Delimiter, Group, TokenTree};

fn ident(s: &str) -> TokenTree {
    TokenTree::Ident(s.to_string())
}

fn punct(c: char) -> TokenTree {
    TokenTree::Punct(c)
}

fn lit(s: &str) -> TokenTree {
    TokenTree::Literal(s.to_string())
}

fn paren(stream: Vec<TokenTree>, text: &str) -> TokenTree {
    TokenTree::Group(Group { delimiter: Delimiter::Parenthesis, stream, text: text.to_string() })
}

fn test_record() -> TableRecord {
    TableRecord {
        actions: vec![],
        config: TableConfig {
            columns: vec![
                Column { name: "id".to_string(), ty: "uuid".to_string(), is_nullable: false },
                Column { name: "name".to_string(), ty: "varchar".to_string(), is_nullable: false },
                Column { name: "age".to_string(), ty: "int4".to_string(), is_nullable: true },
                Column { name: "tenant_id".to_string(), ty: "varchar".to_string(), is_nullable: false },
            ],
            primary_keys: vec!["id".to_string()],
            constraints: vec!["tenant_id".to_string()],
        },
        fields: vec!["name".to_string(), "age".to_string()],
        ident: "TestRecord".to_string(),
        returning: vec!["id".to_string()],
        table_name: "users".to_owned(),
    }
}

#[test]
fn test_simple_delete_string_query() {
    let query = delete_query(&test_record()).unwrap();
    assert_eq!("DELETE FROM users WHERE id = $1 AND tenant_id = $2", query);
}

#[test]
fn test_simple_insert_string_query() {
    let query = insert_query(&test_record());
    assert_eq!("INSERT INTO users (name, age, tenant_id) VALUES ($1, $2, $3)", query);
}

#[test]
fn test_simple_update_string_query() {
    let query = update_string(&test_record()).unwrap();
    assert_eq!("UPDATE users SET name = $1, age = $2 WHERE id = $3 AND tenant_id = $4", query);
}

#[test]
fn delete_without_scope_columns_has_an_empty_where() {
    let mut record = test_record();
    record.config.primary_keys = vec![];
    record.config.constraints = vec![];
    assert_eq!("DELETE FROM users ", delete_query(&record).unwrap());
    let parts = where_parts(&record, "delete", 0).unwrap();
    assert_eq!(parts.fn_name, "delete");
    assert_eq!(parts.query, "");
}

#[test]
fn where_parts_names_the_scoped_function() {
    let parts = where_parts(&test_record(), "update", 2).unwrap();
    assert_eq!(parts.query, "WHERE id = $3 AND tenant_id = $4");
    assert_eq!(parts.fn_name, "update_where_id_and_tenant_id");
    assert_eq!(parts.args, vec!["id".to_string(), "tenant_id".to_string()]);
    assert_eq!(parts.fn_args.len(), 2);
    assert_eq!(parts.fn_args[0].name, "id");
    assert_eq!(parts.fn_args[0].ty, ColumnRustType { base: RustType::Uuid, optional: false });
    assert_eq!(parts.fn_args[1].ty, ColumnRustType { base: RustType::Str, optional: false });
}

#[test]
fn scope_column_missing_from_the_table_is_an_error() {
    let mut record = test_record();
    record.config.constraints = vec!["org_id".to_string()];
    let e = delete_query(&record).unwrap_err();
    assert_eq!(e.kind, ErrorKind::MissingColumn);
    assert_eq!(e.subject, "org_id");
    let e = update_string(&record).unwrap_err();
    assert_eq!(e.kind, ErrorKind::MissingColumn);
}

#[test]
fn column_types_map_to_rust_types() {
    let c = Column { name: "age".to_string(), ty: "int4".to_string(), is_nullable: true };
    assert_eq!(get_type_for_column(&c).unwrap(), ColumnRustType { base: RustType::I32, optional: true });
    let c = Column { name: "v".to_string(), ty: "varchar".to_string(), is_nullable: false };
    assert_eq!(get_type_for_column(&c).unwrap(), ColumnRustType { base: RustType::Str, optional: false });
    let c = Column { name: "t".to_string(), ty: "text".to_string(), is_nullable: false };
    let e = get_type_for_column(&c).unwrap_err();
    assert_eq!(e.kind, ErrorKind::UnmappedType);
    assert_eq!(e.subject, "text");
}

#[test]
fn attribute_arguments_are_read() {
    let toks = vec![
        ident("insertable"),
        punct(','),
        ident("deletable"),
        punct(','),
        ident("table"),
        punct('='),
        lit("\"users\""),
        punct(','),
        ident("returning"),
        paren(vec![ident("id")], "(id)"),
    ];
    let args = parse_attr_args(&toks).unwrap();
    assert_eq!(args.table_name, Some("users".to_string()));
    assert_eq!(args.actions, vec![Action::Insert, Action::Delete]);
    assert_eq!(args.returning, vec!["id".to_string()]);
}

#[test]
fn attribute_argument_errors() {
    let e = parse_attr_args(&vec![ident("table"), punct(':'), lit("\"x\"")]).unwrap_err();
    assert_eq!(e.kind, ErrorKind::ExpectedTableAssignment);
    assert_eq!(e.subject, ":");
    let e = parse_attr_args(&vec![ident("table"), punct('=')]).unwrap_err();
    assert_eq!(e.kind, ErrorKind::MissingTableName);
    let e = parse_attr_args(&vec![ident("table")]).unwrap_err();
    assert_eq!(e.kind, ErrorKind::MissingTableName);
    let e = parse_attr_args(&vec![ident("table"), punct('='), ident("users")]).unwrap_err();
    assert_eq!(e.kind, ErrorKind::ExpectedTableName);
    let e = parse_attr_args(&vec![ident("selectable")]).unwrap_err();
    assert_eq!(e.kind, ErrorKind::UnsupportedIdent);
    assert_eq!(e.subject, "selectable");
    let e = parse_attr_args(&vec![lit("1")]).unwrap_err();
    assert_eq!(e.kind, ErrorKind::UnsupportedLiteral);
    let e = parse_attr_args(&vec![paren(vec![], "()")]).unwrap_err();
    assert_eq!(e.kind, ErrorKind::UnsupportedGroup);
    let e = parse_attr_args(&vec![ident("returning")]).unwrap_err();
    assert_eq!(e.kind, ErrorKind::MissingReturningList);
    let e = parse_attr_args(&vec![ident("returning"), ident("id")]).unwrap_err();
    assert_eq!(e.kind, ErrorKind::ExpectedReturningList);
    // A comma inside the list is read as an item, and items must be identifiers.
    let e = parse_attr_args(&vec![ident("returning"), paren(vec![ident("id"), punct(','), ident("name")], "(id , name)")])
        .unwrap_err();
    assert_eq!(e.kind, ErrorKind::ExpectedIdent);
    assert_eq!(e.subject, ",");
    // After a returned field the next argument must be a comma.
    let e = parse_attr_args(&vec![ident("returning"), paren(vec![ident("id")], "(id)"), ident("insertable")])
        .unwrap_err();
    assert_eq!(e.kind, ErrorKind::ExpectedComma);
}

#[test]
fn record_attribute_requires_a_named_table() {
    let e = record_attribute(None).unwrap_err();
    assert_eq!(e.kind, ErrorKind::MissingAttribute);
    let e = record_attribute(Some(&vec![])).unwrap_err();
    assert_eq!(e.kind, ErrorKind::EmptyAttribute);
    let e = record_attribute(Some(&vec![paren(vec![ident("insertable")], "(insertable)")])).unwrap_err();
    assert_eq!(e.kind, ErrorKind::MissingTableArgument);
    let e = record_attribute(Some(&vec![ident("x"), ident("y")])).unwrap_err();
    assert_eq!(e.kind, ErrorKind::ExtraAttributeTokens);
    let e = record_attribute(Some(&vec![ident("x")])).unwrap_err();
    assert_eq!(e.kind, ErrorKind::ExpectedAttributeGroup);
    let ok = record_attribute(Some(&vec![paren(
        vec![ident("table"), punct('='), lit("\"users\"")],
        "(table = \"users\")",
    )]))
    .unwrap();
    assert_eq!(ok.table_name, Some("users".to_string()));
}

#[test]
fn a_record_needs_its_table_in_the_configuration() {
    let args = AttrArgs { table_name: Some("users".to_string()), actions: vec![Action::Update], returning: vec![] };
    let e = TableRecord::new("User".to_string(), vec!["name".to_string()], args, None).unwrap_err();
    assert_eq!(e.kind, ErrorKind::UnknownTable);
    assert_eq!(e.subject, "users");
    let args = AttrArgs { table_name: Some("users".to_string()), actions: vec![Action::Update], returning: vec![] };
    let config = test_record().config;
    let r = TableRecord::new("User".to_string(), vec!["name".to_string()], args, Some(config)).unwrap();
    assert_eq!(r.table_name, "users");
    assert_eq!(r.mod_ident(), "AhechaRecordUser");
}

#[test]
fn statement_plans_follow_the_actions() {
    let mut record = test_record();
    assert!(delete_plan(&record).unwrap().is_none());
    assert!(insert_plan(&record).unwrap().is_none());
    assert!(update_plan(&record).unwrap().is_none());
    record.actions = vec![Action::Delete, Action::Insert, Action::Update];
    let d = delete_plan(&record).unwrap().unwrap();
    assert_eq!(d.fn_name, "delete_where_id_and_tenant_id");
    assert_eq!(d.query, "DELETE FROM users WHERE id = $1 AND tenant_id = $2");
    assert!(!d.returns_record);
    let i = insert_plan(&record).unwrap().unwrap();
    assert_eq!(i.fn_name, "insert_for_tenant_id");
    assert_eq!(i.query, "INSERT INTO users (name, age, tenant_id) VALUES ($1, $2, $3) RETURNING id");
    assert!(i.returns_record);
    assert_eq!(i.args.len(), 3);
    assert!(matches!(&i.args[0], BoundArg::SelfRef(n) if n == "name"));
    let u = update_plan(&record).unwrap().unwrap();
    assert_eq!(u.fn_name, "update_where_id_and_tenant_id");
    assert_eq!(
        u.query,
        "UPDATE users SET name = $1, age = $2 WHERE id = $3 AND tenant_id = $4 RETURNING id"
    );
}

#[test]
fn returned_columns_take_their_column_types() {
    let mut record = test_record();
    record.returning = vec!["age".to_string()];
    let args = record.mod_record().unwrap();
    assert_eq!(args.len(), 1);
    assert_eq!(args[0].name, "age");
    assert_eq!(args[0].ty, ColumnRustType { base: RustType::I32, optional: true });
    record.returning = vec!["missing".to_string()];
    assert_eq!(record.mod_record().unwrap_err().kind, ErrorKind::MissingColumn);
}

#[test]
fn record_errors_have_messages() {
    let args = AttrArgs { table_name: None, actions: vec![], returning: vec![] };
    let e = TableRecord::new("User".to_string(), vec![], args, None).unwrap_err();
    assert_eq!(e.kind, ErrorKind::MissingTableArgument);
    assert_eq!(e.message("users"), "the #[record(table = \"table_name\")] is missing");
    let mut record = test_record();
    record.config.constraints = vec!["org_id".to_string()];
    let e = delete_query(&record).unwrap_err();
    assert_eq!(
        e.message("users"),
        "There is no column with name `org_id` found in `users` in the records.json, check it or run `ahecha` cli again"
    );
    let e = parse_attr_args(&vec![ident("table"), punct(':')]).unwrap_err();
    assert_eq!(e.message(""), "Expected table name assigment, but found :. Example: #[record(table=\"user\")");
}
