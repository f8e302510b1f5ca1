use ahecha_macro::table::{create_queryable, ItemData, QueryField, Table, TypeKind};

fn f(name: &str, ty: TypeKind) -> QueryField {
    QueryField { name: name.to_string(), ty }
}

#[test]
fn table_names_are_plural_lowercase() {
    let (t, e) = Table::parse("User", true, &vec!["derive".to_string()]);
    assert_eq!(t.name, "users");
    assert!(t.fields.is_empty());
    assert!(e.is_none());
    let (t, _) = Table::parse("Person", true, &vec![]);
    assert_eq!(t.name, "people");
    let (_, e) = Table::parse("Kind", false, &vec![]);
    assert_eq!(e.unwrap(), "The `Table` derive can be used only on `structs`");
    assert!(Table::checked_parse("User", true, &vec!["Table".to_string()]).is_none());
}

#[test]
fn table_word_is_the_lowercased_name() {
    assert_eq!(Table::table_word("User"), "user");
    assert_eq!(Table::table_word("BlogPost"), "blogpost");
}

#[test]
fn table_from_its_plural() {
    let (t, e) = Table::from_plural("users".to_string(), true);
    assert_eq!(t.name, "users");
    assert!(t.fields.is_empty());
    assert!(e.is_none());
    let (t, e) = Table::from_plural("kinds".to_string(), false);
    assert_eq!(t.name, "kinds");
    assert_eq!(e.unwrap(), "The `Table` derive can be used only on `structs`");
}

#[test]
fn queryable_columns() {
    let item = ItemData::Struct(vec![
        f("id", TypeKind::Path("Uuid".to_string())),
        f("__hidden", TypeKind::Unsupported),
        f("name", TypeKind::Path("String".to_string())),
        f("tags", TypeKind::Path("Vec".to_string())),
        f("pair", TypeKind::Tuple),
        f("cb", TypeKind::Unsupported),
    ]);
    let q = create_queryable(&item);
    let cols: Vec<(&str, bool, bool)> = q
        .columns
        .iter()
        .map(|c| (c.name.as_str(), c.is_primary_key, c.sqlx_cast_as_underscore))
        .collect();
    assert_eq!(
        cols,
        vec![
            ("id", true, false),
            ("name", false, false),
            ("tags", false, true),
            ("pair", false, true),
            ("cb", false, true),
        ]
    );
    assert_eq!(q.errors, vec!["Unsuported type".to_string()]);
}

#[test]
fn queryable_refuses_enums_and_unions() {
    let q = create_queryable(&ItemData::Enum);
    assert!(q.columns.is_empty());
    assert_eq!(q.errors, vec!["Cannot implement over an enum, only struct is supported".to_string()]);
    let q = create_queryable(&ItemData::Union);
    assert_eq!(q.errors, vec!["Cannot implement over a union, only struct is supported".to_string()]);
}
