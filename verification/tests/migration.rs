use ahecha_macro::migration::{Collation, ColumnOptions, DataType, MigrationChange, MigrationType, ToSql};

#[test]
fn integer_types_render_with_defaults() {
    assert_eq!(DataType::I16(Some(-3)).to_sql(), "SMALLINT DEFAULT -3");
    assert_eq!(DataType::I16(None).to_sql(), "SMALLINT");
    assert_eq!(DataType::I32(Some(42)).to_sql(), "INTEGER DEFAULT 42");
    assert_eq!(DataType::I64(Some(i64::MIN)).to_sql(), "BIGINT DEFAULT -9223372036854775808");
    assert_eq!(DataType::U16(Some(7)).to_sql(), "SMALLSERIAL DEFAULT 7");
    assert_eq!(DataType::U32(None).to_sql(), "SERIAL");
    assert_eq!(DataType::U64(Some(u64::MAX)).to_sql(), "BIGSERIAL DEFAULT 18446744073709551615");
}

#[test]
fn text_types_render() {
    assert_eq!(DataType::Varchar(255, None).to_sql(), "VARCHAR(255)");
    assert_eq!(DataType::Varchar(10, Some("'x'".to_string())).to_sql(), "VARCHAR(10) DEFAULT 'x'");
    assert_eq!(DataType::Char(2, Some("ab".to_string())).to_sql(), "CHAR(2) DEFAULT 'ab'");
    assert_eq!(DataType::Char(0, None).to_sql(), "CHAR(0)");
    assert_eq!(DataType::Text.to_sql(), "TEXT");
    assert_eq!(DataType::Enum("mood".to_string(), None).to_sql(), "mood");
    assert_eq!(
        DataType::Enum("mood".to_string(), Some("happy".to_string())).to_sql(),
        "\"mood\" DEFAULT E'happy'"
    );
    assert_eq!(DataType::Uuid(true).to_sql(), "UUID gen_random_uuid()");
    assert_eq!(DataType::Uuid(false).to_sql(), "UUID");
}

#[test]
fn time_and_boolean_types_render() {
    assert_eq!(DataType::Date.to_sql(), "DATE");
    assert_eq!(DataType::DateTime.to_sql(), "TIMESTAMP");
    assert_eq!(DataType::Time.to_sql(), "TIME");
    assert_eq!(DataType::Timestamp(true, false).to_sql(), "TIMESTAMP WITH TIME ZONE DEFAULT CURRENT_TIMESTAMP");
    assert_eq!(DataType::Timestamp(false, false).to_sql(), "TIMESTAMP WITH TIME ZONE");
    assert_eq!(DataType::Boolean(Some(false)).to_sql(), "BOOLEAN DEFAULT false");
    assert_eq!(DataType::Boolean(None).to_sql(), "BOOLEAN");
}

#[test]
fn data_types_from_optional_defaults() {
    assert_eq!(DataType::from(Some(5i32)).to_sql(), "INTEGER DEFAULT 5");
    assert_eq!(DataType::from(Some(true)).to_sql(), "BOOLEAN DEFAULT true");
    assert!(matches!(DataType::from(Some(3u8)), DataType::U8(Some(3))));
    assert!(matches!(DataType::from(None::<i128>), DataType::I128(None)));
    assert!(matches!(DataType::from(Some(1usize)), DataType::Usize(Some(1))));
}

#[test]
fn default_column_options() {
    let o = ColumnOptions::default();
    assert!(o.nullable);
    assert!(o.visible);
    assert!(o.comment.is_none());
    assert_eq!(o.collation, Collation::Utf8);
    assert!(!o.primary_key);
    assert!(!o.unique);
}

#[test]
fn builders_append_columns_in_order() {
    let mut m = MigrationChange::create_table("users");
    assert_eq!(m.migration_type, MigrationType::CreateTable);
    assert_eq!(m.table_name, "users");
    m.uuid("id", true, ColumnOptions::default());
    m.varchar("name", None, 100, ColumnOptions::default());
    m.char("code", 2, Some("xx".to_string()), ColumnOptions::default());
    m.text("bio", ColumnOptions::default());
    m.enum_("mood", "mood", Some("happy".to_string()), ColumnOptions::default());
    m.date("born", ColumnOptions::default());
    m.datetime("seen", ColumnOptions::default());
    m.time("alarm", ColumnOptions::default());
    m.timestamp("deleted_at", false, false, ColumnOptions::default());
    let names: Vec<&str> = m.columns.iter().map(|c| c.name.as_str()).collect();
    assert_eq!(names, vec!["id", "name", "code", "bio", "mood", "born", "seen", "alarm", "deleted_at"]);
    assert_eq!(m.columns[1].data_type.to_sql(), "VARCHAR(100)");
    assert_eq!(m.columns[4].data_type.to_sql(), "\"mood\" DEFAULT E'happy'");
}

#[test]
fn timestamps_adds_created_and_updated_at() {
    let mut m = MigrationChange::change_table("posts");
    assert_eq!(m.migration_type, MigrationType::ChangeTable);
    m.timestamps();
    assert_eq!(m.columns.len(), 2);
    assert_eq!(m.columns[0].name, "created_at");
    assert!(matches!(m.columns[0].data_type, DataType::Timestamp(true, false)));
    assert_eq!(m.columns[0].data_type.to_sql(), "TIMESTAMP WITH TIME ZONE DEFAULT CURRENT_TIMESTAMP");
    assert_eq!(m.columns[1].name, "updated_at");
    assert!(matches!(m.columns[1].data_type, DataType::Timestamp(true, true)));
    assert!(m.columns[1].options.nullable);
    for c in &m.columns {
        let o = &c.options;
        assert!(o.nullable && o.visible && o.comment.is_none());
        assert!(!o.primary_key && !o.unique);
    }
}
