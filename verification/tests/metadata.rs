use ahecha_macro::metadata::{
    validate, DataTypes, StructFieldMetadata, StructMetadata, TableColumnMetadata, TableMetadata,
};

fn table_with_bool_field1() -> TableMetadata {
    TableMetadata {
        name: "test".to_owned(),
        columns: vec![TableColumnMetadata {
            name: "field1".to_owned(),
            ty: DataTypes::Bool,
            is_primary_key: false,
            is_indexed: false,
        }],
    }
}

#[test]
fn check_that_column_field_names_matches() {
    let table = TableMetadata {
        name: "test".to_owned(),
        columns: vec![TableColumnMetadata {
            name: "field1".to_owned(),
            ty: DataTypes::Bool,
            is_primary_key: false,
            is_indexed: false,
        }],
    };
    let record = StructMetadata {
        ident: "Test".to_owned(),
        fields: vec![StructFieldMetadata {
            ident: "field1".to_owned(),
            ty: DataTypes::Bool,
        }],
    };

    assert!(validate(table, record).is_ok());
}

#[test]
fn check_all_fields_must_be_present_in_the_table() {
    let table = TableMetadata {
        name: "test".to_owned(),
        columns: vec![TableColumnMetadata {
            name: "field1".to_owned(),
            ty: DataTypes::Bool,
            is_primary_key: false,
            is_indexed: false,
        }],
    };
    let record = StructMetadata {
        ident: "Test".to_owned(),
        fields: vec![
            StructFieldMetadata {
                ident: "field1".to_owned(),
                ty: DataTypes::Bool,
            },
            StructFieldMetadata {
                ident: "field2".to_owned(),
                ty: DataTypes::I16,
            },
        ],
    };

    assert!(validate(table, record).is_err());
}

#[test]
fn check_field_column_types_matches() {
    let table = TableMetadata {
        name: "test".to_owned(),
        columns: vec![TableColumnMetadata {
            name: "field1".to_owned(),
            ty: DataTypes::Bool,
            is_primary_key: false,
            is_indexed: false,
        }],
    };
    let record = StructMetadata {
        ident: "Test".to_owned(),
        fields: vec![StructFieldMetadata {
            ident: "field1".to_owned(),
            ty: DataTypes::I16,
        }],
    };

    assert!(validate(table, record).is_err());
}

#[test]
fn validate_reports_each_offending_field_in_order() {
    let record = StructMetadata {
        ident: "Test".to_owned(),
        fields: vec![
            StructFieldMetadata { ident: "field2".to_owned(), ty: DataTypes::I16 },
            StructFieldMetadata { ident: "field1".to_owned(), ty: DataTypes::I32 },
            StructFieldMetadata { ident: "field1".to_owned(), ty: DataTypes::Bool },
        ],
    };
    let errors = validate(table_with_bool_field1(), record).unwrap_err();
    assert_eq!(
        errors,
        vec![
            "The field `field2` from the struct `Test` isn't a column of the table `test`".to_string(),
            "The field `field1` from the struct `Test` type doesn't match the type from the `test` column"
                .to_string(),
        ]
    );
}

#[test]
fn validate_uses_the_first_column_of_a_name() {
    let table = TableMetadata {
        name: "t".to_owned(),
        columns: vec![
            TableColumnMetadata { name: "a".to_owned(), ty: DataTypes::I32, is_primary_key: true, is_indexed: true },
            TableColumnMetadata { name: "a".to_owned(), ty: DataTypes::Bool, is_primary_key: false, is_indexed: false },
        ],
    };
    let ok = StructMetadata {
        ident: "R".to_owned(),
        fields: vec![StructFieldMetadata { ident: "a".to_owned(), ty: DataTypes::I32 }],
    };
    assert!(validate(table, ok).is_ok());
    let table = TableMetadata {
        name: "t".to_owned(),
        columns: vec![
            TableColumnMetadata { name: "a".to_owned(), ty: DataTypes::I32, is_primary_key: true, is_indexed: true },
            TableColumnMetadata { name: "a".to_owned(), ty: DataTypes::Bool, is_primary_key: false, is_indexed: false },
        ],
    };
    let bad = StructMetadata {
        ident: "R".to_owned(),
        fields: vec![StructFieldMetadata { ident: "a".to_owned(), ty: DataTypes::Bool }],
    };
    assert!(validate(table, bad).is_err());
}

#[test]
fn validate_accepts_a_record_without_fields() {
    let record = StructMetadata { ident: "Empty".to_owned(), fields: vec![] };
    assert!(validate(table_with_bool_field1(), record).is_ok());
}

#[test]
fn data_types_from_rust_type_names() {
    assert_eq!(DataTypes::try_from("bool".to_string()), Ok(DataTypes::Bool));
    assert_eq!(DataTypes::try_from("Vec<u8>".to_string()), Ok(DataTypes::Bytes));
    assert_eq!(DataTypes::try_from("&[u8]".to_string()), Ok(DataTypes::Bytes));
    assert_eq!(DataTypes::try_from("&str".to_string()), Ok(DataTypes::String));
    assert_eq!(DataTypes::try_from("String".to_string()), Ok(DataTypes::String));
    assert_eq!(
        DataTypes::try_from("HashMap<String, Option<String>>".to_string()),
        Ok(DataTypes::HashMap)
    );
    assert_eq!(DataTypes::try_from("DateTime<Utc>".to_string()), Ok(DataTypes::TimestampWithTimeZone));
    assert_eq!(DataTypes::try_from("Uuid".to_string()), Ok(DataTypes::Uuid));
    assert_eq!(
        DataTypes::try_from("u8".to_string()),
        Err("Type u8 isn't supported at the moment".to_string())
    );
}

fn column(name: &str, ty: DataTypes) -> TableColumnMetadata {
    TableColumnMetadata { name: name.to_owned(), ty, is_primary_key: false, is_indexed: false }
}

fn record_with(fields: &[(&str, DataTypes)]) -> StructMetadata {
    StructMetadata {
        ident: "Test".to_owned(),
        fields: fields.iter().map(|(n, t)| StructFieldMetadata { ident: n.to_string(), ty: *t }).collect(),
    }
}

#[test]
fn unnamed_or_shadowed_columns_do_not_change_validation() {
    let fields = [("field1", DataTypes::Bool), ("field2", DataTypes::I32)];
    let mut table = table_with_bool_field1();
    let before = validate(table_with_bool_field1(), record_with(&fields)).unwrap_err();
    // A column that no field names.
    table.columns.push(column("other", DataTypes::String));
    assert_eq!(validate(table, record_with(&fields)).unwrap_err(), before);
    // A column shadowed by an earlier one of the same name, with another type.
    let mut table = table_with_bool_field1();
    table.columns.push(column("field1", DataTypes::I64));
    assert_eq!(validate(table, record_with(&fields)).unwrap_err(), before);
    // A column a field names, that was missing: the result changes.
    let mut table = table_with_bool_field1();
    table.columns.push(column("field2", DataTypes::I32));
    assert!(validate(table, record_with(&fields)).is_ok());
}
