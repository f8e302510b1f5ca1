use ahecha_macro::config::{Field, RecordConfig, Relation, TableConfig};
use ahecha_macro::statement::{
    InsertConstraint, InsertFieldsValues, InsertStatement, UpdateFieldsSet, UpdateStatement, WhereConstraint,
};

fn field(name: &str, ty: &str) -> Field {
    Field { name: name.to_string(), ty: ty.to_string() }
}

fn users() -> TableConfig {
    TableConfig {
        primary_key: vec![field("id", "uuid")],
        columns: vec![field("id", "uuid"), field("name", "varchar")],
        relations: vec![Relation {
            table_name: "posts".to_string(),
            foreing_key: vec![("author_id".to_string(), field("id", "uuid"))],
        }],
        constraints: vec![],
    }
}

#[test]
fn a_table_reads_back_as_it_was_set() {
    let mut config = RecordConfig::new();
    assert!(config.table("users").is_none());
    config.insert("users".to_string(), users());
    let t = config.table("users").unwrap();
    assert_eq!(t.primary_key.len(), 1);
    assert_eq!(t.primary_key[0].name, "id");
    assert_eq!(t.columns[1].name, "name");
    assert_eq!(t.columns[1].ty, "varchar");
    assert_eq!(t.relations[0].table_name, "posts");
    assert_eq!(t.relations[0].foreing_key[0].0, "author_id");
    assert!(config.table("posts").is_none());
}

#[test]
fn setting_a_table_again_replaces_it() {
    let mut config = RecordConfig::new();
    config.insert("users".to_string(), users());
    config.insert("posts".to_string(), TableConfig { primary_key: vec![], columns: vec![], relations: vec![], constraints: vec![] });
    let mut other = users();
    other.columns.push(field("age", "int4"));
    config.insert("users".to_string(), other);
    assert_eq!(config.table("users").unwrap().columns.len(), 3);
    assert_eq!(config.table("posts").unwrap().columns.len(), 0);
}

#[test]
fn insert_columns_and_placeholders() {
    let values = InsertFieldsValues { fields: vec![field("name", "varchar"), field("age", "int4")] };
    let (columns, placeholders, params) = values.build();
    assert_eq!(columns, vec!["name".to_string(), "age".to_string()]);
    assert_eq!(placeholders, vec!["$1".to_string(), "$2".to_string()]);
    assert_eq!(params, vec!["name".to_string(), "age".to_string()]);
    let empty = InsertFieldsValues { fields: vec![] };
    assert_eq!(empty.build().1.len(), 0);
    let c = InsertConstraint { fields: vec![field("tenant_id", "uuid")] };
    assert_eq!(c.fields.len(), 1);
}

#[test]
fn update_set_list() {
    let set = UpdateFieldsSet { fields: vec![field("name", "varchar"), field("age", "int4"), field("bio", "text")] };
    let (sets, params) = set.build();
    assert_eq!(sets, "name = $1, age = $2, bio = $3");
    assert_eq!(params, vec!["name".to_string(), "age".to_string(), "bio".to_string()]);
    let none = UpdateFieldsSet { fields: vec![] };
    assert_eq!(none.build().0, "");
}

#[test]
fn insert_statement_text_and_names() {
    let st = InsertStatement {
        table_name: "users".to_string(),
        constraint: InsertConstraint { fields: vec![field("tenant_id", "uuid"), field("org_id", "uuid")] },
        fields: InsertFieldsValues { fields: vec![field("name", "varchar"), field("age", "int4")] },
        returning: vec!["id".to_string()],
    };
    assert_eq!(st.query(), "INSERT INTO users (name, age) VALUES ($1, $2) RETURNING id;");
    assert_eq!(st.fn_name(), "insert_where_tenant_id_and_org_id");
    let (fields, constraint) = st.query_params();
    assert_eq!(fields, vec!["name".to_string(), "age".to_string()]);
    assert_eq!(constraint, vec!["tenant_id".to_string(), "org_id".to_string()]);
    let plain = InsertStatement {
        table_name: "t".to_string(),
        constraint: InsertConstraint { fields: vec![] },
        fields: InsertFieldsValues { fields: vec![field("a", "int4")] },
        returning: vec![],
    };
    assert_eq!(plain.query(), "INSERT INTO t (a) VALUES ($1);");
    assert_eq!(plain.fn_name(), "insert");
}

#[test]
fn update_statement_text_name_and_params() {
    let st = UpdateStatement {
        table_name: "users".to_string(),
        fields: UpdateFieldsSet { fields: vec![field("name", "text"), field("age", "int4")] },
        constraint: WhereConstraint { fields: vec![field("id", "uuid"), field("tenant_id", "uuid")] },
        returning: vec!["id".to_string()],
    };
    assert_eq!(
        st.query(),
        "UPDATE users SET name = $1, age = $2 WHERE id = $3 AND tenant_id = $4 RETURNING id"
    );
    assert_eq!(st.fn_name(), "update_where_id_and_tenant_id");
    assert_eq!(st.query_params(), vec!["name", "age", "id", "tenant_id"]);
    let plain = UpdateStatement {
        table_name: "users".to_string(),
        fields: UpdateFieldsSet { fields: vec![field("name", "text")] },
        constraint: WhereConstraint { fields: vec![] },
        returning: vec![],
    };
    assert_eq!(plain.query(), "UPDATE users SET name = $1 ");
    assert_eq!(plain.fn_name(), "insert");
    let w = WhereConstraint { fields: vec![field("id", "uuid")] };
    assert_eq!(w.build(2), ("WHERE id = $3".to_string(), vec!["id".to_string()]));
}
