use arrakis::schema::{find_table, Column, Table, TypeTag};

fn column(name: &str, data_type: TypeTag, is_nullable: bool) -> Column {
    Column {
        name: name.to_string(),
        default: None,
        is_nullable,
        data_type,
        character_maximum_length: None,
        is_updatable: true,
    }
}

#[test]
fn a_new_table_has_no_columns() {
    let t = Table::new("people");
    assert_eq!(t.name(), "people");
    assert_eq!(t.columns().len(), 0);
    assert!(!t.contains_column("id"));
    assert!(t.get_column("id").is_none());
    assert_eq!(t.column_names().len(), 0);
}

#[test]
fn columns_keep_their_order() {
    let mut t = Table::new("people");
    t.add_column(column("id", TypeTag::Int4, false));
    t.add_column(column("name", TypeTag::Varchar, true));
    t.add_column(column("age", TypeTag::Int2, true));
    assert_eq!(t.column_names(), vec!["id", "name", "age"]);
    assert!(t.contains_column("name"));
    assert!(!t.contains_column("Name"));
    assert_eq!(t.get_column("age").unwrap().data_type, TypeTag::Int2);
}

#[test]
fn a_column_replaces_the_one_of_its_name() {
    let mut t = Table::new("people");
    t.add_column(column("id", TypeTag::Int4, false));
    t.add_column(column("name", TypeTag::Varchar, true));
    t.add_column(column("id", TypeTag::Int8, true));
    assert_eq!(t.column_names(), vec!["id", "name"]);
    let id = t.get_column("id").unwrap();
    assert_eq!(id.data_type, TypeTag::Int8);
    assert!(id.is_nullable);
}

#[test]
fn a_duplicate_has_the_same_values() {
    let c = Column {
        name: "name".to_string(),
        default: Some("'x'".to_string()),
        is_nullable: true,
        data_type: TypeTag::Varchar,
        character_maximum_length: Some(12),
        is_updatable: false,
    };
    let d = c.duplicate();
    assert_eq!(d.name, "name");
    assert_eq!(d.default, Some("'x'".to_string()));
    assert!(d.is_nullable);
    assert_eq!(d.data_type, TypeTag::Varchar);
    assert_eq!(d.character_maximum_length, Some(12));
    assert!(!d.is_updatable);
}

#[test]
fn a_table_is_found_by_its_name() {
    let tables = vec![Table::new("a"), Table::new("b"), Table::new("a")];
    assert_eq!(find_table(&tables, "a"), 0);
    assert_eq!(find_table(&tables, "b"), 1);
    assert_eq!(find_table(&tables, "c"), 3);
    assert_eq!(find_table(&Vec::new(), "a"), 0);
}
