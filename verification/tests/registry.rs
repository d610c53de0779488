use arrakis::config::{split_list, Config, DEFAULT_CONNECTION_TIMEOUT};
use arrakis::cvt::SqlValue;
use arrakis::error::Error;
use arrakis::infer_schema::{as_bool, contains_name, get_column, infer_schema};
use arrakis::json::JsonValue;
use arrakis::method::Method;
use arrakis::queries::parse_queries;
use arrakis::schema::{Column, TypeTag};
use arrakis::{Action, Arrakis};

fn record(table: &str, name: &str, data_type: TypeTag, is_nullable: bool) -> (String, Column) {
    (
        table.to_string(),
        Column {
            name: name.to_string(),
            default: None,
            is_nullable,
            data_type,
            character_maximum_length: None,
            is_updatable: true,
        },
    )
}

fn records() -> Vec<(String, Column)> {
    vec![
        record("people", "id", TypeTag::Int4, false),
        record("pets", "id", TypeTag::Int4, false),
        record("people", "name", TypeTag::Varchar, true),
        record("pets", "owner", TypeTag::Int4, true),
        record("logs", "line", TypeTag::Text, false),
    ]
}

fn registry() -> Arrakis {
    Arrakis::new(&records()).unwrap()
}

fn names(a: &Arrakis) -> Vec<String> {
    a.get_tables().iter().map(|t| t.name().to_string()).collect()
}

#[test]
fn settings_start_from_the_defaults() {
    let c = Config::default();
    assert_eq!(c.timeout(), 5);
    assert_eq!(DEFAULT_CONNECTION_TIMEOUT, 5);
    assert_eq!(c.excluded().len(), 0);
    assert_eq!(c.included().len(), 0);
    let c = Config::builder().build();
    assert_eq!(c.timeout(), 5);
    assert_eq!(c.excluded().len(), 0);
    assert_eq!(c.included().len(), 0);
}

#[test]
fn a_builder_sets_each_setting() {
    let c = Config::builder().timeout(1).excluded(vec!["a", "b"]).included(vec!["c"]).build();
    assert_eq!(c.timeout(), 1);
    assert_eq!(c.excluded(), &["a", "b"]);
    assert_eq!(c.included(), &["c"]);
    let c = Config::builder().excluded(vec!["a"]).excluded(vec!["z"]).build();
    assert_eq!(c.timeout(), 5);
    assert_eq!(c.excluded(), &["z"]);
}

#[test]
fn a_list_is_split_at_commas_without_empty_names() {
    let l = "a,b,,c,".to_string();
    assert_eq!(split_list(Some(&l)), vec!["a", "b", "c"]);
    let l = "".to_string();
    assert_eq!(split_list(Some(&l)).len(), 0);
    let l = ",,".to_string();
    assert_eq!(split_list(Some(&l)).len(), 0);
    let l = "één,twee".to_string();
    assert_eq!(split_list(Some(&l)), vec!["één", "twee"]);
    assert_eq!(split_list(None).len(), 0);
}

#[test]
fn the_catalog_says_yes_or_no() {
    assert!(as_bool("YES".to_string()));
    assert!(!as_bool("NO".to_string()));
}

#[test]
fn a_column_is_made_of_a_catalog_row() {
    let c = get_column(
        "name".to_string(),
        Some("'x'".to_string()),
        "YES".to_string(),
        TypeTag::Varchar,
        Some(30),
        "NO".to_string(),
    );
    assert_eq!(c.name, "name");
    assert_eq!(c.default, Some("'x'".to_string()));
    assert!(c.is_nullable);
    assert_eq!(c.data_type, TypeTag::Varchar);
    assert_eq!(c.character_maximum_length, Some(30));
    assert!(!c.is_updatable);
}

#[test]
fn a_name_is_looked_for_as_it_is() {
    assert!(contains_name(&["a", "b"], "b"));
    assert!(!contains_name(&["a", "b"], "B"));
    assert!(!contains_name(&[], "a"));
}

#[test]
fn tables_are_put_together_from_their_columns() {
    let tables = infer_schema(&records(), &[], &[]);
    assert_eq!(tables.len(), 3);
    assert_eq!(tables[0].name(), "people");
    assert_eq!(tables[0].column_names(), vec!["id", "name"]);
    assert_eq!(tables[1].name(), "pets");
    assert_eq!(tables[1].column_names(), vec!["id", "owner"]);
    assert_eq!(tables[2].name(), "logs");
    assert_eq!(tables[2].column_names(), vec!["line"]);
    assert_eq!(infer_schema(&Vec::new(), &[], &[]).len(), 0);
}

#[test]
fn only_the_permitted_tables_are_kept() {
    let tables = infer_schema(&records(), &["pets", "logs", "other"], &[]);
    assert_eq!(tables.len(), 2);
    assert_eq!(tables[0].name(), "pets");
    assert_eq!(tables[1].name(), "logs");
    let tables = infer_schema(&records(), &[], &["pets"]);
    assert_eq!(tables.len(), 2);
    assert_eq!(tables[0].name(), "people");
    assert_eq!(tables[1].name(), "logs");
}

#[test]
fn a_registry_serves_what_the_settings_let_through() {
    assert_eq!(names(&registry()), vec!["people", "pets", "logs"]);
    let c = Config::builder().included(vec!["logs"]).build();
    assert_eq!(names(&Arrakis::with_config(&records(), c).unwrap()), vec!["logs"]);
    let c = Config::builder().excluded(vec!["logs", "pets"]).build();
    assert_eq!(names(&Arrakis::with_config(&records(), c).unwrap()), vec!["people"]);
}

#[test]
fn settings_cannot_both_include_and_exclude() {
    let c = Config::builder().included(vec!["logs"]).excluded(vec!["pets"]).build();
    match Arrakis::with_config(&records(), c) {
        Err(message) => assert_eq!(message, "cannot specify both excluded and included schemas"),
        Ok(_) => panic!("the settings were accepted"),
    }
}

#[test]
fn an_unknown_table_is_an_unknown_model_whatever_the_request() {
    let a = registry();
    let methods = [Method::Get, Method::Post, Method::Put, Method::Patch, Method::Delete];
    let queries = ["", "id=eq.1", "id=bogus", "select=nope&limit=x"];
    let bodies = ["", "{\"id\": 1}", "not json"];
    for method in methods {
        for raw in queries {
            for body in bodies {
                match a.any(&method, "nowhere", &parse_queries(raw), body.to_string()) {
                    Err(Error::UnknownModel(model)) => assert_eq!(model, "nowhere"),
                    other => panic!("unexpected: {:?}", other),
                }
            }
        }
    }
    assert!(matches!(a.get("People", &parse_queries("")), Err(Error::UnknownModel(_))));
}

#[test]
fn a_read_is_a_statement_with_its_columns() {
    let a = registry();
    match a.any(&Method::Get, "people", &parse_queries("select=name&id=gt.1"), String::new()) {
        Ok(Action::Read(statement, columns)) => {
            assert_eq!(statement, "SELECT people.name FROM people WHERE people.id > '1'");
            assert_eq!(columns, vec!["name"]);
        }
        other => panic!("unexpected: {:?}", other),
    }
    match a.get("people", &parse_queries("select=nope&id=bogus")) {
        Err(Error::UnknownColumn(column, table)) => {
            assert_eq!(column, "nope");
            assert_eq!(table, "people");
        }
        other => panic!("unexpected: {:?}", other),
    }
}

#[test]
fn a_create_is_an_insert() {
    let a = registry();
    let body = "{\"name\": \"bob\", \"id\": 7}".to_string();
    match a.any(&Method::Post, "people", &parse_queries(""), body) {
        Ok(Action::Write(statement)) => assert_eq!(
            statement,
            "INSERT INTO people (id, name) VALUES ('7', 'bob') RETURNING id"
        ),
        other => panic!("unexpected: {:?}", other),
    }
    assert!(matches!(
        a.post("people", &parse_queries(""), "[]".to_string()),
        Err(Error::InvalidInputError(_))
    ));
    assert!(matches!(
        a.post("people", &parse_queries(""), "{".to_string()),
        Err(Error::InvalidInputError(_))
    ));
}

#[test]
fn a_replace_answers_true_once_the_body_reads() {
    let a = registry();
    match a.any(&Method::Put, "people", &parse_queries("id=bogus"), "[1, 2]".to_string()) {
        Ok(Action::Reply(JsonValue::Bool(true))) => {}
        other => panic!("unexpected: {:?}", other),
    }
    assert!(matches!(
        a.put("people", &parse_queries(""), "{".to_string()),
        Err(Error::InvalidInputError(_))
    ));
}

#[test]
fn a_change_is_an_update() {
    let a = registry();
    let body = "{\"name\": null}".to_string();
    match a.any(&Method::Patch, "people", &parse_queries("id=eq.3"), body) {
        Ok(Action::Write(statement)) => assert_eq!(
            statement,
            "UPDATE people SET name='NULL' WHERE people.id = '3' RETURNING id"
        ),
        other => panic!("unexpected: {:?}", other),
    }
    assert!(matches!(
        a.patch("people", &parse_queries("id=eq.3"), "{\"x\": 1}".to_string()),
        Err(Error::UnknownColumn(_, _))
    ));
}

#[test]
fn a_removal_is_a_delete() {
    let a = registry();
    match a.any(&Method::Delete, "pets", &parse_queries("owner=is.null"), "ignored".to_string()) {
        Ok(Action::Remove(statement)) => {
            assert_eq!(statement, "DELETE FROM pets WHERE pets.owner IS NULL")
        }
        other => panic!("unexpected: {:?}", other),
    }
    assert!(matches!(
        a.delete("pets", &parse_queries("owner=is.maybe")),
        Err(Error::InvalidFilterSyntax(_))
    ));
}

#[test]
fn the_rows_of_a_read_are_the_answer() {
    let a = registry();
    let action = a.get("people", &parse_queries("select=name,id")).unwrap();
    let rows = vec![vec![SqlValue::Null, SqlValue::Int4(1)]];
    let answer = a.finish("people", action, Some(rows)).unwrap().unwrap();
    assert_eq!(
        format!("{:?}", answer),
        "Array([Object([(\"name\", Null), (\"id\", Number(\"1\"))])])"
    );
    let action = a.get("people", &parse_queries("")).unwrap();
    let answer = a.finish("people", action, Some(Vec::new())).unwrap().unwrap();
    assert_eq!(format!("{:?}", answer), "Array([])");
}

#[test]
fn the_ids_of_a_write_are_the_answer() {
    let a = registry();
    let action = a.patch("people", &parse_queries(""), "{\"name\": \"x\"}".to_string()).unwrap();
    let answer = a.finish("people", action, Some(vec![vec![SqlValue::Int4(9)]])).unwrap().unwrap();
    assert_eq!(format!("{:?}", answer), "Array([Number(\"9\")])");
}

#[test]
fn a_removal_has_no_answer() {
    let a = registry();
    let action = a.delete("people", &parse_queries("")).unwrap();
    assert!(a.finish("people", action, Some(Vec::new())).unwrap().is_none());
}

#[test]
fn a_reply_is_its_own_answer() {
    let a = registry();
    let action = a.put("people", &parse_queries(""), "1".to_string()).unwrap();
    let answer = a.finish("people", action, None).unwrap().unwrap();
    assert_eq!(format!("{:?}", answer), "Bool(true)");
}

#[test]
fn a_statement_that_failed_is_an_internal_error() {
    let a = registry();
    for action in [
        a.get("people", &parse_queries("")).unwrap(),
        a.delete("people", &parse_queries("")).unwrap(),
        a.post("people", &parse_queries(""), "{}".to_string()).unwrap(),
    ] {
        match a.finish("people", action, None) {
            Err(Error::InternalError(message)) => assert_eq!(message, "internal database error"),
            other => panic!("unexpected: {:?}", other),
        }
    }
}

#[test]
fn settings_are_checked_for_both_lists() {
    assert!(Config::default().check().is_ok());
    assert!(Config::builder().included(vec!["a"]).build().check().is_ok());
    assert!(Config::builder().excluded(vec!["a"]).build().check().is_ok());
    assert_eq!(
        Config::builder().included(vec!["a"]).excluded(vec!["b"]).build().check(),
        Err("cannot specify both excluded and included schemas".to_string())
    );
}
