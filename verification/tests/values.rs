use arrakis::cvt::{
    json_value_to_string, json_values_to_strings, postgres_to_json_type, row_field_to_json_value,
    timestamp_to_json, to_json, SqlValue,
};
use arrakis::error::Error;
use arrakis::get::{collect_ids, collect_row_to_json};
use arrakis::json::{read_json, JsonValue};
use arrakis::schema::{Column, Table, TypeTag};

fn show(v: &JsonValue) -> String {
    format!("{:?}", v)
}

fn column(name: &str, data_type: TypeTag, is_nullable: bool) -> Column {
    Column {
        name: name.to_string(),
        default: None,
        is_nullable,
        data_type,
        character_maximum_length: None,
        is_updatable: true,
    }
}

#[test]
fn row_values_become_json_values() {
    assert_eq!(show(&to_json(&SqlValue::Null, true)), "Null");
    assert_eq!(show(&to_json(&SqlValue::Bool(true), false)), "Bool(true)");
    assert_eq!(show(&to_json(&SqlValue::Char(-5), false)), "Number(\"-5\")");
    assert_eq!(show(&to_json(&SqlValue::Int2(-32768), false)), "Number(\"-32768\")");
    assert_eq!(show(&to_json(&SqlValue::Int4(2147483647), true)), "Number(\"2147483647\")");
    assert_eq!(
        show(&to_json(&SqlValue::Int8(i64::MIN), false)),
        "Number(\"-9223372036854775808\")"
    );
    assert_eq!(show(&to_json(&SqlValue::Float4("1.5".to_string()), false)), "Number(\"1.5\")");
    assert_eq!(show(&to_json(&SqlValue::Float8("-0.25".to_string()), false)), "Number(\"-0.25\")");
    assert_eq!(show(&to_json(&SqlValue::Text("bob".to_string()), false)), "String(\"bob\")");
}

#[test]
fn the_column_type_decides_the_conversion() {
    let v = row_field_to_json_value(&SqlValue::Int4(7), false, TypeTag::Int4);
    assert_eq!(show(&v), "Number(\"7\")");
    let v = row_field_to_json_value(&SqlValue::Null, true, TypeTag::Varchar);
    assert_eq!(show(&v), "Null");
    let v = row_field_to_json_value(&SqlValue::Text("x".to_string()), false, TypeTag::Text);
    assert_eq!(show(&v), "String(\"x\")");
    let v = row_field_to_json_value(&SqlValue::Bool(false), false, TypeTag::Bool);
    assert_eq!(show(&v), "Bool(false)");
}

#[test]
fn an_unknown_type_degrades_to_an_empty_string() {
    let v = row_field_to_json_value(&SqlValue::Int4(7), false, TypeTag::Unknown);
    assert_eq!(show(&v), "String(\"\")");
    let v = row_field_to_json_value(&SqlValue::Null, false, TypeTag::Unknown);
    assert_eq!(show(&v), "String(\"\")");
}

#[test]
fn every_timestamp_has_one_value() {
    let v = row_field_to_json_value(&SqlValue::Int8(1700000000), false, TypeTag::Timestamp);
    assert_eq!(show(&v), "Number(\"42\")");
    assert_eq!(show(&timestamp_to_json(&SqlValue::Null, true)), "Number(\"42\")");
}

#[test]
fn json_values_have_sql_literals() {
    assert_eq!(json_value_to_string(&JsonValue::Null).unwrap(), "NULL");
    assert_eq!(json_value_to_string(&JsonValue::Bool(true)).unwrap(), "true");
    assert_eq!(json_value_to_string(&JsonValue::Bool(false)).unwrap(), "false");
    assert_eq!(json_value_to_string(&JsonValue::Number("-12".to_string())).unwrap(), "-12");
    assert_eq!(json_value_to_string(&JsonValue::Number("1.5".to_string())).unwrap(), "1.5");
    assert_eq!(json_value_to_string(&JsonValue::String("it's".to_string())).unwrap(), "it's");
}

#[test]
fn arrays_and_objects_have_no_sql_literal() {
    for v in [JsonValue::Array(vec![JsonValue::Null]), JsonValue::Object(vec![])] {
        match json_value_to_string(&v) {
            Err(Error::InvalidInputError(message)) => {
                assert_eq!(message, "expect null, boolean, number or string as value")
            }
            other => panic!("unexpected: {:?}", other),
        }
    }
}

#[test]
fn the_literals_of_an_object_come_in_order() {
    let entries = vec![
        ("a".to_string(), JsonValue::Null),
        ("b".to_string(), JsonValue::Number("2".to_string())),
    ];
    assert_eq!(json_values_to_strings(&entries).unwrap(), vec!["NULL", "2"]);
    let entries = vec![
        ("a".to_string(), JsonValue::Null),
        ("b".to_string(), JsonValue::Array(vec![])),
    ];
    assert!(matches!(json_values_to_strings(&entries), Err(Error::InvalidInputError(_))));
    assert_eq!(json_values_to_strings(&Vec::new()).unwrap().len(), 0);
}

#[test]
fn an_integer_goes_to_json_and_back_to_its_decimal_text() {
    for (cell, ty, text) in [
        (SqlValue::Int2(-7), TypeTag::Int2, "-7"),
        (SqlValue::Int4(0), TypeTag::Int4, "0"),
        (SqlValue::Int4(123456), TypeTag::Int4, "123456"),
        (SqlValue::Int8(i64::MAX), TypeTag::Int8, "9223372036854775807"),
        (SqlValue::Int8(i64::MIN), TypeTag::Int8, "-9223372036854775808"),
    ] {
        let json = row_field_to_json_value(&cell, false, ty);
        assert_eq!(json_value_to_string(&json).unwrap(), text);
    }
}

#[test]
fn column_types_have_json_names() {
    assert_eq!(postgres_to_json_type(&TypeTag::Bool), "boolean");
    assert_eq!(postgres_to_json_type(&TypeTag::Char), "string");
    assert_eq!(postgres_to_json_type(&TypeTag::Int2), "number");
    assert_eq!(postgres_to_json_type(&TypeTag::Int4), "number");
    assert_eq!(postgres_to_json_type(&TypeTag::Int8), "number");
    assert_eq!(postgres_to_json_type(&TypeTag::Float4), "number");
    assert_eq!(postgres_to_json_type(&TypeTag::Float8), "number");
    assert_eq!(postgres_to_json_type(&TypeTag::Varchar), "string");
    assert_eq!(postgres_to_json_type(&TypeTag::Text), "string");
    assert_eq!(postgres_to_json_type(&TypeTag::Timestamp), "number");
    assert_eq!(postgres_to_json_type(&TypeTag::Unknown), "unknown");
}

#[test]
fn rows_become_an_array_of_objects() {
    let mut t = Table::new("people");
    t.add_column(column("id", TypeTag::Int4, false));
    t.add_column(column("name", TypeTag::Varchar, true));
    t.add_column(column("seen", TypeTag::Timestamp, true));
    let rows = vec![
        vec![SqlValue::Text("bob".to_string()), SqlValue::Int4(1), SqlValue::Null],
        vec![SqlValue::Null, SqlValue::Int4(2), SqlValue::Int8(5)],
    ];
    let columns = vec!["name".to_string(), "id".to_string(), "seen".to_string()];
    let v = collect_row_to_json(columns, &t, &rows);
    assert_eq!(
        show(&v),
        "Array([Object([(\"name\", String(\"bob\")), (\"id\", Number(\"1\")), (\"seen\", \
         Number(\"42\"))]), Object([(\"name\", Null), (\"id\", Number(\"2\")), (\"seen\", \
         Number(\"42\"))])])"
    );
    let v = collect_row_to_json(vec!["id".to_string()], &t, &Vec::new());
    assert_eq!(show(&v), "Array([])");
}

#[test]
fn ids_become_an_array() {
    let rows = vec![vec![SqlValue::Int4(3)], vec![SqlValue::Int8(4), SqlValue::Null]];
    assert_eq!(show(&collect_ids(&rows)), "Array([Number(\"3\"), Number(\"4\")])");
    assert_eq!(show(&collect_ids(&Vec::new())), "Array([])");
}

#[test]
fn a_body_is_read_as_json() {
    let v = read_json("{\"name\": \"bob\", \"age\": 5, \"tags\": [true, null, 1.5, -3]}").unwrap();
    assert_eq!(
        show(&v),
        "Object([(\"age\", Number(\"5\")), (\"name\", String(\"bob\")), (\"tags\", \
         Array([Bool(true), Null, Number(\"1.5\"), Number(\"-3\")]))])"
    );
    assert_eq!(show(&read_json("null").unwrap()), "Null");
    assert_eq!(show(&read_json(" \"a\\nb\" ").unwrap()), "String(\"a\\nb\")");
    assert_eq!(show(&read_json("18446744073709551615").unwrap()), "Number(\"18446744073709551615\")");
}

#[test]
fn a_body_that_is_no_json_is_an_invalid_input() {
    for text in ["", "{", "nope", "{\"a\":}", "[1,]"] {
        let expected = serde_json::from_str::<serde_json::Value>(text).unwrap_err().to_string();
        match read_json(text) {
            Err(Error::InvalidInputError(message)) => assert_eq!(message, expected),
            other => panic!("unexpected for {:?}: {:?}", text, other),
        }
    }
}
