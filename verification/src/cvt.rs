//! Conversion between the values of a database row and JSON, by column type.

use crate::error::{Error, ErrorModel};
use crate::json::{entries_model, JsonModel, JsonValue};
use crate::schema::TypeTag;
use crate::text::{decimal, i64_to_decimal};
use vstd::prelude::*;

verus! {

/// One value of a row, as the database driver decodes it. A float holds its decimal
/// text.
#[derive(Debug)]
pub enum SqlValue {
    Null,
    Bool(bool),
    Char(i8),
    Int2(i16),
    Int4(i32),
    Int8(i64),
    Float4(String),
    Float8(String),
    Text(String),
}

/// Whether a value is one that a column of the type holds: a value of the type, or
/// null where the column is nullable. A timestamp or unknown column holds anything.
pub open spec fn fits(cell: SqlValue, is_nullable: bool, ty: TypeTag) -> bool {
    match ty {
        TypeTag::Timestamp | TypeTag::Unknown => true,
        _ => if cell is Null {
            is_nullable
        } else {
            match ty {
                TypeTag::Bool => cell is Bool,
                TypeTag::Char => cell is Char,
                TypeTag::Int2 => cell is Int2,
                TypeTag::Int4 => cell is Int4,
                TypeTag::Int8 => cell is Int8,
                TypeTag::Float4 => cell is Float4,
                TypeTag::Float8 => cell is Float8,
                TypeTag::Varchar => cell is Text,
                TypeTag::Text => cell is Text,
                _ => true,
            }
        },
    }
}

/// The JSON value of a row value: null for null, a number for an integer or a float,
/// a boolean or a string otherwise.
pub open spec fn cell_json(cell: SqlValue) -> JsonModel {
    match cell {
        SqlValue::Null => JsonModel::Null,
        SqlValue::Bool(b) => JsonModel::Bool(b),
        SqlValue::Char(i) => JsonModel::Number(decimal(i as int)),
        SqlValue::Int2(i) => JsonModel::Number(decimal(i as int)),
        SqlValue::Int4(i) => JsonModel::Number(decimal(i as int)),
        SqlValue::Int8(i) => JsonModel::Number(decimal(i as int)),
        SqlValue::Float4(t) => JsonModel::Number(t@),
        SqlValue::Float8(t) => JsonModel::Number(t@),
        SqlValue::Text(t) => JsonModel::String(t@),
    }
}

/// The JSON value that stands for every timestamp.
pub open spec fn timestamp_json() -> JsonModel {
    JsonModel::Number(decimal(42))
}

/// The JSON value of a row value of a column of the given type: an unknown type
/// gives an empty string, whatever the value.
pub open spec fn field_json(cell: SqlValue, ty: TypeTag) -> JsonModel {
    match ty {
        TypeTag::Timestamp => timestamp_json(),
        TypeTag::Unknown => JsonModel::String(Seq::empty()),
        _ => cell_json(cell),
    }
}

/// The SQL literal of a JSON value: `NULL`, `true` or `false`, the text of a number,
/// or a string as it is. An array or an object has none.
pub open spec fn literal(v: JsonModel) -> Option<Seq<char>> {
    match v {
        JsonModel::Null => Some("NULL"@),
        JsonModel::Bool(b) => Some(
            if b {
                "true"@
            } else {
                "false"@
            },
        ),
        JsonModel::Number(t) => Some(t),
        JsonModel::String(t) => Some(t),
        JsonModel::Array(_) => None,
        JsonModel::Object(_) => None,
    }
}

/// The message for a JSON value that has no SQL literal.
pub open spec fn unsupported_value_message() -> Seq<char> {
    "expect null, boolean, number or string as value"@
}

/// The JSON value of a row value.
pub fn to_json(cell: &SqlValue, is_nullable: bool) -> (v: JsonValue)
    requires
        cell is Null ==> is_nullable,
    ensures
        v@ == cell_json(*cell),
{
    match cell {
        SqlValue::Null => JsonValue::Null,
        SqlValue::Bool(b) => JsonValue::Bool(*b),
        SqlValue::Char(i) => JsonValue::Number(i64_to_decimal(*i as i64)),
        SqlValue::Int2(i) => JsonValue::Number(i64_to_decimal(*i as i64)),
        SqlValue::Int4(i) => JsonValue::Number(i64_to_decimal(*i as i64)),
        SqlValue::Int8(i) => JsonValue::Number(i64_to_decimal(*i)),
        SqlValue::Float4(t) => JsonValue::Number(t.clone()),
        SqlValue::Float8(t) => JsonValue::Number(t.clone()),
        SqlValue::Text(t) => JsonValue::String(t.clone()),
    }
}

/// The JSON value of a timestamp, which is the same for every one.
pub fn timestamp_to_json(cell: &SqlValue, is_nullable: bool) -> (v: JsonValue)
    ensures
        v@ == timestamp_json(),
{
    JsonValue::Number(i64_to_decimal(42))
}

/// The JSON value of a row value of a column of the given type.
pub fn row_field_to_json_value(cell: &SqlValue, is_nullable: bool, ty: TypeTag) -> (v: JsonValue)
    requires
        fits(*cell, is_nullable, ty),
    ensures
        v@ == field_json(*cell, ty),
{
    match ty {
        TypeTag::Bool => to_json(cell, is_nullable),
        TypeTag::Char => to_json(cell, is_nullable),
        TypeTag::Int2 => to_json(cell, is_nullable),
        TypeTag::Int4 => to_json(cell, is_nullable),
        TypeTag::Int8 => to_json(cell, is_nullable),
        TypeTag::Float4 => to_json(cell, is_nullable),
        TypeTag::Float8 => to_json(cell, is_nullable),
        TypeTag::Varchar => to_json(cell, is_nullable),
        TypeTag::Text => to_json(cell, is_nullable),
        TypeTag::Timestamp => timestamp_to_json(cell, is_nullable),
        TypeTag::Unknown => JsonValue::String(String::new()),
    }
}

/// The SQL literal of a JSON value; an array or an object is an invalid input.
pub fn json_value_to_string(v: &JsonValue) -> (r: Result<String, Error>)
    ensures
        match r {
            Ok(s) => literal(v@) == Some(s@),
            Err(e) => literal(v@) is None && e@ == ErrorModel::InvalidInputError(
                unsupported_value_message(),
            ),
        },
{
    match v {
        JsonValue::Null => Ok(String::from_str("NULL")),
        JsonValue::Bool(b) => if *b {
            Ok(String::from_str("true"))
        } else {
            Ok(String::from_str("false"))
        },
        JsonValue::Number(t) => Ok(t.clone()),
        JsonValue::String(t) => Ok(t.clone()),
        _ => Err(
            Error::InvalidInputError(
                String::from_str("expect null, boolean, number or string as value"),
            ),
        ),
    }
}

/// The name of the JSON type that the values of a column type become.
pub open spec fn json_type_name(ty: TypeTag) -> Seq<char> {
    match ty {
        TypeTag::Bool => "boolean"@,
        TypeTag::Char => "string"@,
        TypeTag::Int2 => "number"@,
        TypeTag::Int4 => "number"@,
        TypeTag::Int8 => "number"@,
        TypeTag::Float4 => "number"@,
        TypeTag::Float8 => "number"@,
        TypeTag::Varchar => "string"@,
        TypeTag::Text => "string"@,
        TypeTag::Timestamp => "number"@,
        TypeTag::Unknown => "unknown"@,
    }
}

/// The name of the JSON type that the values of a column type become.
pub fn postgres_to_json_type(ty: &TypeTag) -> (name: &'static str)
    ensures
        name@ == json_type_name(*ty),
{
    match ty {
        TypeTag::Bool => "boolean",
        TypeTag::Char => "string",
        TypeTag::Int2 => "number",
        TypeTag::Int4 => "number",
        TypeTag::Int8 => "number",
        TypeTag::Float4 => "number",
        TypeTag::Float8 => "number",
        TypeTag::Varchar => "string",
        TypeTag::Text => "string",
        TypeTag::Timestamp => "number",
        TypeTag::Unknown => "unknown",
    }
}

/// An integer that is read from a column of an integer type and written back as a
/// SQL literal comes out as its decimal text.
pub proof fn lemma_integer_round_trip(cell: SqlValue, ty: TypeTag)
    requires
        ty == TypeTag::Int2 || ty == TypeTag::Int4 || ty == TypeTag::Int8,
        cell is Int2 || cell is Int4 || cell is Int8,
    ensures
        literal(field_json(cell, ty)) == Some(
            decimal(
                match cell {
                    SqlValue::Int2(i) => i as int,
                    SqlValue::Int4(i) => i as int,
                    SqlValue::Int8(i) => i as int,
                    _ => 0,
                },
            ),
        ),
{
}

/// Whether each value of the entries has a SQL literal.
pub open spec fn all_literal(entries: Seq<(Seq<char>, JsonModel)>) -> bool {
    forall|i: int| 0 <= i < entries.len() ==> literal((#[trigger] entries[i]).1) is Some
}

/// The SQL literals of the values of the entries, in their order.
pub open spec fn literals(entries: Seq<(Seq<char>, JsonModel)>) -> Seq<Seq<char>> {
    Seq::new(entries.len(), |i: int| literal(entries[i].1)->0)
}

/// The SQL literals of the values of an object's entries, or an invalid input where
/// one of them is an array or an object.
pub fn json_values_to_strings(entries: &Vec<(String, JsonValue)>) -> (r: Result<Vec<String>, Error>)
    ensures
        match r {
            Ok(found) => all_literal(entries_model(entries@)) && found.len() == entries.len()
                && crate::text::texts(found@) == literals(entries_model(entries@)),
            Err(e) => !all_literal(entries_model(entries@)) && e@
                == ErrorModel::InvalidInputError(unsupported_value_message()),
        },
{
    let ghost model = entries_model(entries@);
    let mut found: Vec<String> = Vec::new();
    let mut i: usize = 0;
    while i < entries.len()
        invariant
            i <= entries.len(),
            found.len() == i,
            model == entries_model(entries@),
            forall|k: int| 0 <= k < i ==> literal(model[k].1) == Some((#[trigger] found@[k])@),
        decreases entries.len() - i,
    {
        match json_value_to_string(&entries[i].1) {
            Ok(text) => {
                found.push(text);
            },
            Err(e) => {
                proof {
                    assert(literal(model[i as int].1) is None);
                }
                return Err(e);
            },
        }
        i += 1;
    }
    proof {
        assert forall|k: int| 0 <= k < model.len() implies literal((#[trigger] model[k]).1) is Some by {
            assert(literal(model[k].1) == Some(found@[k]@));
        }
    }
    Ok(found)
}

} // verus!
