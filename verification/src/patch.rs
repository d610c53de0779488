//! The statement that changes rows.

use crate::common::{
    generate_where, invalid_fields, keys_of, text_outcome, validate_table_fields, where_clause,
};
use crate::cvt::{all_literal, json_values_to_strings, literals, unsupported_value_message};
use crate::error::{Error, ErrorModel};
use crate::json::{lemma_object_view, JsonModel, JsonValue};
use crate::queries::Queries;
use crate::schema::{Table, TableModel};
use crate::text::{join, join_with, texts};
use vstd::prelude::*;

verus! {

/// The verb of the statement that changes rows, and the table.
pub fn generate_update(table: &Table) -> (query: String)
    ensures
        query@ == "UPDATE "@ + table@.name,
{
    let mut query = String::from_str("UPDATE ");
    query.append(table.name());
    query
}

/// Each key set to the SQL literal of its value, between single quotes.
pub open spec fn assignments(entries: Seq<(Seq<char>, JsonModel)>) -> Seq<Seq<char>> {
    Seq::new(entries.len(), |i: int| entries[i].0 + "='"@ + literals(entries)[i] + "'"@)
}

/// The query followed by ` SET ` and the assignments of the body, joined by commas.
/// A body that is no object, or has a key that is no column, fails first; then a
/// value that has no SQL literal.
pub open spec fn set_clause(query: Seq<char>, table: TableModel, v: JsonModel) -> Result<
    Seq<char>,
    ErrorModel,
> {
    match invalid_fields(table, v) {
        Some(e) => Err(e),
        None => {
            let entries = v->Object_0;
            if all_literal(entries) {
                Ok(query + " SET "@ + join(assignments(entries), ", "@))
            } else {
                Err(ErrorModel::InvalidInputError(unsupported_value_message()))
            }
        },
    }
}

/// Appends the assignments of the request body to the query.
pub fn generate_set(query: String, table: &Table, val: &JsonValue) -> (r: Result<String, Error>)
    ensures
        text_outcome(r) == set_clause(query@, table@, val@),
{
    match validate_table_fields(table, val) {
        Err(e) => {
            return Err(e);
        },
        Ok(_) => {},
    }
    match val {
        JsonValue::Object(entries) => {
            proof {
                lemma_object_view(*val);
            }
            let values = match json_values_to_strings(entries) {
                Ok(values) => values,
                Err(e) => {
                    return Err(e);
                },
            };
            let keys = keys_of(entries);
            let mut fields: Vec<String> = Vec::new();
            let mut i: usize = 0;
            while i < entries.len()
                invariant
                    i <= entries.len(),
                    fields.len() == i,
                    keys.len() == entries.len(),
                    values.len() == entries.len(),
                    forall|k: int|
                        0 <= k < i ==> (#[trigger] fields@[k])@ == keys@[k]@ + "='"@ + values@[k]@
                            + "'"@,
                decreases entries.len() - i,
            {
                let mut field = keys[i].clone();
                field.append("='");
                field.append(values[i].as_str());
                field.append("'");
                fields.push(field);
                i += 1;
            }
            proof {
                lemma_object_view(*val);
                let model = val@->Object_0;
                assert(texts(fields@) =~= assignments(model));
            }
            let list = join_with(&fields, ", ");
            let mut r = query;
            r.append(" SET ");
            r.append(list.as_str());
            Ok(r)
        },
        _ => Err(
            Error::InvalidInputError(String::from_str("expect json object as top level value")),
        ),
    }
}

/// Appends the clause that asks for the ids of the changed rows.
pub fn generate_returning(query: String) -> (r: String)
    ensures
        r@ == query@ + " RETURNING id"@,
{
    let mut r = query;
    r.append(" RETURNING id");
    r
}

/// The statement that changes the rows which meet the conditions of a request to
/// the values of its body, and returns their ids.
pub open spec fn update_statement(
    table: TableModel,
    entries: Seq<(Seq<char>, Seq<char>)>,
    body: JsonModel,
) -> Result<Seq<char>, ErrorModel> {
    match set_clause("UPDATE "@ + table.name, table, body) {
        Err(e) => Err(e),
        Ok(setting) => match where_clause(setting, table, entries) {
            Err(e) => Err(e),
            Ok(filtered) => Ok(filtered + " RETURNING id"@),
        },
    }
}

/// The statement that changes the rows which meet the conditions of a request.
pub fn query(table: &Table, queries: &Queries, val: &JsonValue) -> (r: Result<String, Error>)
    ensures
        text_outcome(r) == update_statement(table@, queries@, val@),
{
    let query = generate_update(table);
    let query = match generate_set(query, table, val) {
        Ok(query) => query,
        Err(e) => {
            return Err(e);
        },
    };
    let query = match generate_where(query, table, queries) {
        Ok(query) => query,
        Err(e) => {
            return Err(e);
        },
    };
    Ok(generate_returning(query))
}

} // verus!
