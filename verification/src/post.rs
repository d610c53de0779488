//! The statement that adds a row.

use crate::common::{invalid_fields, keys_of, object_keys, text_outcome, validate_table_fields};
use crate::cvt::{all_literal, json_values_to_strings, literals, unsupported_value_message};
use crate::error::{Error, ErrorModel};
use crate::filters::quoted;
use crate::json::{lemma_object_view, JsonModel, JsonValue};
use crate::queries::Queries;
use crate::schema::{Table, TableModel};
use crate::text::{join, join_with, texts};
use vstd::prelude::*;

verus! {

/// The verb of the statement that adds a row.
pub fn generate_insert() -> (query: String)
    ensures
        query@ == "INSERT"@,
{
    String::from_str("INSERT")
}

/// The query followed by ` INTO `, the table and the keys of the body in brackets.
pub open spec fn into_clause(query: Seq<char>, table: TableModel, v: JsonModel) -> Seq<char> {
    query + " INTO "@ + table.name + " ("@ + join(object_keys(v), ", "@) + ")"@
}

/// Appends the table and the keys of the request body to the query.
pub fn generate_into(query: String, table: &Table, val: &JsonValue) -> (r: String)
    requires
        val@ is Object,
    ensures
        r@ == into_clause(query@, table@, val@),
{
    match val {
        JsonValue::Object(entries) => {
            let keys = keys_of(entries);
            proof {
                lemma_object_view(*val);
                assert(texts(keys@) =~= object_keys(val@));
            }
            let list = join_with(&keys, ", ");
            let mut r = query;
            r.append(" INTO ");
            r.append(table.name());
            r.append(" (");
            r.append(list.as_str());
            r.append(")");
            r
        },
        _ => query,
    }
}

/// The query followed by ` VALUES ` and, in brackets, the SQL literals of the body's
/// values between single quotes; a value that has no literal fails.
pub open spec fn values_clause(query: Seq<char>, v: JsonModel) -> Result<Seq<char>, ErrorModel> {
    let entries = v->Object_0;
    if all_literal(entries) {
        Ok(query + " VALUES ("@ + join(quoted(literals(entries)), ", "@) + ")"@)
    } else {
        Err(ErrorModel::InvalidInputError(unsupported_value_message()))
    }
}

/// Appends the values of the request body to the query.
pub fn generate_values(query: String, table: &Table, val: &JsonValue) -> (r: Result<String, Error>)
    requires
        val@ is Object,
    ensures
        text_outcome(r) == values_clause(query@, val@),
{
    match val {
        JsonValue::Object(entries) => {
            proof {
                lemma_object_view(*val);
            }
            let values = match json_values_to_strings(entries) {
                Ok(values) => values,
                Err(e) => {
                    return Err(e);
                },
            };
            let mut items: Vec<String> = Vec::new();
            let mut i: usize = 0;
            while i < values.len()
                invariant
                    i <= values.len(),
                    items.len() == i,
                    forall|k: int|
                        0 <= k < i ==> (#[trigger] items@[k])@ == "'"@ + values@[k]@ + "'"@,
                decreases values.len() - i,
            {
                let mut item = String::from_str("'");
                item.append(values[i].as_str());
                item.append("'");
                items.push(item);
                i += 1;
            }
            proof {
                assert(texts(items@) =~= quoted(texts(values@)));
            }
            let list = join_with(&items, ", ");
            let mut r = query;
            r.append(" VALUES (");
            r.append(list.as_str());
            r.append(")");
            Ok(r)
        },
        _ => Ok(query),
    }
}

/// Appends the clause that asks for the id of the added row.
pub fn generate_returning(query: String) -> (r: String)
    ensures
        r@ == query@ + " RETURNING id"@,
{
    let mut r = query;
    r.append(" RETURNING id");
    r
}

/// The statement that adds the body of a request as a row and returns its id. A body
/// that is no object, or has a key that is no column, fails first; then a value that
/// has no SQL literal.
pub open spec fn insert_statement(table: TableModel, body: JsonModel) -> Result<
    Seq<char>,
    ErrorModel,
> {
    match invalid_fields(table, body) {
        Some(e) => Err(e),
        None => match values_clause(into_clause("INSERT"@, table, body), body) {
            Err(e) => Err(e),
            Ok(text) => Ok(text + " RETURNING id"@),
        },
    }
}

/// The statement that adds the body of a request as a row.
pub fn query(table: &Table, queries: &Queries, val: &JsonValue) -> (r: Result<String, Error>)
    ensures
        text_outcome(r) == insert_statement(table@, val@),
{
    match validate_table_fields(table, val) {
        Err(e) => {
            return Err(e);
        },
        Ok(_) => {},
    }
    let query = generate_insert();
    let query = generate_into(query, table, val);
    let query = match generate_values(query, table, val) {
        Ok(query) => query,
        Err(e) => {
            return Err(e);
        },
    };
    Ok(generate_returning(query))
}

} // verus!
