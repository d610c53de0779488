//! What the statements share: the table clause, the conditions and the check of a
//! request body against the columns of a table.

use crate::error::{Error, ErrorModel};
use crate::filters::{render, Filter, FilterModel};
use crate::json::{lemma_object_view, JsonModel, JsonValue};
use crate::queries::{filter_models, filters_of, FetchQueries, Queries};
use crate::schema::{Table, TableModel};
use crate::text::{join, join_with, texts};
use vstd::prelude::*;

verus! {

/// The position of the first name that is no column of the table, or the number of
/// names when each is one.
pub open spec fn missing_at(table: TableModel, names: Seq<Seq<char>>) -> int
    decreases names.len(),
{
    if names.len() == 0 {
        0
    } else if !table.has_column(names[0]) {
        0
    } else {
        1 + missing_at(table, names.drop_first())
    }
}

/// The error for the first name that is no column of the table, if there is one.
pub open spec fn unknown_column(table: TableModel, names: Seq<Seq<char>>) -> Option<ErrorModel> {
    let at = missing_at(table, names);
    if 0 <= at < names.len() {
        Some(ErrorModel::UnknownColumn(names[at], table.name))
    } else {
        None
    }
}

/// The position of the first missing name lies among the names or at their end:
/// the name at it, if there is one, is no column, and every name before it is one.
pub proof fn lemma_missing_at(table: TableModel, names: Seq<Seq<char>>)
    ensures
        0 <= missing_at(table, names) <= names.len(),
        missing_at(table, names) < names.len() ==> !table.has_column(
            names[missing_at(table, names)],
        ),
        forall|j: int| 0 <= j < missing_at(table, names) ==> table.has_column(#[trigger] names[j]),
    decreases names.len(),
{
    if names.len() > 0 && table.has_column(names[0]) {
        let rest = names.drop_first();
        lemma_missing_at(table, rest);
        assert forall|j: int| 0 <= j < missing_at(table, names) implies table.has_column(
            #[trigger] names[j],
        ) by {
            if j > 0 {
                assert(names[j] == rest[j - 1]);
            }
        }
    }
}

/// A position whose name is no column, with only columns before it, is the position
/// of the first missing name.
pub proof fn lemma_missing_at_is(table: TableModel, names: Seq<Seq<char>>, at: int)
    requires
        0 <= at <= names.len(),
        at < names.len() ==> !table.has_column(names[at]),
        forall|j: int| 0 <= j < at ==> table.has_column(#[trigger] names[j]),
    ensures
        missing_at(table, names) == at,
{
    lemma_missing_at(table, names);
}

/// The error for the first of `names` that is no column of `table`.
pub fn check_columns(table: &Table, names: &Vec<String>) -> (e: Option<Error>)
    ensures
        match e {
            Some(error) => unknown_column(table@, texts(names@)) == Some(error@),
            None => unknown_column(table@, texts(names@)) is None,
        },
{
    let mut i: usize = 0;
    while i < names.len() && table.contains_column(names[i].as_str())
        invariant
            i <= names.len(),
            forall|j: int| 0 <= j < i ==> table@.has_column(#[trigger] texts(names@)[j]),
        decreases names.len() - i,
    {
        i += 1;
    }
    proof {
        lemma_missing_at_is(table@, texts(names@), i as int);
    }
    if i < names.len() {
        Some(Error::UnknownColumn(names[i].clone(), String::from_str(table.name())))
    } else {
        None
    }
}

/// The query followed by the table it reads or changes.
pub open spec fn from_clause(query: Seq<char>, table_name: Seq<char>) -> Seq<char> {
    query + " FROM "@ + table_name
}

/// Appends ` FROM ` and the table to the query.
pub fn generate_from(query: String, table_name: &str) -> (r: String)
    ensures
        r@ == from_clause(query@, table_name@),
{
    let mut r = query;
    r.append(" FROM ");
    r.append(table_name);
    r
}

/// The columns that the filters are about.
pub open spec fn filter_columns(found: Seq<(Seq<char>, FilterModel)>) -> Seq<Seq<char>> {
    Seq::new(found.len(), |i: int| found[i].0)
}

/// The predicates of the filters, each column behind the table's name.
pub open spec fn predicates(found: Seq<(Seq<char>, FilterModel)>, table_name: Seq<char>) -> Seq<
    Seq<char>,
> {
    Seq::new(found.len(), |i: int| render(found[i].1, Some(table_name)))
}

/// The query with the conditions of the request: nothing more where the request has
/// no filter, else ` WHERE ` and the predicates joined by ` AND `. A parameter that
/// is no filter fails first, then a filter on a column that the table lacks.
pub open spec fn where_clause(
    query: Seq<char>,
    table: TableModel,
    entries: Seq<(Seq<char>, Seq<char>)>,
) -> Result<Seq<char>, ErrorModel> {
    match filters_of(entries) {
        Err(e) => Err(e),
        Ok(found) => match unknown_column(table, filter_columns(found)) {
            Some(e) => Err(e),
            None => if found.len() == 0 {
                Ok(query)
            } else {
                Ok(query + " WHERE "@ + join(predicates(found, table.name), " AND "@))
            },
        },
    }
}

/// A statement text or an error, with its texts as character sequences.
pub open spec fn text_outcome(r: Result<String, Error>) -> Result<Seq<char>, ErrorModel> {
    match r {
        Ok(s) => Ok(s@),
        Err(e) => Err(e@),
    }
}

/// The columns of the filters, each as a string of its own.
fn columns_of(found: &Vec<(String, Filter)>) -> (names: Vec<String>)
    ensures
        texts(names@) == filter_columns(filter_models(found@)),
{
    let mut names: Vec<String> = Vec::new();
    let mut i: usize = 0;
    while i < found.len()
        invariant
            i <= found.len(),
            names.len() == i,
            forall|k: int| 0 <= k < i ==> (#[trigger] names@[k])@ == found@[k].0@,
        decreases found.len() - i,
    {
        names.push(found[i].0.clone());
        i += 1;
    }
    names
}

/// Appends the conditions of the request to the query.
pub fn generate_where(query: String, table: &Table, queries: &Queries) -> (r: Result<String, Error>)
    ensures
        text_outcome(r) == where_clause(query@, table@, queries@),
{
    let found = match queries.filters() {
        Ok(found) => found,
        Err(e) => {
            return Err(e);
        },
    };
    let names = columns_of(&found);
    match check_columns(table, &names) {
        Some(e) => {
            return Err(e);
        },
        None => {},
    }
    if found.len() == 0 {
        return Ok(query);
    }
    let mut rendered: Vec<String> = Vec::new();
    let mut i: usize = 0;
    while i < found.len()
        invariant
            i <= found.len(),
            rendered.len() == i,
            forall|k: int|
                0 <= k < i ==> (#[trigger] rendered@[k])@ == render(found@[k].1@, Some(table@.name)),
        decreases found.len() - i,
    {
        rendered.push(found[i].1.to_string(Some(table.name())));
        i += 1;
    }
    proof {
        assert(texts(rendered@) =~= predicates(filter_models(found@), table@.name));
    }
    let conditions = join_with(&rendered, " AND ");
    let mut r = query;
    r.append(" WHERE ");
    r.append(conditions.as_str());
    Ok(r)
}

/// The keys of an object, in the order of its entries; none for any other value.
pub open spec fn object_keys(v: JsonModel) -> Seq<Seq<char>> {
    match v {
        JsonModel::Object(entries) => Seq::new(entries.len(), |i: int| entries[i].0),
        _ => Seq::empty(),
    }
}

/// The message for a request body that is no object.
pub open spec fn not_an_object_message() -> Seq<char> {
    "expect json object as top level value"@
}

/// Why a request body cannot be written to the table, if it cannot: it is no object,
/// or one of its keys is no column.
pub open spec fn invalid_fields(table: TableModel, v: JsonModel) -> Option<ErrorModel> {
    if v is Object {
        unknown_column(table, object_keys(v))
    } else {
        Some(ErrorModel::InvalidInputError(not_an_object_message()))
    }
}

/// The keys of the entries of an object, each as a string of its own.
pub fn keys_of(entries: &Vec<(String, JsonValue)>) -> (keys: Vec<String>)
    ensures
        keys.len() == entries.len(),
        forall|k: int| 0 <= k < keys.len() ==> (#[trigger] keys@[k])@ == entries@[k].0@,
{
    let mut keys: Vec<String> = Vec::new();
    let mut i: usize = 0;
    while i < entries.len()
        invariant
            i <= entries.len(),
            keys.len() == i,
            forall|k: int| 0 <= k < i ==> (#[trigger] keys@[k])@ == entries@[k].0@,
        decreases entries.len() - i,
    {
        keys.push(entries[i].0.clone());
        i += 1;
    }
    keys
}

/// Checks that a request body is an object whose keys are columns of the table.
pub fn validate_table_fields(table: &Table, val: &JsonValue) -> (r: Result<(), Error>)
    ensures
        match r {
            Ok(_) => invalid_fields(table@, val@) is None,
            Err(e) => invalid_fields(table@, val@) == Some(e@),
        },
{
    match val {
        JsonValue::Object(entries) => {
            let keys = keys_of(entries);
            proof {
                lemma_object_view(*val);
                assert(texts(keys@) =~= object_keys(val@));
            }
            match check_columns(table, &keys) {
                Some(e) => Err(e),
                None => Ok(()),
            }
        },
        _ => Err(
            Error::InvalidInputError(String::from_str("expect json object as top level value")),
        ),
    }
}

/// Names of which none is missing are columns of the table, each of them.
pub proof fn lemma_all_columns(table: TableModel, names: Seq<Seq<char>>)
    requires
        unknown_column(table, names) is None,
    ensures
        forall|i: int| 0 <= i < names.len() ==> table.has_column(#[trigger] names[i]),
{
    lemma_missing_at(table, names);
}

/// Conditions are only made of filters on columns of the table: a filter on anything
/// else never reaches a statement.
pub proof fn lemma_where_refers_to_columns(
    query: Seq<char>,
    table: TableModel,
    entries: Seq<(Seq<char>, Seq<char>)>,
)
    requires
        where_clause(query, table, entries) is Ok,
    ensures
        filters_of(entries) matches Ok(found) && forall|i: int|
            0 <= i < found.len() ==> table.has_column((#[trigger] found[i]).0),
{
    let found = filters_of(entries)->Ok_0;
    lemma_all_columns(table, filter_columns(found));
    assert forall|i: int| 0 <= i < found.len() implies table.has_column(
        (#[trigger] found[i]).0,
    ) by {
        assert(filter_columns(found)[i] == found[i].0);
    }
}

/// A request body that is accepted is an object whose keys are columns of the table.
pub proof fn lemma_fields_are_columns(table: TableModel, v: JsonModel)
    requires
        invalid_fields(table, v) is None,
    ensures
        v is Object,
        forall|i: int|
            0 <= i < object_keys(v).len() ==> table.has_column(#[trigger] object_keys(v)[i]),
{
    lemma_all_columns(table, object_keys(v));
}

} // verus!
