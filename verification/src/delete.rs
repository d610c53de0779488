//! The statement that removes rows.

use crate::common::{from_clause, generate_from, generate_where, text_outcome, where_clause};
use crate::error::{Error, ErrorModel};
use crate::queries::Queries;
use crate::schema::{Table, TableModel};
use vstd::prelude::*;

verus! {

/// The verb of the statement that removes rows.
pub fn generate_delete() -> (query: String)
    ensures
        query@ == "DELETE"@,
{
    String::from_str("DELETE")
}

/// The statement that removes the rows which meet the conditions of a request.
pub open spec fn delete_statement(
    table: TableModel,
    entries: Seq<(Seq<char>, Seq<char>)>,
) -> Result<Seq<char>, ErrorModel> {
    where_clause(from_clause("DELETE"@, table.name), table, entries)
}

/// The statement that removes the rows which meet the conditions of a request.
pub fn query(table: &Table, queries: &Queries) -> (r: Result<String, Error>)
    ensures
        text_outcome(r) == delete_statement(table@, queries@),
{
    let query = generate_delete();
    let query = generate_from(query, table.name());
    generate_where(query, table, queries)
}

} // verus!
