//! The statement that reads rows, and the rows it returns as JSON.

use crate::common::{
    check_columns, from_clause, generate_from, generate_where, lemma_all_columns,
    lemma_missing_at, lemma_where_refers_to_columns, text_outcome, unknown_column, where_clause,
};
use crate::cvt::{cell_json, field_json, fits, row_field_to_json_value, to_json, SqlValue};
use crate::error::{Error, ErrorModel};
use crate::json::{lemma_array_view, lemma_object_view, JsonModel, JsonValue};
use crate::ordering::{render_order, Order, OrderModel};
use crate::queries::{kept_orders, lookup, order_models, FetchQueries, Queries};
use crate::schema::{Table, TableModel};
use crate::text::{
    decimal, digits_value, is_u32_text, join, join_with, parse_u32, split, texts, trim, trimmed,
    u32_to_decimal, unsigned_body,
};
use vstd::prelude::*;

verus! {

/// The columns that a request reads: those that `select` names, or every column of
/// the table in the table's order.
pub open spec fn selected(table: TableModel, entries: Seq<(Seq<char>, Seq<char>)>) -> Seq<
    Seq<char>,
> {
    match lookup(entries, "select"@) {
        Some(v) => split(v, ','),
        None => table.column_names(),
    }
}

/// Each column behind the table's name and a dot.
pub open spec fn qualified_columns(table_name: Seq<char>, columns: Seq<Seq<char>>) -> Seq<
    Seq<char>,
> {
    Seq::new(columns.len(), |i: int| table_name + "."@ + columns[i])
}

/// The query followed by `SELECT ` and the columns, or the error for the first
/// column that the table lacks.
pub open spec fn select_clause(
    query: Seq<char>,
    table: TableModel,
    entries: Seq<(Seq<char>, Seq<char>)>,
) -> Result<Seq<char>, ErrorModel> {
    let columns = selected(table, entries);
    match unknown_column(table, columns) {
        Some(e) => Err(e),
        None => Ok(query + "SELECT "@ + join(qualified_columns(table.name, columns), ", "@)),
    }
}

/// Appends `SELECT ` and the columns of the request to the query, and gives the
/// columns as well.
pub fn generate_select(query: String, table: &Table, queries: &Queries) -> (r: Result<
    (String, Vec<String>),
    Error,
>)
    ensures
        match r {
            Ok((text, columns)) => select_clause(query@, table@, queries@) == Ok::<
                Seq<char>,
                ErrorModel,
            >(text@) && texts(columns@) == selected(table@, queries@),
            Err(e) => select_clause(query@, table@, queries@) == Err::<Seq<char>, ErrorModel>(e@),
        },
{
    let columns: Vec<String> = match queries.select() {
        Some(columns) => columns,
        None => table.column_names(),
    };
    // A column that the table lacks ends the request here, before anything else of
    // it is read.
    if let Some(e) = validate_columns(table, &columns) {
        return Err(e);
    }
    let mut qualified: Vec<String> = Vec::new();
    let mut i: usize = 0;
    while i < columns.len()
        invariant
            i <= columns.len(),
            qualified.len() == i,
            forall|k: int|
                0 <= k < i ==> (#[trigger] qualified@[k])@ == table@.name + "."@ + columns@[k]@,
        decreases columns.len() - i,
    {
        let mut item = String::from_str(table.name());
        item.append(".");
        item.append(columns[i].as_str());
        qualified.push(item);
        i += 1;
    }
    proof {
        assert(texts(qualified@) =~= qualified_columns(table@.name, texts(columns@)));
    }
    let list = join_with(&qualified, ", ");
    let mut text = query;
    text.append("SELECT ");
    text.append(list.as_str());
    Ok((text, columns))
}

/// The error for the first of `columns` that `table` lacks.
pub fn validate_columns(table: &Table, columns: &Vec<String>) -> (e: Option<Error>)
    ensures
        match e {
            Some(error) => unknown_column(table@, texts(columns@)) == Some(error@),
            None => unknown_column(table@, texts(columns@)) is None,
        },
{
    check_columns(table, columns)
}

/// The query with a bound on rows under `keyword`: the raw value without the white
/// space around it must write an unsigned number of 32 bits, which is written back
/// in decimal. Without a raw value the query stays as it is.
pub open spec fn bound_clause(
    query: Seq<char>,
    keyword: Seq<char>,
    name: Seq<char>,
    raw: Option<Seq<char>>,
) -> Result<Seq<char>, ErrorModel> {
    match raw {
        None => Ok(query),
        Some(v) => if is_u32_text(trimmed(v)) {
            Ok(query + keyword + decimal(digits_value(unsigned_body(trimmed(v))) as int))
        } else {
            Err(ErrorModel::InvalidFilterType(name, "u32"@))
        },
    }
}

/// Appends the limit of the request to the query.
pub fn generate_limit(query: String, queries: &Queries) -> (r: Result<String, Error>)
    ensures
        text_outcome(r) == bound_clause(query@, " LIMIT "@, "limit"@, lookup(queries@, "limit"@)),
{
    match queries.limit() {
        Some(limit) => {
            let cleaned = trim(limit);
            match parse_u32(cleaned.as_str()) {
                Some(n) => {
                    let number = u32_to_decimal(n);
                    let mut r = query;
                    r.append(" LIMIT ");
                    r.append(number.as_str());
                    Ok(r)
                },
                None => Err(
                    Error::InvalidFilterType(String::from_str("limit"), String::from_str("u32")),
                ),
            }
        },
        None => Ok(query),
    }
}

/// Appends the offset of the request to the query.
pub fn generate_offset(query: String, queries: &Queries) -> (r: Result<String, Error>)
    ensures
        text_outcome(r) == bound_clause(
            query@,
            " OFFSET "@,
            "offset"@,
            lookup(queries@, "offset"@),
        ),
{
    match queries.offset() {
        Some(offset) => {
            let cleaned = trim(offset);
            match parse_u32(cleaned.as_str()) {
                Some(n) => {
                    let number = u32_to_decimal(n);
                    let mut r = query;
                    r.append(" OFFSET ");
                    r.append(number.as_str());
                    Ok(r)
                },
                None => Err(
                    Error::InvalidFilterType(String::from_str("offset"), String::from_str("u32")),
                ),
            }
        },
        None => Ok(query),
    }
}

/// The columns that the orders sort by.
pub open spec fn order_columns(orders: Seq<OrderModel>) -> Seq<Seq<char>> {
    Seq::new(
        orders.len(),
        |i: int|
            match orders[i] {
                OrderModel::Asc(c) => c,
                OrderModel::Desc(c) => c,
            },
    )
}

/// The SQL texts of the orders, each column behind the table's name.
pub open spec fn rendered_orders(orders: Seq<OrderModel>, table_name: Seq<char>) -> Seq<Seq<char>> {
    Seq::new(orders.len(), |i: int| render_order(orders[i], Some(table_name)))
}

/// The query with the sort orders of the request: nothing more without an `order`
/// parameter or where none of its entries is an order, else ` ORDER BY ` and the
/// orders joined by commas. An order by a column that the table lacks fails.
pub open spec fn order_clause(
    query: Seq<char>,
    table: TableModel,
    entries: Seq<(Seq<char>, Seq<char>)>,
) -> Result<Seq<char>, ErrorModel> {
    match lookup(entries, "order"@) {
        None => Ok(query),
        Some(v) => {
            let orders = kept_orders(split(v, ','));
            match unknown_column(table, order_columns(orders)) {
                Some(e) => Err(e),
                None => if orders.len() == 0 {
                    Ok(query)
                } else {
                    Ok(
                        query + " "@ + "ORDER BY "@ + join(
                            rendered_orders(orders, table.name),
                            ", "@,
                        ),
                    )
                },
            }
        },
    }
}

/// Appends the sort orders of the request to the query.
pub fn generate_order(query: String, table: &Table, queries: &Queries) -> (r: Result<String, Error>)
    ensures
        text_outcome(r) == order_clause(query@, table@, queries@),
{
    match queries.order() {
        Some(orders) => {
            let mut columns: Vec<String> = Vec::new();
            let mut rendered: Vec<String> = Vec::new();
            let mut i: usize = 0;
            while i < orders.len()
                invariant
                    i <= orders.len(),
                    columns.len() == i,
                    rendered.len() == i,
                    forall|k: int|
                        0 <= k < i ==> (#[trigger] columns@[k])@ == order_columns(
                            order_models(orders@),
                        )[k],
                    forall|k: int|
                        0 <= k < i ==> (#[trigger] rendered@[k])@ == render_order(
                            orders@[k]@,
                            Some(table@.name),
                        ),
                decreases orders.len() - i,
            {
                match &orders[i] {
                    Order::Asc(c) => columns.push(c.clone()),
                    Order::Desc(c) => columns.push(c.clone()),
                }
                rendered.push(crate::ordering::to_string(&orders[i], Some(table.name())));
                i += 1;
            }
            proof {
                assert(texts(columns@) =~= order_columns(order_models(orders@)));
                assert(texts(rendered@) =~= rendered_orders(order_models(orders@), table@.name));
            }
            if let Some(e) = check_columns(table, &columns) {
                return Err(e);
            }
            if orders.len() == 0 {
                return Ok(query);
            }
            let list = join_with(&rendered, ", ");
            let mut r = query;
            r.append(" ");
            r.append("ORDER BY ");
            r.append(list.as_str());
            Ok(r)
        },
        None => Ok(query),
    }
}

/// The statement that reads the rows of a request: the columns, the table, the
/// conditions, the orders, the limit and the offset, in this order. The first part
/// that fails decides the error.
pub open spec fn read_statement(table: TableModel, entries: Seq<(Seq<char>, Seq<char>)>) -> Result<
    Seq<char>,
    ErrorModel,
> {
    match select_clause(Seq::empty(), table, entries) {
        Err(e) => Err(e),
        Ok(selecting) => match where_clause(from_clause(selecting, table.name), table, entries) {
            Err(e) => Err(e),
            Ok(filtered) => match order_clause(filtered, table, entries) {
                Err(e) => Err(e),
                Ok(ordered) => match bound_clause(
                    ordered,
                    " LIMIT "@,
                    "limit"@,
                    lookup(entries, "limit"@),
                ) {
                    Err(e) => Err(e),
                    Ok(limited) => bound_clause(
                        limited,
                        " OFFSET "@,
                        "offset"@,
                        lookup(entries, "offset"@),
                    ),
                },
            },
        },
    }
}

/// The statement that reads the rows of a request, with the columns that it reads.
pub fn query(table: &Table, queries: &Queries) -> (r: Result<(String, Vec<String>), Error>)
    ensures
        match r {
            Ok((text, columns)) => read_statement(table@, queries@) == Ok::<Seq<char>, ErrorModel>(
                text@,
            ) && texts(columns@) == selected(table@, queries@) && unknown_column(
                table@,
                texts(columns@),
            ) is None,
            Err(e) => read_statement(table@, queries@) == Err::<Seq<char>, ErrorModel>(e@),
        },
{
    let (text, columns) = match generate_select(String::new(), table, queries) {
        Ok(pair) => pair,
        Err(e) => {
            return Err(e);
        },
    };
    let text = generate_from(text, table.name());
    let text = match generate_where(text, table, queries) {
        Ok(text) => text,
        Err(e) => {
            return Err(e);
        },
    };
    let text = match generate_order(text, table, queries) {
        Ok(text) => text,
        Err(e) => {
            return Err(e);
        },
    };
    let text = match generate_limit(text, queries) {
        Ok(text) => text,
        Err(e) => {
            return Err(e);
        },
    };
    match generate_offset(text, queries) {
        Ok(text) => Ok((text, columns)),
        Err(e) => Err(e),
    }
}

/// A select list that names a column which the table lacks fails with that column,
/// whatever the filters, the orders, the limit and the offset of the request are.
pub proof fn lemma_unknown_select_fails_first(
    table: TableModel,
    entries: Seq<(Seq<char>, Seq<char>)>,
)
    requires
        unknown_column(table, selected(table, entries)) is Some,
    ensures
        read_statement(table, entries) == Err::<Seq<char>, ErrorModel>(
            unknown_column(table, selected(table, entries))->0,
        ),
        read_statement(table, entries) matches Err(e) && e is UnknownColumn,
{
}

/// A statement that reads rows refers to columns of the table only: in its select
/// list, in its conditions and in its orders.
pub proof fn lemma_read_refers_to_columns(table: TableModel, entries: Seq<(Seq<char>, Seq<char>)>)
    requires
        read_statement(table, entries) is Ok,
    ensures
        forall|i: int|
            0 <= i < selected(table, entries).len() ==> table.has_column(
                #[trigger] selected(table, entries)[i],
            ),
        crate::queries::filters_of(entries) matches Ok(found) && forall|i: int|
            0 <= i < found.len() ==> table.has_column((#[trigger] found[i]).0),
        lookup(entries, "order"@) matches Some(v) ==> forall|i: int|
            0 <= i < order_columns(kept_orders(split(v, ','))).len() ==> table.has_column(
                #[trigger] order_columns(kept_orders(split(v, ',')))[i],
            ),
{
    lemma_all_columns(table, selected(table, entries));
    let selecting = select_clause(Seq::empty(), table, entries)->Ok_0;
    lemma_where_refers_to_columns(from_clause(selecting, table.name), table, entries);
    if let Some(v) = lookup(entries, "order"@) {
        lemma_all_columns(table, order_columns(kept_orders(split(v, ','))));
    }
}

/// The type of the first column of the table with the name.
pub open spec fn column_type(table: TableModel, name: Seq<char>) -> crate::schema::TypeTag {
    table.columns[table.position(name)].data_type
}

/// Whether the first column of the table with the name takes null.
pub open spec fn column_nullable(table: TableModel, name: Seq<char>) -> bool {
    table.columns[table.position(name)].is_nullable
}

/// Whether a row has a value for each column, of a kind that the column holds.
pub open spec fn row_fits(columns: Seq<Seq<char>>, table: TableModel, row: Seq<SqlValue>) -> bool {
    &&& row.len() >= columns.len()
    &&& forall|i: int|
        0 <= i < columns.len() ==> fits(
            #[trigger] row[i],
            column_nullable(table, columns[i]),
            column_type(table, columns[i]),
        )
}

/// The JSON object of a row: each column with the JSON value of its value.
pub open spec fn row_json(columns: Seq<Seq<char>>, table: TableModel, row: Seq<SqlValue>) -> Seq<
    (Seq<char>, JsonModel),
> {
    Seq::new(
        columns.len(),
        |i: int| (columns[i], field_json(row[i], column_type(table, columns[i]))),
    )
}

/// The JSON array of the rows, each as an object.
pub open spec fn rows_json(
    columns: Seq<Seq<char>>,
    table: TableModel,
    rows: Seq<Vec<SqlValue>>,
) -> JsonModel {
    JsonModel::Array(
        Seq::new(rows.len(), |r: int| JsonModel::Object(row_json(columns, table, rows[r]@))),
    )
}

/// One row as a JSON object.
fn collect_row(columns: &Vec<String>, table: &Table, row: &Vec<SqlValue>) -> (v: JsonValue)
    requires
        unknown_column(table@, texts(columns@)) is None,
        row_fits(texts(columns@), table@, row@),
    ensures
        v@ == JsonModel::Object(row_json(texts(columns@), table@, row@)),
{
    let mut entries: Vec<(String, JsonValue)> = Vec::new();
    let mut i: usize = 0;
    proof {
        lemma_missing_at(table@, texts(columns@));
    }
    while i < columns.len()
        invariant
            i <= columns.len(),
            entries.len() == i,
            row_fits(texts(columns@), table@, row@),
            forall|j: int| 0 <= j < columns.len() ==> table@.has_column(#[trigger] texts(columns@)[j]),
            forall|k: int|
                0 <= k < i ==> ((#[trigger] entries@[k]).0@, entries@[k].1@) == row_json(
                    texts(columns@),
                    table@,
                    row@,
                )[k],
        decreases columns.len() - i,
    {
        proof {
            assert(fits(
                row@[i as int],
                column_nullable(table@, texts(columns@)[i as int]),
                column_type(table@, texts(columns@)[i as int]),
            ));
        }
        match table.get_column(columns[i].as_str()) {
            Some(col) => {
                let val = row_field_to_json_value(&row[i], col.is_nullable, col.data_type);
                entries.push((columns[i].clone(), val));
            },
            None => {
            },
        }
        i += 1;
    }
    let v = JsonValue::Object(entries);
    proof {
        lemma_object_view(v);
        assert(v@->Object_0 =~= row_json(texts(columns@), table@, row@));
    }
    v
}

/// The rows of a result as a JSON array of objects, one object for each row with the
/// columns that were read.
pub fn collect_row_to_json(columns: Vec<String>, table: &Table, rows: &Vec<Vec<SqlValue>>) -> (v:
    JsonValue)
    requires
        unknown_column(table@, texts(columns@)) is None,
        forall|r: int| 0 <= r < rows.len() ==> row_fits(texts(columns@), table@, (#[trigger] rows[r])@),
    ensures
        v@ == rows_json(texts(columns@), table@, rows@),
{
    let mut arr: Vec<JsonValue> = Vec::new();
    let mut r: usize = 0;
    while r < rows.len()
        invariant
            r <= rows.len(),
            arr.len() == r,
            unknown_column(table@, texts(columns@)) is None,
            forall|k: int|
                0 <= k < rows.len() ==> row_fits(texts(columns@), table@, (#[trigger] rows[k])@),
            forall|k: int|
                0 <= k < r ==> (#[trigger] arr@[k])@ == JsonModel::Object(
                    row_json(texts(columns@), table@, rows@[k]@),
                ),
        decreases rows.len() - r,
    {
        let val = collect_row(&columns, table, &rows[r]);
        arr.push(val);
        r += 1;
    }
    let v = JsonValue::Array(arr);
    proof {
        lemma_array_view(v);
        assert(v@->Array_0 =~= rows_json(texts(columns@), table@, rows@)->Array_0);
    }
    v
}

/// The JSON array of the ids that a statement returned: the first value of each row.
pub open spec fn ids_json(rows: Seq<Vec<SqlValue>>) -> JsonModel {
    JsonModel::Array(Seq::new(rows.len(), |r: int| cell_json(rows[r]@[0])))
}

/// The ids that a statement returned, as a JSON array.
pub fn collect_ids(rows: &Vec<Vec<SqlValue>>) -> (v: JsonValue)
    requires
        forall|r: int| 0 <= r < rows.len() ==> (#[trigger] rows[r]).len() > 0,
    ensures
        v@ == ids_json(rows@),
{
    let mut arr: Vec<JsonValue> = Vec::new();
    let mut r: usize = 0;
    while r < rows.len()
        invariant
            r <= rows.len(),
            arr.len() == r,
            forall|k: int| 0 <= k < rows.len() ==> (#[trigger] rows[k]).len() > 0,
            forall|k: int| 0 <= k < r ==> (#[trigger] arr@[k])@ == cell_json(rows@[k]@[0]),
        decreases rows.len() - r,
    {
        arr.push(to_json(&rows[r][0], true));
        r += 1;
    }
    let v = JsonValue::Array(arr);
    proof {
        lemma_array_view(v);
        assert(v@->Array_0 =~= ids_json(rows@)->Array_0);
    }
    v
}

} // verus!
