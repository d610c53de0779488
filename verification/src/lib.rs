//! Query generation and filter validation for tables served as REST resources.
//!
//! A request names a method, a table, its parameters and, where it writes, a body.
//! The registry turns it into the action to take: most often a statement to run.
//! Running the statement is left to the caller, who hands the rows back to have them
//! turned into the answer.

pub mod common;
pub mod config;
pub mod cvt;
pub mod delete;
pub mod error;
pub mod filters;
pub mod get;
pub mod infer_schema;
pub mod json;
pub mod method;
pub mod ordering;
pub mod patch;
pub mod post;
pub mod queries;
pub mod response;
pub mod schema;
pub mod text;

use crate::common::unknown_column;
use crate::config::{both_lists_message, Config, ConfigModel};
use crate::cvt::SqlValue;
use crate::delete::delete_statement;
use crate::error::{Error, ErrorModel};
use crate::get::{collect_ids, collect_row_to_json, ids_json, read_statement, row_fits, rows_json, selected};
use crate::infer_schema::{discovered, infer_schema, record_models, well_formed};
use crate::json::{read, read_json, JsonModel, JsonValue};
use crate::method::Method;
use crate::patch::update_statement;
use crate::post::insert_statement;
use crate::queries::Queries;
use crate::schema::{
    find_table, has_table, table_at, table_models, Column, ColumnModel, Table, TableModel,
};
use crate::text::texts;
use vstd::prelude::*;

verus! {

/// What is to be done for a request.
#[derive(Debug)]
pub enum Action {
    /// Nothing is run: this is the answer.
    Reply(JsonValue),
    /// The statement is run, and its rows are the answer: the statement and the
    /// columns that it reads.
    Read(String, Vec<String>),
    /// The statement is run, and the ids that it returns are the answer.
    Write(String),
    /// The statement is run, and the answer is empty.
    Remove(String),
}

/// An [`Action`] with its texts as character sequences.
pub enum ActionModel {
    Reply(JsonModel),
    Read(Seq<char>, Seq<Seq<char>>),
    Write(Seq<char>),
    Remove(Seq<char>),
}

impl View for Action {
    type V = ActionModel;

    open spec fn view(&self) -> ActionModel {
        match self {
            Action::Reply(v) => ActionModel::Reply(v@),
            Action::Read(statement, columns) => ActionModel::Read(statement@, texts(columns@)),
            Action::Write(statement) => ActionModel::Write(statement@),
            Action::Remove(statement) => ActionModel::Remove(statement@),
        }
    }
}

/// The action for a request to read rows of a table.
pub open spec fn plan_get(table: TableModel, entries: Seq<(Seq<char>, Seq<char>)>) -> Result<
    ActionModel,
    ErrorModel,
> {
    match read_statement(table, entries) {
        Ok(statement) => Ok(ActionModel::Read(statement, selected(table, entries))),
        Err(e) => Err(e),
    }
}

/// The action for a request to add a row to a table. The body is read first.
pub open spec fn plan_post(table: TableModel, body: Seq<char>) -> Result<ActionModel, ErrorModel> {
    match read(body) {
        Err(e) => Err(e),
        Ok(v) => match insert_statement(table, v) {
            Ok(statement) => Ok(ActionModel::Write(statement)),
            Err(e) => Err(e),
        },
    }
}

/// The action for a request to replace a row: once the body reads as JSON, the
/// answer is `true`.
pub open spec fn plan_put(body: Seq<char>) -> Result<ActionModel, ErrorModel> {
    match read(body) {
        Err(e) => Err(e),
        Ok(_) => Ok(ActionModel::Reply(JsonModel::Bool(true))),
    }
}

/// The action for a request to change rows of a table. The body is read first.
pub open spec fn plan_patch(
    table: TableModel,
    entries: Seq<(Seq<char>, Seq<char>)>,
    body: Seq<char>,
) -> Result<ActionModel, ErrorModel> {
    match read(body) {
        Err(e) => Err(e),
        Ok(v) => match update_statement(table, entries, v) {
            Ok(statement) => Ok(ActionModel::Write(statement)),
            Err(e) => Err(e),
        },
    }
}

/// The action for a request to remove rows of a table.
pub open spec fn plan_delete(table: TableModel, entries: Seq<(Seq<char>, Seq<char>)>) -> Result<
    ActionModel,
    ErrorModel,
> {
    match delete_statement(table, entries) {
        Ok(statement) => Ok(ActionModel::Remove(statement)),
        Err(e) => Err(e),
    }
}

/// The action for a request: an unknown model where no table has the name, whatever
/// else the request holds; else what the method asks of the table.
pub open spec fn plan(
    tables: Seq<TableModel>,
    method: Method,
    model: Seq<char>,
    entries: Seq<(Seq<char>, Seq<char>)>,
    body: Seq<char>,
) -> Result<ActionModel, ErrorModel> {
    if !has_table(tables, model) {
        Err(ErrorModel::UnknownModel(model))
    } else {
        let table = tables[table_at(tables, model)];
        match method {
            Method::Get => plan_get(table, entries),
            Method::Post => plan_post(table, body),
            Method::Put => plan_put(body),
            Method::Patch => plan_patch(table, entries, body),
            Method::Delete => plan_delete(table, entries),
        }
    }
}

/// An action or an error, with its texts as character sequences.
pub open spec fn planned(r: Result<Action, Error>) -> Result<ActionModel, ErrorModel> {
    match r {
        Ok(a) => Ok(a@),
        Err(e) => Err(e@),
    }
}

/// The tables of a registry: those that the catalog rows describe and the settings
/// let through. Settings that both include and exclude tables are refused.
pub open spec fn registered(records: Seq<(Seq<char>, ColumnModel)>, config: ConfigModel) -> Result<
    Seq<TableModel>,
    Seq<char>,
> {
    if config.has_both_lists() {
        Err(both_lists_message())
    } else {
        Ok(discovered(records, config.included, config.excluded))
    }
}

/// The message for a statement that failed when it was run.
pub open spec fn database_error_message() -> Seq<char> {
    "internal database error"@
}

/// Whether the rows are such as the statement of an action returns: for a read, the
/// table is known and has the columns, and each row has a value for each column, of
/// a kind that the column holds; for a write, each row has an id.
pub open spec fn rows_fit(
    tables: Seq<TableModel>,
    model: Seq<char>,
    action: ActionModel,
    rows: Seq<Vec<SqlValue>>,
) -> bool {
    match action {
        ActionModel::Read(_, columns) => {
            &&& has_table(tables, model)
            &&& unknown_column(tables[table_at(tables, model)], columns) is None
            &&& forall|r: int|
                0 <= r < rows.len() ==> row_fits(
                    columns,
                    tables[table_at(tables, model)],
                    (#[trigger] rows[r])@,
                )
        },
        ActionModel::Write(_) => forall|r: int| 0 <= r < rows.len() ==> (#[trigger] rows[r]).len() > 0,
        _ => true,
    }
}

/// The answer to a request once its action was taken: the reply itself; the rows
/// that were read, as objects; the ids that were returned; or nothing. A statement
/// that failed gives an internal error that does not say why.
pub open spec fn answered(
    tables: Seq<TableModel>,
    model: Seq<char>,
    action: ActionModel,
    rows: Option<Seq<Vec<SqlValue>>>,
) -> Result<Option<JsonModel>, ErrorModel> {
    match action {
        ActionModel::Reply(v) => Ok(Some(v)),
        _ => match rows {
            None => Err(ErrorModel::InternalError(database_error_message())),
            Some(found) => match action {
                ActionModel::Read(_, columns) => Ok(
                    Some(rows_json(columns, tables[table_at(tables, model)], found)),
                ),
                ActionModel::Write(_) => Ok(Some(ids_json(found))),
                _ => Ok(None),
            },
        },
    }
}

/// An answer or an error, with its texts as character sequences.
pub open spec fn answer_model(r: Result<Option<JsonValue>, Error>) -> Result<
    Option<JsonModel>,
    ErrorModel,
> {
    match r {
        Ok(Some(v)) => Ok(Some(v@)),
        Ok(None) => Ok(None),
        Err(e) => Err(e@),
    }
}

/// The registry: the tables that are served.
#[derive(Debug)]
pub struct Arrakis {
    tables: Vec<Table>,
}

impl View for Arrakis {
    type V = Seq<TableModel>;

    closed spec fn view(&self) -> Seq<TableModel> {
        table_models(self.tables@)
    }
}

impl Arrakis {
    /// The registry of the tables that the catalog rows describe.
    pub fn new(records: &Vec<(String, Column)>) -> (r: Result<Arrakis, String>)
        ensures
            r matches Ok(a) && a@ == discovered(
                record_models(records@),
                Seq::empty(),
                Seq::empty(),
            ) && well_formed(a@),
    {
        Arrakis::with_config(records, Config::default())
    }

    /// The registry of the tables that the catalog rows describe and the settings
    /// let through.
    pub fn with_config(records: &Vec<(String, Column)>, config: Config) -> (r: Result<
        Arrakis,
        String,
    >)
        ensures
            match r {
                Ok(a) => registered(record_models(records@), config@) == Ok::<
                    Seq<TableModel>,
                    Seq<char>,
                >(a@),
                Err(e) => registered(record_models(records@), config@) == Err::<
                    Seq<TableModel>,
                    Seq<char>,
                >(e@),
            },
            r matches Ok(a) ==> well_formed(a@),
    {
        match config.check() {
            Ok(_) => {},
            Err(message) => {
                return Err(message);
            },
        }
        let tables = infer_schema(records, config.included(), config.excluded());
        Ok(Arrakis { tables })
    }

    /// The tables that are served.
    pub fn get_tables(&self) -> (tables: &Vec<Table>)
        ensures
            table_models(tables@) == self@,
    {
        &self.tables
    }

    /// The action for a request, by its method.
    pub fn any(&self, method: &Method, model: &str, queries: &Queries, body: String) -> (r: Result<
        Action,
        Error,
    >)
        ensures
            planned(r) == plan(self@, *method, model@, queries@, body@),
    {
        match method {
            Method::Get => self.get(model, queries),
            Method::Post => self.post(model, queries, body),
            Method::Put => self.put(model, queries, body),
            Method::Patch => self.patch(model, queries, body),
            Method::Delete => self.delete(model, queries),
        }
    }

    /// The action for a request to read rows.
    pub fn get(&self, model: &str, queries: &Queries) -> (r: Result<Action, Error>)
        ensures
            planned(r) == plan(self@, Method::Get, model@, queries@, Seq::empty()),
            forall|body: Seq<char>|
                planned(r) == #[trigger] plan(self@, Method::Get, model@, queries@, body),
    {
        let at = match self.model_exists(model) {
            Ok(at) => at,
            Err(e) => {
                return Err(e);
            },
        };
        match get::query(&self.tables[at], queries) {
            Ok((statement, columns)) => Ok(Action::Read(statement, columns)),
            Err(e) => Err(e),
        }
    }

    /// The action for a request to add a row.
    pub fn post(&self, model: &str, queries: &Queries, body: String) -> (r: Result<Action, Error>)
        ensures
            planned(r) == plan(self@, Method::Post, model@, queries@, body@),
    {
        let at = match self.model_exists(model) {
            Ok(at) => at,
            Err(e) => {
                return Err(e);
            },
        };
        let body = match read_json(body.as_str()) {
            Ok(body) => body,
            Err(e) => {
                return Err(e);
            },
        };
        match post::query(&self.tables[at], queries, &body) {
            Ok(statement) => Ok(Action::Write(statement)),
            Err(e) => Err(e),
        }
    }

    /// The action for a request to replace a row.
    pub fn put(&self, model: &str, queries: &Queries, body: String) -> (r: Result<Action, Error>)
        ensures
            planned(r) == plan(self@, Method::Put, model@, queries@, body@),
    {
        match self.model_exists(model) {
            Ok(_) => {},
            Err(e) => {
                return Err(e);
            },
        }
        match read_json(body.as_str()) {
            Ok(_) => Ok(Action::Reply(JsonValue::Bool(true))),
            Err(e) => Err(e),
        }
    }

    /// The action for a request to change rows.
    pub fn patch(&self, model: &str, queries: &Queries, body: String) -> (r: Result<Action, Error>)
        ensures
            planned(r) == plan(self@, Method::Patch, model@, queries@, body@),
    {
        let at = match self.model_exists(model) {
            Ok(at) => at,
            Err(e) => {
                return Err(e);
            },
        };
        let body = match read_json(body.as_str()) {
            Ok(body) => body,
            Err(e) => {
                return Err(e);
            },
        };
        match patch::query(&self.tables[at], queries, &body) {
            Ok(statement) => Ok(Action::Write(statement)),
            Err(e) => Err(e),
        }
    }

    /// The action for a request to remove rows.
    pub fn delete(&self, model: &str, queries: &Queries) -> (r: Result<Action, Error>)
        ensures
            planned(r) == plan(self@, Method::Delete, model@, queries@, Seq::empty()),
            forall|body: Seq<char>|
                planned(r) == #[trigger] plan(self@, Method::Delete, model@, queries@, body),
    {
        let at = match self.model_exists(model) {
            Ok(at) => at,
            Err(e) => {
                return Err(e);
            },
        };
        match delete::query(&self.tables[at], queries) {
            Ok(statement) => Ok(Action::Remove(statement)),
            Err(e) => Err(e),
        }
    }

    /// Where the table of the name stands, or an unknown model.
    fn model_exists(&self, model: &str) -> (r: Result<usize, Error>)
        ensures
            match r {
                Ok(at) => has_table(self@, model@) && at == table_at(self@, model@) && at
                    < self.tables.len(),
                Err(e) => !has_table(self@, model@) && e@ == ErrorModel::UnknownModel(model@),
            },
    {
        let at = find_table(&self.tables, model);
        if at < self.tables.len() {
            Ok(at)
        } else {
            Err(Error::UnknownModel(String::from_str(model)))
        }
    }

    /// The answer to a request once its action was taken: `rows` holds what the
    /// statement returned, or nothing where it failed.
    pub fn finish(&self, model: &str, action: Action, rows: Option<Vec<Vec<SqlValue>>>) -> (r:
        Result<Option<JsonValue>, Error>)
        requires
            rows matches Some(found) ==> rows_fit(self@, model@, action@, found@),
        ensures
            answer_model(r) == answered(
                self@,
                model@,
                action@,
                match rows {
                    Some(found) => Some(found@),
                    None => None,
                },
            ),
    {
        match action {
            Action::Reply(v) => Ok(Some(v)),
            Action::Read(_, columns) => match rows {
                Some(found) => {
                    let at = find_table(&self.tables, model);
                    Ok(Some(collect_row_to_json(columns, &self.tables[at], &found)))
                },
                None => Err(Error::InternalError(String::from_str("internal database error"))),
            },
            Action::Write(_) => match rows {
                Some(found) => Ok(Some(collect_ids(&found))),
                None => Err(Error::InternalError(String::from_str("internal database error"))),
            },
            Action::Remove(_) => match rows {
                Some(_) => Ok(None),
                None => Err(Error::InternalError(String::from_str("internal database error"))),
            },
        }
    }
}

/// A request for a table that the registry does not hold is answered with an
/// unknown model, whatever its method, its parameters and its body are.
pub proof fn lemma_unknown_model(
    tables: Seq<TableModel>,
    method: Method,
    model: Seq<char>,
    entries: Seq<(Seq<char>, Seq<char>)>,
    body: Seq<char>,
)
    requires
        !has_table(tables, model),
    ensures
        plan(tables, method, model, entries, body) == Err::<ActionModel, ErrorModel>(
            ErrorModel::UnknownModel(model),
        ),
{
}

/// A request to read a known table whose select list names a column that the table
/// lacks is answered with that unknown column, whatever its filters, its orders, its
/// limit and its offset are.
pub proof fn lemma_unknown_select(
    tables: Seq<TableModel>,
    model: Seq<char>,
    entries: Seq<(Seq<char>, Seq<char>)>,
    body: Seq<char>,
)
    requires
        has_table(tables, model),
        unknown_column(
            tables[table_at(tables, model)],
            selected(tables[table_at(tables, model)], entries),
        ) is Some,
    ensures
        plan(tables, Method::Get, model, entries, body) == Err::<ActionModel, ErrorModel>(
            unknown_column(
                tables[table_at(tables, model)],
                selected(tables[table_at(tables, model)], entries),
            )->0,
        ),
{
}

} // verus!
