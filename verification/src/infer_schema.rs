//! The tables of a database, put together from the description of its columns.

use crate::config::slices;
use crate::schema::{
    find_table, lemma_table_at, lemma_with_column_wf, table_at, table_models, Column, ColumnModel,
    Table, TableModel, TypeTag,
};
use crate::text::str_eq;
use vstd::prelude::*;

verus! {

/// Whether the catalog said yes.
pub fn as_bool(s: String) -> (b: bool)
    requires
        s@ == "YES"@ || s@ == "NO"@,
    ensures
        b == (s@ == "YES"@),
{
    str_eq(s.as_str(), "YES")
}

/// A column as one row of the catalog describes it. The two flags are written `YES`
/// or `NO`.
pub fn get_column(
    name: String,
    default: Option<String>,
    is_nullable: String,
    ty: TypeTag,
    character_maximum_length: Option<i32>,
    is_updatable: String,
) -> (c: Column)
    requires
        is_nullable@ == "YES"@ || is_nullable@ == "NO"@,
        is_updatable@ == "YES"@ || is_updatable@ == "NO"@,
    ensures
        c.name == name,
        c.default == default,
        c.is_nullable == (is_nullable@ == "YES"@),
        c.data_type == ty,
        c.character_maximum_length == character_maximum_length,
        c.is_updatable == (is_updatable@ == "YES"@),
{
    Column {
        name,
        default,
        is_nullable: as_bool(is_nullable),
        data_type: ty,
        character_maximum_length,
        is_updatable: as_bool(is_updatable),
    }
}

/// Whether a table is served: one of the included tables where there are any, else
/// any table that is not excluded.
pub open spec fn permitted(
    name: Seq<char>,
    included: Seq<Seq<char>>,
    excluded: Seq<Seq<char>>,
) -> bool {
    if included.len() > 0 {
        included.contains(name)
    } else {
        !excluded.contains(name)
    }
}

/// The tables with one more column: in the first table of that name, or in a new
/// table behind the others.
pub open spec fn with_record(tables: Seq<TableModel>, name: Seq<char>, column: ColumnModel) -> Seq<
    TableModel,
> {
    let at = table_at(tables, name);
    if 0 <= at < tables.len() {
        tables.update(at, tables[at].with_column(column))
    } else {
        tables.push((TableModel { name, columns: Seq::empty() }).with_column(column))
    }
}

/// The columns that a vector of catalog rows describes, each with its table.
pub open spec fn record_models(records: Seq<(String, Column)>) -> Seq<(Seq<char>, ColumnModel)> {
    Seq::new(records.len(), |i: int| (records[i].0@, records[i].1@))
}

/// The tables that the catalog rows describe, without the tables that are not
/// served: each table where its first column stands, with its columns in the order
/// of the rows.
pub open spec fn discovered(
    records: Seq<(Seq<char>, ColumnModel)>,
    included: Seq<Seq<char>>,
    excluded: Seq<Seq<char>>,
) -> Seq<TableModel>
    decreases records.len(),
{
    if records.len() == 0 {
        Seq::empty()
    } else {
        let rest = discovered(records.drop_last(), included, excluded);
        let (name, column) = records.last();
        if permitted(name, included, excluded) {
            with_record(rest, name, column)
        } else {
            rest
        }
    }
}

/// Whether the tables are such as a registry holds: no two of them with one name, and
/// none with two columns of one name.
pub open spec fn well_formed(tables: Seq<TableModel>) -> bool {
    &&& forall|i: int, j: int|
        0 <= i < j < tables.len() ==> (#[trigger] tables[i]).name != (#[trigger] tables[j]).name
    &&& forall|i: int| 0 <= i < tables.len() ==> (#[trigger] tables[i]).wf()
}

/// Tables that take one more column stay well formed.
pub proof fn lemma_with_record_well_formed(
    tables: Seq<TableModel>,
    name: Seq<char>,
    column: ColumnModel,
)
    requires
        well_formed(tables),
    ensures
        well_formed(with_record(tables, name, column)),
{
    lemma_table_at(tables, name);
    let at = table_at(tables, name);
    let after = with_record(tables, name, column);
    if 0 <= at < tables.len() {
        lemma_with_column_wf(tables[at], column);
        assert forall|i: int| 0 <= i < after.len() implies (#[trigger] after[i]).name
            == tables[i].name && after[i].wf() by {
            if i != at {
                assert(after[i] == tables[i]);
            }
        }
    } else {
        let added = (TableModel { name, columns: Seq::empty() });
        lemma_with_column_wf(added, column);
        assert forall|i: int| 0 <= i < tables.len() implies (#[trigger] after[i]) == tables[i] by {}
    }
}

/// The tables that catalog rows describe are well formed.
pub proof fn lemma_discovered_well_formed(
    records: Seq<(Seq<char>, ColumnModel)>,
    included: Seq<Seq<char>>,
    excluded: Seq<Seq<char>>,
)
    ensures
        well_formed(discovered(records, included, excluded)),
    decreases records.len(),
{
    if records.len() > 0 {
        lemma_discovered_well_formed(records.drop_last(), included, excluded);
        let rest = discovered(records.drop_last(), included, excluded);
        lemma_with_record_well_formed(rest, records.last().0, records.last().1);
    }
}

/// Whether one of `names` is `name`.
pub fn contains_name(names: &[&str], name: &str) -> (found: bool)
    ensures
        found == slices(names@).contains(name@),
{
    let mut i: usize = 0;
    while i < names.len()
        invariant
            i <= names.len(),
            forall|j: int| 0 <= j < i ==> slices(names@)[j] != name@,
        decreases names.len() - i,
    {
        if str_eq(names[i], name) {
            proof {
                assert(slices(names@)[i as int] == name@);
            }
            return true;
        }
        i += 1;
    }
    false
}

/// The tables that the catalog rows describe, without the tables that are not served.
pub fn infer_schema(records: &Vec<(String, Column)>, included: &[&str], excluded: &[&str]) -> (tables:
    Vec<Table>)
    ensures
        table_models(tables@) == discovered(
            record_models(records@),
            slices(included@),
            slices(excluded@),
        ),
        well_formed(table_models(tables@)),
{
    proof {
        lemma_discovered_well_formed(
            record_models(records@),
            slices(included@),
            slices(excluded@),
        );
    }
    let mut tables: Vec<Table> = Vec::new();
    let ghost all = record_models(records@);
    let mut i: usize = 0;
    while i < records.len()
        invariant
            i <= records.len(),
            all == record_models(records@),
            table_models(tables@) == discovered(
                all.take(i as int),
                slices(included@),
                slices(excluded@),
            ),
        decreases records.len() - i,
    {
        proof {
            assert(all.take(i + 1).drop_last() =~= all.take(i as int));
        }
        let name = records[i].0.as_str();
        let served = if included.len() > 0 {
            contains_name(included, name)
        } else {
            !contains_name(excluded, name)
        };
        if served {
            let at = find_table(&tables, name);
            if at < tables.len() {
                let mut table = tables.remove(at);
                table.add_column(records[i].1.duplicate());
                tables.insert(at, table);
            } else {
                let mut table = Table::new(name);
                table.add_column(records[i].1.duplicate());
                tables.push(table);
            }
        }
        i += 1;
    }
    proof {
        assert(all.take(records.len() as int) =~= all);
    }
    tables
}

} // verus!
