//! Tables and their columns, as the database describes them.

use crate::text::str_eq;
use vstd::prelude::*;

verus! {

/// The type of the values of a column.
#[derive(Debug, Clone, Copy, PartialEq, Eq, Structural)]
pub enum TypeTag {
    Bool,
    Char,
    Int2,
    Int4,
    Int8,
    Float4,
    Float8,
    Varchar,
    Text,
    Timestamp,
    Unknown,
}

/// One column of a table.
#[derive(Debug)]
pub struct Column {
    pub name: String,
    pub default: Option<String>,
    pub is_nullable: bool,
    pub data_type: TypeTag,
    pub character_maximum_length: Option<i32>,
    pub is_updatable: bool,
}

/// A [`Column`] with its texts as character sequences.
pub struct ColumnModel {
    pub name: Seq<char>,
    pub default: Option<Seq<char>>,
    pub is_nullable: bool,
    pub data_type: TypeTag,
    pub character_maximum_length: Option<i32>,
    pub is_updatable: bool,
}

impl View for Column {
    type V = ColumnModel;

    open spec fn view(&self) -> ColumnModel {
        ColumnModel {
            name: self.name@,
            default: match self.default {
                Some(d) => Some(d@),
                None => None,
            },
            is_nullable: self.is_nullable,
            data_type: self.data_type,
            character_maximum_length: self.character_maximum_length,
            is_updatable: self.is_updatable,
        }
    }
}

/// A table: its name and its columns, no two of them with one name.
#[derive(Debug)]
pub struct Table {
    name: String,
    columns: Vec<Column>,
}

/// A [`Table`] with its texts as character sequences.
pub struct TableModel {
    pub name: Seq<char>,
    pub columns: Seq<ColumnModel>,
}

impl TableModel {
    /// The names of the columns, in the order of the columns.
    pub open spec fn column_names(self) -> Seq<Seq<char>> {
        Seq::new(self.columns.len(), |i: int| self.columns[i].name)
    }

    /// Whether a column has the name.
    pub open spec fn has_column(self, name: Seq<char>) -> bool {
        exists|i: int| 0 <= i < self.columns.len() && (#[trigger] self.columns[i]).name == name
    }

    /// The position of the first column with the name, or the number of columns when
    /// none has it.
    pub open spec fn position(self, name: Seq<char>) -> int
        decreases self.columns.len(),
    {
        if self.columns.len() == 0 {
            0
        } else if self.columns[0].name == name {
            0
        } else {
            1 + (TableModel { name: self.name, columns: self.columns.drop_first() }).position(
                name,
            )
        }
    }

    /// Whether no two columns have one name.
    pub open spec fn wf(self) -> bool {
        forall|i: int, j: int|
            0 <= i < j < self.columns.len() ==> (#[trigger] self.columns[i]).name != (
            #[trigger] self.columns[j]).name
    }

    /// The table with the column: in place of the one that had its name, or last.
    pub open spec fn with_column(self, column: ColumnModel) -> TableModel {
        let at = self.position(column.name);
        if 0 <= at < self.columns.len() {
            TableModel { name: self.name, columns: self.columns.update(at, column) }
        } else {
            TableModel { name: self.name, columns: self.columns.push(column) }
        }
    }
}

impl View for Table {
    type V = TableModel;

    closed spec fn view(&self) -> TableModel {
        TableModel {
            name: self.name@,
            columns: Seq::new(self.columns@.len(), |i: int| self.columns@[i]@),
        }
    }
}

/// The position of a name lies among the columns or at their end: the column at it,
/// if there is one, has the name, and no column before it has; and it lies among the
/// columns just when some column has the name.
pub proof fn lemma_position(t: TableModel, name: Seq<char>)
    ensures
        0 <= t.position(name) <= t.columns.len(),
        t.position(name) < t.columns.len() ==> t.columns[t.position(name)].name == name,
        forall|j: int| 0 <= j < t.position(name) ==> (#[trigger] t.columns[j]).name != name,
        t.has_column(name) <==> t.position(name) < t.columns.len(),
    decreases t.columns.len(),
{
    if t.columns.len() > 0 && t.columns[0].name != name {
        let rest = TableModel { name: t.name, columns: t.columns.drop_first() };
        lemma_position(rest, name);
        assert forall|j: int| 0 <= j < t.position(name) implies (#[trigger] t.columns[j]).name
            != name by {
            if j > 0 {
                assert(t.columns[j] == rest.columns[j - 1]);
            }
        }
        if t.has_column(name) {
            let i = choose|i: int| 0 <= i < t.columns.len() && (#[trigger] t.columns[i]).name == name;
            assert(rest.columns[i - 1].name == name);
        }
        if rest.has_column(name) {
            let i = choose|i: int|
                0 <= i < rest.columns.len() && (#[trigger] rest.columns[i]).name == name;
            assert(t.columns[i + 1].name == name);
        }
    }
}

/// A table that takes a column keeps its columns apart by name.
pub proof fn lemma_with_column_wf(t: TableModel, column: ColumnModel)
    requires
        t.wf(),
    ensures
        t.with_column(column).wf(),
{
    lemma_position(t, column.name);
}

impl Table {
    /// A table without columns.
    pub fn new(name: &str) -> (t: Table)
        ensures
            t@ == (TableModel { name: name@, columns: Seq::empty() }),
            t@.wf(),
    {
        let t = Table { name: String::from_str(name), columns: Vec::new() };
        proof {
            assert(t@.columns =~= Seq::<ColumnModel>::empty());
        }
        t
    }

    /// The name of the table.
    pub fn name(&self) -> (name: &str)
        ensures
            name@ == self@.name,
    {
        self.name.as_str()
    }

    /// The columns of the table.
    pub fn columns(&self) -> (columns: &Vec<Column>)
        ensures
            columns@.len() == self@.columns.len(),
            forall|i: int| 0 <= i < columns@.len() ==> (#[trigger] columns@[i])@ == self@.columns[i],
    {
        &self.columns
    }

    /// The position of the first column with the name, or the number of columns.
    fn find(&self, name: &str) -> (at: usize)
        ensures
            at == self@.position(name@),
            at <= self.columns.len(),
            self@.has_column(name@) <==> at < self.columns.len(),
    {
        let mut i: usize = 0;
        while i < self.columns.len() && !str_eq(self.columns[i].name.as_str(), name)
            invariant
                i <= self.columns.len(),
                forall|j: int| 0 <= j < i ==> (#[trigger] self@.columns[j]).name != name@,
            decreases self.columns.len() - i,
        {
            i += 1;
        }
        proof {
            lemma_position(self@, name@);
            let p = self@.position(name@);
            if i < p {
                assert(self@.columns[i as int].name != name@);
            }
        }
        i
    }

    /// Adds a column, in place of the one that had its name, if any.
    pub fn add_column(&mut self, column: Column)
        ensures
            final(self)@ == old(self)@.with_column(column@),
            old(self)@.wf() ==> final(self)@.wf(),
    {
        let at = self.find(column.name.as_str());
        proof {
            if self@.wf() {
                lemma_with_column_wf(self@, column@);
            }
        }
        if at < self.columns.len() {
            self.columns[at] = column;
            proof {
                assert(self@.columns =~= old(self)@.columns.update(at as int, column@));
            }
        } else {
            self.columns.push(column);
            proof {
                assert(self@.columns =~= old(self)@.columns.push(column@));
            }
        }
    }

    /// Whether the table has a column of that name.
    pub fn contains_column(&self, name: &str) -> (has: bool)
        ensures
            has == self@.has_column(name@),
    {
        self.find(name) < self.columns.len()
    }

    /// The column of that name, if the table has one.
    pub fn get_column(&self, name: &str) -> (column: Option<&Column>)
        ensures
            match column {
                Some(c) => self@.has_column(name@) && c@ == self@.columns[self@.position(name@)],
                None => !self@.has_column(name@),
            },
    {
        let at = self.find(name);
        if at < self.columns.len() {
            Some(&self.columns[at])
        } else {
            None
        }
    }

    /// The names of the columns, in the order of the columns.
    pub fn column_names(&self) -> (names: Vec<String>)
        ensures
            crate::text::texts(names@) == self@.column_names(),
    {
        let mut names: Vec<String> = Vec::new();
        let mut i: usize = 0;
        while i < self.columns.len()
            invariant
                i <= self.columns.len(),
                names.len() == i,
                forall|k: int| 0 <= k < i ==> (#[trigger] names@[k])@ == self@.columns[k].name,
            decreases self.columns.len() - i,
        {
            names.push(self.columns[i].name.clone());
            i += 1;
        }
        names
    }
}

impl Column {
    /// A column with the same values.
    pub fn duplicate(&self) -> (c: Column)
        ensures
            c@ == self@,
    {
        Column {
            name: self.name.clone(),
            default: match &self.default {
                Some(d) => Some(d.clone()),
                None => None,
            },
            is_nullable: self.is_nullable,
            data_type: self.data_type,
            character_maximum_length: self.character_maximum_length,
            is_updatable: self.is_updatable,
        }
    }
}

/// The tables that a vector holds.
pub open spec fn table_models(tables: Seq<Table>) -> Seq<TableModel> {
    Seq::new(tables.len(), |i: int| tables[i]@)
}

/// The position of the first table with the name, or the number of tables when none
/// has it.
pub open spec fn table_at(tables: Seq<TableModel>, name: Seq<char>) -> int
    decreases tables.len(),
{
    if tables.len() == 0 {
        0
    } else if tables[0].name == name {
        0
    } else {
        1 + table_at(tables.drop_first(), name)
    }
}

/// Whether a table has the name.
pub open spec fn has_table(tables: Seq<TableModel>, name: Seq<char>) -> bool {
    0 <= table_at(tables, name) < tables.len()
}

/// The position of a name lies among the tables or at their end: the table at it,
/// if there is one, has the name, and no table before it has.
pub proof fn lemma_table_at(tables: Seq<TableModel>, name: Seq<char>)
    ensures
        0 <= table_at(tables, name) <= tables.len(),
        table_at(tables, name) < tables.len() ==> tables[table_at(tables, name)].name == name,
        forall|j: int| 0 <= j < table_at(tables, name) ==> (#[trigger] tables[j]).name != name,
    decreases tables.len(),
{
    if tables.len() > 0 && tables[0].name != name {
        let rest = tables.drop_first();
        lemma_table_at(rest, name);
        assert forall|j: int| 0 <= j < table_at(tables, name) implies (#[trigger] tables[j]).name
            != name by {
            if j > 0 {
                assert(tables[j] == rest[j - 1]);
            }
        }
    }
}

/// The position of the first of `tables` with the name, or their number.
pub fn find_table(tables: &Vec<Table>, name: &str) -> (at: usize)
    ensures
        at == table_at(table_models(tables@), name@),
        at <= tables.len(),
{
    let mut i: usize = 0;
    while i < tables.len() && !str_eq(tables[i].name(), name)
        invariant
            i <= tables.len(),
            forall|j: int| 0 <= j < i ==> (#[trigger] table_models(tables@)[j]).name != name@,
        decreases tables.len() - i,
    {
        i += 1;
    }
    proof {
        let models = table_models(tables@);
        lemma_table_at(models, name@);
        let p = table_at(models, name@);
        if i < p {
            assert(models[i as int].name != name@);
        }
    }
    i
}

} // verus!
