//! The schema snapshot: tables, their columns, and the text form in which a
//! snapshot is shown to the query generator.
use crate::text::{lemma_occurs_between, lemma_occurs_within, occurs_in};
use vstd::prelude::*;
use vstd::string::StringExecFns;

verus! {

/// One row of the table listing: the name of a table.
#[derive(Debug, Clone)]
pub struct TableName {
    pub table_name: String,
}

/// One column of a table: its name and its declared type.
#[derive(Debug, Clone)]
pub struct ColumnName {
    pub column_name: String,
    pub data_type: String,
}

/// One table with its columns in the order in which they were read.
#[derive(Debug)]
pub struct TableSchema {
    pub table_name: String,
    pub field_columns: Vec<ColumnName>,
}

/// A point-in-time description of a database. The empty snapshot is valid
/// and stands for "no schema available".
#[derive(Debug)]
pub struct DatabaseSchema {
    pub schemas: Vec<TableSchema>,
}

/// What a column is, as plain text.
pub struct ColumnView {
    pub name: Seq<char>,
    pub data_type: Seq<char>,
}

/// What a table is, as plain text.
pub struct TableView {
    pub name: Seq<char>,
    pub columns: Seq<ColumnView>,
}

impl View for TableName {
    type V = Seq<char>;

    open spec fn view(&self) -> Seq<char> {
        self.table_name@
    }
}

impl View for ColumnName {
    type V = ColumnView;

    open spec fn view(&self) -> ColumnView {
        ColumnView { name: self.column_name@, data_type: self.data_type@ }
    }
}

/// The views of a sequence of columns.
pub open spec fn columns_view(cols: Seq<ColumnName>) -> Seq<ColumnView> {
    Seq::new(cols.len(), |i: int| cols[i]@)
}

impl View for TableSchema {
    type V = TableView;

    open spec fn view(&self) -> TableView {
        TableView { name: self.table_name@, columns: columns_view(self.field_columns@) }
    }
}

/// The views of a sequence of tables.
pub open spec fn tables_view(tables: Seq<TableSchema>) -> Seq<TableView> {
    Seq::new(tables.len(), |i: int| tables[i]@)
}

impl View for DatabaseSchema {
    type V = Seq<TableView>;

    open spec fn view(&self) -> Seq<TableView> {
        tables_view(self.schemas@)
    }
}

/// The line that shows one column: two spaces, a dash, the name, and the
/// declared type in parentheses.
pub open spec fn column_line(c: ColumnView) -> Seq<char> {
    "  - "@ + c.name + " ("@ + c.data_type + ")\n"@
}

/// The lines of a run of columns, one after the other.
pub open spec fn columns_text(cols: Seq<ColumnView>) -> Seq<char>
    decreases cols.len(),
{
    if cols.len() == 0 {
        Seq::empty()
    } else {
        column_line(cols[0]) + columns_text(cols.drop_first())
    }
}

/// The line that opens a table: the word `Table`, the name in double
/// quotes, and a colon.
pub open spec fn header_line(name: Seq<char>) -> Seq<char> {
    "Table \""@ + name + "\":\n"@
}

/// A table's header line followed by its column lines.
pub open spec fn table_block(t: TableView) -> Seq<char> {
    header_line(t.name) + columns_text(t.columns)
}

/// The text of a whole snapshot: the table blocks in order, with one blank
/// line between two neighbours. The empty snapshot has the empty text.
pub open spec fn schema_text(tables: Seq<TableView>) -> Seq<char>
    decreases tables.len(),
{
    if tables.len() == 0 {
        Seq::empty()
    } else if tables.len() == 1 {
        table_block(tables[0])
    } else {
        table_block(tables[0]) + "\n"@ + schema_text(tables.drop_first())
    }
}

/// The text of a run of columns holds the line of each of them.
pub proof fn lemma_columns_text_holds_each(cols: Seq<ColumnView>, j: int)
    requires
        0 <= j < cols.len(),
    ensures
        occurs_in(columns_text(cols), column_line(cols[j])),
    decreases cols.len(),
{
    let rest = columns_text(cols.drop_first());
    if j == 0 {
        assert(columns_text(cols) == Seq::<char>::empty() + column_line(cols[0]) + rest);
        lemma_occurs_between(Seq::empty(), column_line(cols[0]), rest);
    } else {
        lemma_columns_text_holds_each(cols.drop_first(), j - 1);
        assert(columns_text(cols) == column_line(cols[0]) + rest + Seq::<char>::empty());
        lemma_occurs_between(column_line(cols[0]), rest, Seq::empty());
        lemma_occurs_within(columns_text(cols), rest, column_line(cols[j]));
    }
}

/// The text of a snapshot holds the block of each of its tables.
pub proof fn lemma_schema_text_holds_each(tables: Seq<TableView>, i: int)
    requires
        0 <= i < tables.len(),
    ensures
        occurs_in(schema_text(tables), table_block(tables[i])),
    decreases tables.len(),
{
    let block = table_block(tables[0]);
    if tables.len() == 1 {
        assert(schema_text(tables) == Seq::<char>::empty() + block + Seq::<char>::empty());
        lemma_occurs_between(Seq::empty(), block, Seq::empty());
    } else {
        let rest = schema_text(tables.drop_first());
        if i == 0 {
            assert(schema_text(tables) == Seq::<char>::empty() + block + ("\n"@ + rest));
            lemma_occurs_between(Seq::empty(), block, "\n"@ + rest);
        } else {
            lemma_schema_text_holds_each(tables.drop_first(), i - 1);
            assert(schema_text(tables) == (block + "\n"@) + rest + Seq::<char>::empty());
            lemma_occurs_between(block + "\n"@, rest, Seq::empty());
            lemma_occurs_within(schema_text(tables), rest, table_block(tables[i]));
        }
    }
}

/// The text of a snapshot names every table and every column: it holds the
/// header line of each table and the line of each of its columns.
pub proof fn lemma_schema_text_names_everything(tables: Seq<TableView>, i: int, j: int)
    requires
        0 <= i < tables.len(),
    ensures
        occurs_in(schema_text(tables), header_line(tables[i].name)),
        0 <= j < tables[i].columns.len() ==> occurs_in(
            schema_text(tables),
            column_line(tables[i].columns[j]),
        ),
{
    let t = tables[i];
    let block = table_block(t);
    lemma_schema_text_holds_each(tables, i);
    assert(block == Seq::<char>::empty() + header_line(t.name) + columns_text(t.columns));
    lemma_occurs_between(Seq::empty(), header_line(t.name), columns_text(t.columns));
    lemma_occurs_within(schema_text(tables), block, header_line(t.name));
    if 0 <= j < t.columns.len() {
        lemma_columns_text_holds_each(t.columns, j);
        assert(block == header_line(t.name) + columns_text(t.columns) + Seq::<char>::empty());
        lemma_occurs_between(header_line(t.name), columns_text(t.columns), Seq::empty());
        lemma_occurs_within(block, columns_text(t.columns), column_line(t.columns[j]));
        lemma_occurs_within(schema_text(tables), block, column_line(t.columns[j]));
    }
}

impl TableName {
    /// The name as an owned string.
    pub fn to_string(&self) -> (s: String)
        ensures
            s@ == self@,
    {
        self.table_name.clone()
    }
}

impl ColumnName {
    /// The column's name alone, as it is shown where no type is wanted.
    pub fn to_string(&self) -> (s: String)
        ensures
            s@ == self@.name,
    {
        self.column_name.clone()
    }

    /// Appends this column's line to `out`.
    pub fn render_into(&self, out: &mut String)
        ensures
            final(out)@ == old(out)@ + column_line(self@),
    {
        out.append("  - ");
        out.append(self.column_name.as_str());
        out.append(" (");
        out.append(self.data_type.as_str());
        out.append(")\n");
    }
}

impl Default for TableSchema {
    fn default() -> (t: Self)
        ensures
            t@.name == Seq::<char>::empty(),
            t@.columns == Seq::<ColumnView>::empty(),
    {
        let t = Self { table_name: String::new(), field_columns: Vec::new() };
        assert(t@.columns =~= Seq::<ColumnView>::empty());
        t
    }
}

impl TableSchema {
    /// Appends this table's header and column lines to `out`.
    pub fn render_into(&self, out: &mut String)
        ensures
            final(out)@ == old(out)@ + table_block(self@),
    {
        out.append("Table \"");
        out.append(self.table_name.as_str());
        out.append("\":\n");
        let ghost head = out@;
        let ghost cols = self@.columns;
        let n = self.field_columns.len();
        let mut i: usize = 0;
        assert(cols.skip(0) == cols);
        while i < n
            invariant
                i <= n == self.field_columns.len(),
                cols == self@.columns,
                out@ + columns_text(cols.skip(i as int)) == head + columns_text(cols),
            decreases n - i,
        {
            let ghost before = out@;
            self.field_columns[i].render_into(out);
            proof {
                let rest = cols.skip(i as int);
                assert(rest[0] == self.field_columns@[i as int]@);
                assert(rest.drop_first() == cols.skip(i + 1));
                assert(before + (column_line(rest[0]) + columns_text(rest.drop_first())) == (before
                    + column_line(rest[0])) + columns_text(rest.drop_first()));
            }
            i += 1;
        }
        assert(out@ + Seq::<char>::empty() == out@);
        assert(old(out)@ + (header_line(self@.name) + columns_text(cols)) == head + columns_text(
            cols,
        ));
    }
}

impl Default for DatabaseSchema {
    fn default() -> (d: Self)
        ensures
            d@ == Seq::<TableView>::empty(),
    {
        let d = Self { schemas: Vec::new() };
        assert(d@ =~= Seq::<TableView>::empty());
        d
    }
}

impl DatabaseSchema {
    /// Whether the snapshot holds no table.
    pub fn is_empty(&self) -> (b: bool)
        ensures
            b == (self@.len() == 0),
    {
        self.schemas.len() == 0
    }

    /// The text of the snapshot, as the query generator is to see it.
    pub fn render(&self) -> (s: String)
        ensures
            s@ == schema_text(self@),
    {
        let mut out = String::new();
        let ghost tables = self@;
        let n = self.schemas.len();
        let mut i: usize = 0;
        assert(tables.skip(0) == tables);
        while i < n
            invariant
                i <= n == self.schemas.len(),
                tables == self@,
                out@ + schema_text(tables.skip(i as int)) == schema_text(tables),
            decreases n - i,
        {
            let ghost before = out@;
            let ghost rest = tables.skip(i as int);
            self.schemas[i].render_into(&mut out);
            proof {
                assert(rest[0] == self.schemas@[i as int]@);
                assert(rest.drop_first() == tables.skip(i + 1));
            }
            if i + 1 < n {
                out.append("\n");
                assert(before + (table_block(rest[0]) + "\n"@ + schema_text(rest.drop_first()))
                    == out@ + schema_text(rest.drop_first()));
            } else {
                assert(schema_text(rest.drop_first()) == Seq::<char>::empty());
                assert(out@ + Seq::<char>::empty() == out@);
            }
            i += 1;
        }
        assert(out@ + Seq::<char>::empty() == out@);
        out
    }
}

} // verus!
