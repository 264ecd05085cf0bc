//! Result rows: how fetched values become ordered name-to-text mappings, and
//! how a row set is shown.
use crate::decimal::{decimal, decimal_chars};
use crate::text::push_chars;
use crate::value::{value_text, SqlValue, ValueView};
use vstd::prelude::*;
use vstd::string::StringExecFns;

verus! {

/// A row as plain text: its cells in order, each a column name and a value.
pub type RowView = Seq<(Seq<char>, Seq<char>)>;

/// Whether no two cells of `row` have the same column name.
pub open spec fn distinct_keys(row: RowView) -> bool {
    forall|i: int, j: int| 0 <= i < j < row.len() ==> (#[trigger] row[i]).0 != (#[trigger] row[j]).0
}

/// The place of the cell named `key`, or -1 where `row` has none.
pub open spec fn key_index(row: RowView, key: Seq<char>) -> int
    decreases row.len(),
{
    if row.len() == 0 {
        -1
    } else if row.last().0 == key {
        row.len() - 1
    } else {
        key_index(row.drop_last(), key)
    }
}

/// `row` with `key` set to `value`: a name that the row already has keeps
/// its place and takes the new value, a new name goes to the end.
pub open spec fn row_insert(row: RowView, key: Seq<char>, value: Seq<char>) -> RowView {
    let j = key_index(row, key);
    if 0 <= j < row.len() {
        row.update(j, (key, value))
    } else {
        row.push((key, value))
    }
}

/// A row as it was fetched, as plain data: the column names, and for each
/// place the value, if there is one to read.
pub struct FetchedView {
    pub columns: Seq<Seq<char>>,
    pub values: Seq<Option<ValueView>>,
}

/// The text of the value at place `i`; empty where the row has no value
/// there.
pub open spec fn cell_text(values: Seq<Option<ValueView>>, i: int) -> Seq<char> {
    if 0 <= i < values.len() && values[i] is Some {
        value_text(values[i]->0)
    } else {
        Seq::empty()
    }
}

/// The row made of the first `n` columns of a fetched row, taken in order.
pub open spec fn row_of(f: FetchedView, n: nat) -> RowView
    decreases n,
{
    if n == 0 {
        Seq::empty()
    } else {
        row_insert(row_of(f, (n - 1) as nat), f.columns[n - 1], cell_text(f.values, n - 1))
    }
}

/// The rows made of a run of fetched rows, in order.
pub open spec fn rows_of(fetched: Seq<FetchedView>) -> Seq<RowView> {
    Seq::new(fetched.len(), |i: int| row_of(fetched[i], fetched[i].columns.len()))
}

/// The line of one cell: two spaces, the name, a colon, the value.
pub open spec fn cell_line(cell: (Seq<char>, Seq<char>)) -> Seq<char> {
    "  "@ + cell.0 + ": "@ + cell.1 + "\n"@
}

/// The lines of a row's cells, in order.
pub open spec fn cell_lines(row: RowView) -> Seq<char>
    decreases row.len(),
{
    if row.len() == 0 {
        Seq::empty()
    } else {
        cell_line(row[0]) + cell_lines(row.drop_first())
    }
}

/// The block of the row numbered `number`: its heading, then its cells.
pub open spec fn row_block(number: nat, row: RowView) -> Seq<char> {
    "Row "@ + decimal(number) + ":\n"@ + cell_lines(row)
}

/// The blocks of a run of rows, the first of them numbered `first`.
pub open spec fn rows_text(rows: Seq<RowView>, first: nat) -> Seq<char>
    decreases rows.len(),
{
    if rows.len() == 0 {
        Seq::empty()
    } else {
        row_block(first, rows[0]) + rows_text(rows.drop_first(), first + 1)
    }
}

/// The text of a row set: its rows numbered from 1. No row, no text.
pub open spec fn result_text(rows: Seq<RowView>) -> Seq<char> {
    rows_text(rows, 1)
}

/// Where `key_index` points, the key stands; where it finds nothing, no
/// cell has the key.
pub proof fn lemma_key_index(row: RowView, key: Seq<char>)
    ensures
        -1 <= key_index(row, key) < row.len(),
        key_index(row, key) >= 0 ==> row[key_index(row, key)].0 == key,
        key_index(row, key) < 0 ==> forall|i: int| 0 <= i < row.len() ==> (#[trigger] row[i]).0 != key,
    decreases row.len(),
{
    if row.len() > 0 && row.last().0 != key {
        let front = row.drop_last();
        lemma_key_index(front, key);
        if key_index(front, key) >= 0 {
            assert(front[key_index(front, key)] == row[key_index(front, key)]);
        } else {
            assert forall|i: int| 0 <= i < row.len() implies (#[trigger] row[i]).0 != key by {
                if i < front.len() {
                    assert(front[i] == row[i]);
                }
            }
        }
    }
}

/// Setting a key keeps the names of a row distinct.
pub proof fn lemma_row_insert_distinct(row: RowView, key: Seq<char>, value: Seq<char>)
    requires
        distinct_keys(row),
    ensures
        distinct_keys(row_insert(row, key, value)),
{
    lemma_key_index(row, key);
    let next = row_insert(row, key, value);
    let k = key_index(row, key);
    assert forall|i: int, j: int| 0 <= i < j < next.len() implies (#[trigger] next[i]).0 != (
    #[trigger] next[j]).0 by {
        if k >= 0 {
            assert(next[i].0 == row[i].0);
            assert(next[j].0 == row[j].0);
        } else {
            if j < row.len() {
                assert(next[i] == row[i]);
                assert(next[j] == row[j]);
            } else {
                assert(next[i] == row[i]);
            }
        }
    }
}

/// Every row made from a fetched row has distinct names.
pub proof fn lemma_row_of_distinct(f: FetchedView, n: nat)
    ensures
        distinct_keys(row_of(f, n)),
    decreases n,
{
    if n > 0 {
        lemma_row_of_distinct(f, (n - 1) as nat);
        lemma_row_insert_distinct(
            row_of(f, (n - 1) as nat),
            f.columns[n - 1],
            cell_text(f.values, n - 1),
        );
    }
}

/// One cell of a row.
#[derive(Debug)]
struct Cell {
    column: String,
    value: String,
}

/// The cells of a row, as plain text.
spec fn cells_view(cells: Seq<Cell>) -> RowView {
    Seq::new(cells.len(), |i: int| (cells[i].column@, cells[i].value@))
}

/// One result row: an ordered mapping from column name to the text of the
/// value. No name occurs twice.
#[derive(Debug)]
pub struct QueryRow {
    cells: Vec<Cell>,
}

/// A row as the database handed it over: the names of its columns, and the
/// values in the same order. A value that is missing or was taken is `None`.
#[derive(Debug)]
pub struct FetchedRow {
    pub columns: Vec<String>,
    pub values: Vec<Option<SqlValue>>,
}

/// The rows of one answer, in the order in which they came. No row is a
/// valid answer.
#[derive(Debug)]
pub struct QueryResult {
    pub rows: Vec<QueryRow>,
}

impl View for FetchedRow {
    type V = FetchedView;

    open spec fn view(&self) -> FetchedView {
        FetchedView {
            columns: Seq::new(self.columns@.len(), |i: int| self.columns@[i]@),
            values: Seq::new(
                self.values@.len(),
                |i: int|
                    match self.values@[i] {
                        Some(v) => Some(v@),
                        None => None,
                    },
            ),
        }
    }
}

/// The views of a run of fetched rows.
pub open spec fn fetched_view(rows: Seq<FetchedRow>) -> Seq<FetchedView> {
    Seq::new(rows.len(), |i: int| rows[i]@)
}

impl View for QueryRow {
    type V = RowView;

    closed spec fn view(&self) -> RowView {
        cells_view(self.cells@)
    }
}

impl View for QueryResult {
    type V = Seq<RowView>;

    open spec fn view(&self) -> Seq<RowView> {
        Seq::new(self.rows@.len(), |i: int| self.rows@[i]@)
    }
}

impl QueryRow {
    #[verifier::type_invariant]
    spec fn names_are_distinct(self) -> bool {
        distinct_keys(self@)
    }

    /// A row with no cell.
    pub fn new() -> (row: QueryRow)
        ensures
            row@ == RowView::empty(),
    {
        let row = QueryRow { cells: Vec::new() };
        assert(row@ =~= RowView::empty());
        row
    }

    /// The number of cells. The names of a row are always distinct.
    pub fn len(&self) -> (n: usize)
        ensures
            n == self@.len(),
            distinct_keys(self@),
    {
        proof {
            use_type_invariant(self);
        }
        self.cells.len()
    }

    /// The column name of the cell at place `i`, if the row has that many
    /// cells.
    pub fn column(&self, i: usize) -> (r: Option<&String>)
        ensures
            match r {
                Some(name) => i < self@.len() && name@ == self@[i as int].0,
                None => i >= self@.len(),
            },
    {
        if i < self.cells.len() {
            Some(&self.cells[i].column)
        } else {
            None
        }
    }

    /// The value of the cell at place `i`, if the row has that many cells.
    pub fn value(&self, i: usize) -> (r: Option<&String>)
        ensures
            match r {
                Some(text) => i < self@.len() && text@ == self@[i as int].1,
                None => i >= self@.len(),
            },
    {
        if i < self.cells.len() {
            Some(&self.cells[i].value)
        } else {
            None
        }
    }

    /// The place of the cell named `key`, if the row has one.
    pub fn position(&self, key: &String) -> (r: Option<usize>)
        ensures
            match r {
                Some(j) => key_index(self@, key@) == j && j < self@.len(),
                None => key_index(self@, key@) < 0,
            },
    {
        let n = self.cells.len();
        let mut i: usize = n;
        assert(self@.take(n as int) == self@);
        while i > 0
            invariant
                i <= n == self.cells.len(),
                key_index(self@, key@) == key_index(self@.take(i as int), key@),
            decreases i,
        {
            let ghost front = self@.take(i as int);
            assert(front.drop_last() == self@.take(i - 1));
            assert(front.last() == self@[i - 1]);
            if self.cells[i - 1].column == *key {
                return Some(i - 1);
            }
            i -= 1;
        }
        None
    }

    /// The value under the name `key`, if the row has that name.
    pub fn get(&self, key: &String) -> (r: Option<&String>)
        ensures
            match r {
                Some(text) => 0 <= key_index(self@, key@) < self@.len() && text@ == self@[key_index(
                    self@,
                    key@,
                )].1,
                None => key_index(self@, key@) < 0,
            },
    {
        match self.position(key) {
            Some(j) => Some(&self.cells[j].value),
            None => None,
        }
    }

    /// Sets `column` to `value`. A name that the row already has keeps its
    /// place and takes the new value; a new name goes to the end.
    pub fn insert(&mut self, column: String, value: String)
        ensures
            final(self)@ == row_insert(old(self)@, column@, value@),
            distinct_keys(final(self)@),
    {
        proof {
            use_type_invariant(&*self);
            lemma_row_insert_distinct(self@, column@, value@);
        }
        let ghost before = self@;
        let found = self.position(&column);
        let mut cells: Vec<Cell> = Vec::new();
        core::mem::swap(&mut self.cells, &mut cells);
        assert(cells_view(cells@) == before);
        assert(self@ =~= RowView::empty());
        match found {
            Some(j) => {
                cells.set(j, Cell { column, value });
                assert(cells_view(cells@) =~= before.update(j as int, (column@, value@)));
            },
            None => {
                cells.push(Cell { column, value });
                assert(cells_view(cells@) =~= before.push((column@, value@)));
            },
        }
        core::mem::swap(&mut self.cells, &mut cells);
    }

    /// The row that a fetched row gives: its columns taken in order, each
    /// with the text of its value, or with the empty text where it has no
    /// value. Where a name comes again, the later value takes the place of
    /// the earlier one.
    pub fn from_fetched(fetched: &FetchedRow) -> (row: QueryRow)
        ensures
            row@ == row_of(fetched@, fetched@.columns.len()),
    {
        let mut row = QueryRow::new();
        let n = fetched.columns.len();
        let mut i: usize = 0;
        while i < n
            invariant
                i <= n == fetched.columns.len(),
                row@ == row_of(fetched@, i as nat),
            decreases n - i,
        {
            let text = if i < fetched.values.len() {
                match &fetched.values[i] {
                    Some(v) => v.render(),
                    None => String::new(),
                }
            } else {
                String::new()
            };
            assert(text@ == cell_text(fetched@.values, i as int));
            row.insert(fetched.columns[i].clone(), text);
            i += 1;
        }
        row
    }

    /// Appends this row's cell lines to `out`.
    fn render_into(&self, out: &mut String)
        ensures
            final(out)@ == old(out)@ + cell_lines(self@),
    {
        let n = self.cells.len();
        let mut i: usize = 0;
        let ghost row = self@;
        assert(row.skip(0) == row);
        while i < n
            invariant
                i <= n == self.cells.len(),
                row == self@,
                out@ + cell_lines(row.skip(i as int)) == old(out)@ + cell_lines(row),
            decreases n - i,
        {
            let ghost before = out@;
            let ghost rest = row.skip(i as int);
            out.append("  ");
            out.append(self.cells[i].column.as_str());
            out.append(": ");
            out.append(self.cells[i].value.as_str());
            out.append("\n");
            proof {
                assert(rest[0] == row[i as int]);
                assert(rest.drop_first() == row.skip(i + 1));
                assert(out@ == before + cell_line(rest[0]));
                assert(before + (cell_line(rest[0]) + cell_lines(rest.drop_first())) == (before
                    + cell_line(rest[0])) + cell_lines(rest.drop_first()));
            }
            i += 1;
        }
        assert(out@ + Seq::<char>::empty() == out@);
    }
}

impl QueryResult {
    /// The rows that a run of fetched rows gives, in order.
    pub fn from_fetched(fetched: &Vec<FetchedRow>) -> (result: QueryResult)
        ensures
            result@ == rows_of(fetched_view(fetched@)),
    {
        let mut rows: Vec<QueryRow> = Vec::new();
        let n = fetched.len();
        let mut i: usize = 0;
        while i < n
            invariant
                i <= n == fetched.len(),
                rows.len() == i,
                forall|j: int| 0 <= j < i ==> (#[trigger] rows@[j])@ == row_of(
                    fetched@[j]@,
                    fetched@[j]@.columns.len(),
                ),
            decreases n - i,
        {
            rows.push(QueryRow::from_fetched(&fetched[i]));
            i += 1;
        }
        let result = QueryResult { rows };
        assert(result@ =~= rows_of(fetched_view(fetched@)));
        result
    }

    /// Whether the answer holds no row.
    pub fn is_empty(&self) -> (b: bool)
        ensures
            b == (self@.len() == 0),
    {
        self.rows.len() == 0
    }

    /// The answer as text: for each row a heading `Row <n>:` with the rows
    /// numbered from 1, then one indented line for each cell. An answer
    /// with no row gives the empty text.
    pub fn render(&self) -> (s: String)
        ensures
            s@ == result_text(self@),
            self@.len() == 0 ==> s@.len() == 0,
    {
        let mut out = String::new();
        let ghost rows = self@;
        let n = self.rows.len();
        let mut i: usize = 0;
        assert(rows.skip(0) == rows);
        while i < n
            invariant
                i <= n == self.rows.len(),
                rows == self@,
                out@ + rows_text(rows.skip(i as int), (i + 1) as nat) == result_text(rows),
            decreases n - i,
        {
            let ghost before = out@;
            let ghost rest = rows.skip(i as int);
            out.append("Row ");
            let number = decimal_chars((i + 1) as u64);
            push_chars(&mut out, &number);
            out.append(":\n");
            self.rows[i].render_into(&mut out);
            proof {
                assert(rest[0] == self.rows@[i as int]@);
                assert(rest.drop_first() == rows.skip(i + 1));
                assert(out@ == before + row_block((i + 1) as nat, rest[0]));
                assert(before + (row_block((i + 1) as nat, rest[0]) + rows_text(
                    rest.drop_first(),
                    (i + 2) as nat,
                )) == out@ + rows_text(rest.drop_first(), (i + 2) as nat));
            }
            i += 1;
        }
        assert(out@ + Seq::<char>::empty() == out@);
        out
    }
}

} // verus!
