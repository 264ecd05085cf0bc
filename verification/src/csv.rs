//! Tabular output of the CSV query engine: record batches shown as text.
use crate::decimal::{signed_decimal, signed_decimal_chars};
use crate::text::{join, push_chars, push_joined, strings_view};
use vstd::prelude::*;
use vstd::string::StringExecFns;

verus! {

/// One cell of a record batch.
///
/// A real number is held already written out in its default form: this
/// library computes with no floating point.
#[derive(Debug)]
pub enum CsvCell {
    /// No value.
    Null,
    /// A text value.
    Text(String),
    /// A 64-bit signed integer.
    Int(i64),
    /// A 64-bit real number, written out.
    Real(String),
    /// A truth value.
    Bool(bool),
    /// A value of a type that is not shown.
    Unsupported,
}

/// A cell, as plain data.
pub enum CellView {
    Null,
    Text(Seq<char>),
    Int(int),
    Real(Seq<char>),
    Bool(bool),
    Unsupported,
}

impl View for CsvCell {
    type V = CellView;

    open spec fn view(&self) -> CellView {
        match self {
            CsvCell::Null => CellView::Null,
            CsvCell::Text(t) => CellView::Text(t@),
            CsvCell::Int(i) => CellView::Int(*i as int),
            CsvCell::Real(t) => CellView::Real(t@),
            CsvCell::Bool(b) => CellView::Bool(*b),
            CsvCell::Unsupported => CellView::Unsupported,
        }
    }
}

/// One named column of a record batch.
#[derive(Debug)]
pub struct CsvColumn {
    pub name: String,
    pub cells: Vec<CsvCell>,
}

/// A column, as plain data.
pub struct ColumnDataView {
    pub name: Seq<char>,
    pub cells: Seq<CellView>,
}

impl View for CsvColumn {
    type V = ColumnDataView;

    open spec fn view(&self) -> ColumnDataView {
        ColumnDataView {
            name: self.name@,
            cells: Seq::new(self.cells@.len(), |i: int| self.cells@[i]@),
        }
    }
}

/// A record batch, as plain data.
pub struct BatchView {
    pub columns: Seq<ColumnDataView>,
    pub num_rows: nat,
}

/// Whether every column of the batch has one cell for each row.
pub open spec fn batch_is_rectangular(b: BatchView) -> bool {
    forall|c: int| 0 <= c < b.columns.len() ==> (#[trigger] b.columns[c]).cells.len() == b.num_rows
}

/// The text of a cell.
pub open spec fn cell_value_text(c: CellView) -> Seq<char> {
    match c {
        CellView::Null => "NULL"@,
        CellView::Text(t) => t,
        CellView::Int(i) => signed_decimal(i),
        CellView::Real(t) => t,
        CellView::Bool(b) => if b {
            "true"@
        } else {
            "false"@
        },
        CellView::Unsupported => "[unsupported type]"@,
    }
}

/// The column names of a batch.
pub open spec fn header_cells(b: BatchView) -> Seq<Seq<char>> {
    Seq::new(b.columns.len(), |c: int| b.columns[c].name)
}

/// One rule of four dashes for each column of a batch.
pub open spec fn rule_cells(b: BatchView) -> Seq<Seq<char>> {
    Seq::new(b.columns.len(), |c: int| "----"@)
}

/// The texts of the cells of row `r`.
pub open spec fn row_cells(b: BatchView, r: int) -> Seq<Seq<char>> {
    Seq::new(b.columns.len(), |c: int| cell_value_text(b.columns[c].cells[r]))
}

/// The parts with ` | ` between them, and a line feed at the end.
pub open spec fn table_line(parts: Seq<Seq<char>>) -> Seq<char> {
    join(parts, " | "@) + "\n"@
}

/// The lines of the rows of a batch from row `from` on.
pub open spec fn data_lines(b: BatchView, from: nat) -> Seq<char>
    decreases b.num_rows - from,
{
    if from >= b.num_rows {
        Seq::empty()
    } else {
        table_line(row_cells(b, from as int)) + data_lines(b, from + 1)
    }
}

/// The text of a batch: the names, a rule under each, the rows, and a
/// blank line.
pub open spec fn batch_text(b: BatchView) -> Seq<char> {
    table_line(header_cells(b)) + table_line(rule_cells(b)) + data_lines(b, 0) + "\n"@
}

/// The texts of a run of batches, one after the other.
pub open spec fn batches_text(batches: Seq<BatchView>) -> Seq<char>
    decreases batches.len(),
{
    if batches.len() == 0 {
        Seq::empty()
    } else {
        batch_text(batches[0]) + batches_text(batches.drop_first())
    }
}

/// A table of values in columns, each column with as many cells as the
/// batch has rows.
#[derive(Debug)]
pub struct CsvBatch {
    columns: Vec<CsvColumn>,
    num_rows: usize,
}

impl View for CsvBatch {
    type V = BatchView;

    closed spec fn view(&self) -> BatchView {
        BatchView {
            columns: Seq::new(self.columns@.len(), |c: int| self.columns@[c]@),
            num_rows: self.num_rows as nat,
        }
    }
}

/// The views of a run of batches.
pub open spec fn batches_view(batches: Seq<CsvBatch>) -> Seq<BatchView> {
    Seq::new(batches.len(), |i: int| batches[i]@)
}

/// The views of a run of columns.
pub open spec fn column_data_view(columns: Seq<CsvColumn>) -> Seq<ColumnDataView> {
    Seq::new(columns.len(), |c: int| columns[c]@)
}

impl CsvBatch {
    #[verifier::type_invariant]
    spec fn is_rectangular(self) -> bool {
        batch_is_rectangular(self@)
    }

    /// The batch of `num_rows` rows with the given columns, if each column
    /// has exactly that many cells.
    pub fn new(columns: Vec<CsvColumn>, num_rows: usize) -> (r: Option<CsvBatch>)
        ensures
            r is Some == batch_is_rectangular(
                BatchView { columns: column_data_view(columns@), num_rows: num_rows as nat },
            ),
            r is Some ==> r->0@ == (BatchView {
                columns: column_data_view(columns@),
                num_rows: num_rows as nat,
            }),
    {
        let ghost view = BatchView {
            columns: column_data_view(columns@),
            num_rows: num_rows as nat,
        };
        let n = columns.len();
        let mut c: usize = 0;
        while c < n
            invariant
                c <= n == columns.len(),
                view == (BatchView {
                    columns: column_data_view(columns@),
                    num_rows: num_rows as nat,
                }),
                forall|k: int| 0 <= k < c ==> (#[trigger] view.columns[k]).cells.len() == num_rows,
            decreases n - c,
        {
            if columns[c].cells.len() != num_rows {
                assert(view.columns[c as int].cells.len() != num_rows);
                return None;
            }
            c += 1;
        }
        let batch = CsvBatch { columns, num_rows };
        assert(batch@ =~= view);
        Some(batch)
    }

    /// The number of rows. A batch is always rectangular.
    pub fn num_rows(&self) -> (n: usize)
        ensures
            n == self@.num_rows,
            batch_is_rectangular(self@),
    {
        proof {
            use_type_invariant(self);
        }
        self.num_rows
    }

    /// The number of columns.
    pub fn num_columns(&self) -> (n: usize)
        ensures
            n == self@.columns.len(),
    {
        self.columns.len()
    }

    /// Appends the text of this batch to `out`.
    fn render_into(&self, out: &mut String)
        ensures
            final(out)@ == old(out)@ + batch_text(self@),
    {
        proof {
            use_type_invariant(self);
        }
        let ghost b = self@;
        let width = self.columns.len();
        let mut headers: Vec<String> = Vec::new();
        let mut rules: Vec<String> = Vec::new();
        let mut c: usize = 0;
        while c < width
            invariant
                c <= width == self.columns.len(),
                b == self@,
                headers.len() == c,
                rules.len() == c,
                forall|k: int| 0 <= k < c ==> (#[trigger] headers@[k])@ == b.columns[k].name,
                forall|k: int| 0 <= k < c ==> (#[trigger] rules@[k])@ == "----"@,
            decreases width - c,
        {
            headers.push(self.columns[c].name.clone());
            rules.push(String::from_str("----"));
            c += 1;
        }
        assert(strings_view(headers@) =~= header_cells(b));
        assert(strings_view(rules@) =~= rule_cells(b));
        push_joined(out, &headers, " | ");
        out.append("\n");
        push_joined(out, &rules, " | ");
        out.append("\n");
        let ghost head = old(out)@ + table_line(header_cells(b)) + table_line(rule_cells(b));
        assert(out@ == head);
        let mut r: usize = 0;
        while r < self.num_rows
            invariant
                r <= self.num_rows,
                b == self@,
                batch_is_rectangular(b),
                width == self.columns.len(),
                out@ + data_lines(b, r as nat) == head + data_lines(b, 0),
            decreases self.num_rows - r,
        {
            let ghost before = out@;
            let mut row: Vec<String> = Vec::new();
            let mut k: usize = 0;
            while k < width
                invariant
                    k <= width == self.columns.len(),
                    r < self.num_rows,
                    b == self@,
                    batch_is_rectangular(b),
                    row.len() == k,
                    forall|j: int| 0 <= j < k ==> (#[trigger] row@[j])@ == cell_value_text(
                        b.columns[j].cells[r as int],
                    ),
                decreases width - k,
            {
                assert(b.columns[k as int].cells.len() == b.num_rows);
                let text = array_value_to_string(&self.columns[k], r);
                row.push(text);
                k += 1;
            }
            assert(strings_view(row@) =~= row_cells(b, r as int));
            push_joined(out, &row, " | ");
            out.append("\n");
            proof {
                assert(out@ == before + table_line(row_cells(b, r as int)));
                assert(before + (table_line(row_cells(b, r as int)) + data_lines(
                    b,
                    (r + 1) as nat,
                )) == out@ + data_lines(b, (r + 1) as nat));
            }
            r += 1;
        }
        assert(out@ + Seq::<char>::empty() == out@);
        out.append("\n");
        assert(old(out)@ + (table_line(header_cells(b)) + table_line(rule_cells(b)) + data_lines(
            b,
            0,
        ) + "\n"@) == head + data_lines(b, 0) + "\n"@);
    }
}

/// The text of the cell of `array` at `index`.
fn array_value_to_string(array: &CsvColumn, index: usize) -> (s: String)
    requires
        index < array@.cells.len(),
    ensures
        s@ == cell_value_text(array@.cells[index as int]),
{
    match &array.cells[index] {
        CsvCell::Null => String::from_str("NULL"),
        CsvCell::Text(t) => t.clone(),
        CsvCell::Int(i) => {
            let digits = signed_decimal_chars(*i);
            let mut out = String::new();
            push_chars(&mut out, &digits);
            assert(Seq::<char>::empty() + digits@ == digits@);
            out
        },
        CsvCell::Real(t) => t.clone(),
        CsvCell::Bool(b) => if *b {
            String::from_str("true")
        } else {
            String::from_str("false")
        },
        CsvCell::Unsupported => String::from_str("[unsupported type]"),
    }
}

/// Anything that can run a query over a CSV file and give the answer as
/// text.
pub trait CsvImplTrait {
    /// The answer to `the_query`, as text.
    fn execute_csv_query(&self, the_query: String) -> String;
}

/// One CSV file, to be queried as a table.
#[derive(Debug)]
pub struct CsvUtill {
    file_path: String,
    table_name: String,
}

impl CsvUtill {
    /// The file at `the_path`, under the table name `target`.
    pub fn new(the_path: String) -> (csv: CsvUtill)
        ensures
            csv.path() == the_path@,
            csv.table() == "target"@,
    {
        CsvUtill { file_path: the_path, table_name: String::from_str("target") }
    }

    /// The path of the file, as text.
    pub closed spec fn path(&self) -> Seq<char> {
        self.file_path@
    }

    /// The table name, as text.
    pub closed spec fn table(&self) -> Seq<char> {
        self.table_name@
    }

    /// The path of the file.
    pub fn file_path(&self) -> (s: &String)
        ensures
            s@ == self.path(),
    {
        &self.file_path
    }

    /// The name under which the file is queried.
    pub fn table_name(&self) -> (s: &String)
        ensures
            s@ == self.table(),
    {
        &self.table_name
    }

    /// The batches as text: for each batch the column names, a rule under
    /// each, one line for each row, and a blank line.
    pub fn record_batches_to_string(batches: Vec<CsvBatch>) -> (s: String)
        ensures
            s@ == batches_text(batches_view(batches@)),
    {
        let mut out = String::new();
        let ghost all = batches_view(batches@);
        let n = batches.len();
        let mut i: usize = 0;
        assert(all.skip(0) == all);
        while i < n
            invariant
                i <= n == batches.len(),
                all == batches_view(batches@),
                out@ + batches_text(all.skip(i as int)) == batches_text(all),
            decreases n - i,
        {
            let ghost before = out@;
            let ghost rest = all.skip(i as int);
            batches[i].render_into(&mut out);
            proof {
                assert(rest[0] == batches@[i as int]@);
                assert(rest.drop_first() == all.skip(i + 1));
                assert(before + (batch_text(rest[0]) + batches_text(rest.drop_first())) == out@
                    + batches_text(rest.drop_first()));
            }
            i += 1;
        }
        assert(out@ + Seq::<char>::empty() == out@);
        out
    }
}

} // verus!
