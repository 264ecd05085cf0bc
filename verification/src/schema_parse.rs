//! Reading a snapshot back from its text, and the law that ties the reader
//! to the writer.
use crate::schema::{
    column_line, columns_text, header_line, schema_text, tables_view, ColumnName, ColumnView,
    DatabaseSchema, TableSchema, TableView,
};
use crate::text::{chars_of, matches_at, occurs_at, slice_chars, string_of};
use vstd::prelude::*;

verus! {

/// What opens a header line.
pub open spec fn header_open() -> Seq<char> {
    "Table \""@
}

/// What closes a header line.
pub open spec fn header_close() -> Seq<char> {
    "\":"@
}

/// What opens a column line.
pub open spec fn column_open() -> Seq<char> {
    "  - "@
}

/// The length of the first line of `s`: the number of characters before its
/// first line feed, or all of them where it has none.
pub open spec fn line_end(s: Seq<char>) -> int
    decreases s.len(),
{
    if s.len() == 0 || s[0] == '\n' {
        0
    } else {
        1 + line_end(s.drop_first())
    }
}

/// Whether `line` is a header line.
pub open spec fn is_header(line: Seq<char>) -> bool {
    &&& line.len() >= header_open().len() + header_close().len()
    &&& occurs_at(line, header_open(), 0)
    &&& occurs_at(line, header_close(), line.len() - header_close().len())
}

/// The table name that a header line carries.
pub open spec fn header_name(line: Seq<char>) -> Seq<char> {
    line.subrange(header_open().len() as int, line.len() - header_close().len())
}

/// The place of the first space that an opening parenthesis follows, or -1
/// where `s` has none.
pub open spec fn paren_gap(s: Seq<char>) -> int
    decreases s.len(),
{
    if s.len() < 2 {
        -1
    } else if s[0] == ' ' && s[1] == '(' {
        0
    } else {
        let r = paren_gap(s.drop_first());
        if r < 0 {
            -1
        } else {
            r + 1
        }
    }
}

/// What a column line holds between its opening dash and its closing
/// parenthesis.
pub open spec fn column_body(line: Seq<char>) -> Seq<char> {
    line.subrange(column_open().len() as int, line.len() - 1)
}

/// Whether `line` is a column line.
pub open spec fn is_column(line: Seq<char>) -> bool {
    &&& line.len() >= column_open().len() + 1
    &&& occurs_at(line, column_open(), 0)
    &&& line.last() == ')'
    &&& paren_gap(column_body(line)) >= 0
}

/// The column that a column line carries: the name ends where the first
/// space before a parenthesis stands, and the type is all that follows it.
pub open spec fn column_of(line: Seq<char>) -> ColumnView {
    let body = column_body(line);
    let k = paren_gap(body);
    ColumnView { name: body.take(k), data_type: body.skip(k + 2) }
}

/// `acc` with one more column at the end of its last table.
pub open spec fn with_column(acc: Seq<TableView>, c: ColumnView) -> Seq<TableView> {
    acc.drop_last().push(
        TableView { name: acc.last().name, columns: acc.last().columns.push(c) },
    )
}

/// The tables read so far, after one more line. A blank line changes
/// nothing, a header opens a table, a column line adds to the table that is
/// open. A column line with no table open, or any other line, is refused.
pub open spec fn absorb(acc: Seq<TableView>, line: Seq<char>) -> Option<Seq<TableView>> {
    if line.len() == 0 {
        Some(acc)
    } else if is_header(line) {
        Some(acc.push(TableView { name: header_name(line), columns: Seq::empty() }))
    } else if is_column(line) && acc.len() > 0 {
        Some(with_column(acc, column_of(line)))
    } else {
        None
    }
}

/// What is left of `s` after its first line and the line feed that ends it.
pub open spec fn after_line(s: Seq<char>) -> Seq<char> {
    if 0 <= line_end(s) < s.len() {
        s.skip(line_end(s) + 1)
    } else {
        Seq::empty()
    }
}

/// The tables read from `s`, line by line, starting from `acc`.
///
/// Without a closing line the whole of `s` is read. With one, reading ends
/// at the first line that equals it, and a text that has no such line is
/// refused.
pub open spec fn parse_from(s: Seq<char>, acc: Seq<TableView>, close: Option<Seq<char>>) -> Option<
    Seq<TableView>,
>
    decreases s.len(),
{
    if s.len() == 0 {
        if close is None {
            Some(acc)
        } else {
            None
        }
    } else if close == Some(s.take(line_end(s))) {
        Some(acc)
    } else {
        match absorb(acc, s.take(line_end(s))) {
            None => None,
            Some(next) => parse_from(after_line(s), next, close),
        }
    }
}

/// The snapshot that a text denotes, if it denotes one.
pub open spec fn parse_schema_text(s: Seq<char>) -> Option<Seq<TableView>> {
    parse_from(s, Seq::empty(), None)
}

/// Whether a closing line can be told from every line of a snapshot: it is
/// not blank and starts neither like a header nor like a column line.
pub open spec fn closes_cleanly(close: Option<Seq<char>>) -> bool {
    close is Some ==> close->0.len() > 0 && close->0[0] != 'T' && close->0[0] != ' '
}

/// Whether `s` holds no line feed.
pub open spec fn no_newline(s: Seq<char>) -> bool {
    forall|i: int| 0 <= i < s.len() ==> #[trigger] s[i] != '\n'
}

/// Whether `s` nowhere holds a space directly before an opening parenthesis.
pub open spec fn no_paren_gap(s: Seq<char>) -> bool {
    forall|i: int| 0 <= i < s.len() - 1 ==> !(#[trigger] s[i] == ' ' && s[i + 1] == '(')
}

/// Whether a column survives being written and read back.
pub open spec fn column_is_plain(c: ColumnView) -> bool {
    no_newline(c.name) && no_newline(c.data_type) && no_paren_gap(c.name)
}

/// Whether every column of a run survives being written and read back.
pub open spec fn columns_are_plain(cols: Seq<ColumnView>) -> bool {
    forall|j: int| 0 <= j < cols.len() ==> column_is_plain(#[trigger] cols[j])
}

/// Whether a table survives being written and read back.
pub open spec fn table_is_plain(t: TableView) -> bool {
    no_newline(t.name) && columns_are_plain(t.columns)
}

/// Whether a snapshot survives being written and read back: no name or type
/// holds a line feed, and no column name holds a space directly before an
/// opening parenthesis.
pub open spec fn schema_is_plain(tables: Seq<TableView>) -> bool {
    forall|i: int| 0 <= i < tables.len() ==> table_is_plain(#[trigger] tables[i])
}

/// Executable form of [`line_end`], for the line that starts at `pos`.
fn find_line_end(v: &Vec<char>, pos: usize) -> (end: usize)
    requires
        pos <= v.len(),
    ensures
        pos <= end <= v.len(),
        end - pos == line_end(v@.skip(pos as int)),
{
    let n = v.len();
    let mut end: usize = pos;
    while end < n && v[end] != '\n'
        invariant
            pos <= end <= n == v.len(),
            line_end(v@.skip(pos as int)) == (end - pos) + line_end(v@.skip(end as int)),
        decreases n - end,
    {
        assert(v@.skip(end as int).drop_first() == v@.skip(end + 1));
        end += 1;
    }
    end
}

/// Executable form of [`paren_gap`].
fn find_paren_gap(v: &Vec<char>) -> (r: Option<usize>)
    ensures
        match r {
            Some(k) => paren_gap(v@) == k && k + 2 <= v.len(),
            None => paren_gap(v@) < 0,
        },
{
    let n = v.len();
    let mut i: usize = 0;
    assert(v@.skip(0) == v@);
    while n - i >= 2
        invariant
            i <= n == v.len(),
            paren_gap(v@) == if paren_gap(v@.skip(i as int)) < 0 {
                -1
            } else {
                i + paren_gap(v@.skip(i as int))
            },
        decreases n - i,
    {
        if v[i] == ' ' && v[i + 1] == '(' {
            return Some(i);
        }
        assert(v@.skip(i as int).drop_first() == v@.skip(i + 1));
        i += 1;
    }
    None
}

/// Executable form of [`absorb`]: takes one line into `tables`, or says
/// that the line is refused and leaves `tables` as it was.
fn absorb_line(tables: &mut Vec<TableSchema>, line: &Vec<char>) -> (ok: bool)
    ensures
        ok == absorb(tables_view(old(tables)@), line@) is Some,
        ok ==> tables_view(final(tables)@) == absorb(tables_view(old(tables)@), line@)->0,
        !ok ==> *final(tables) == *old(tables),
{
    let n = line.len();
    if n == 0 {
        return true;
    }
    let open = chars_of("Table \"");
    let close = chars_of("\":");
    let dash = chars_of("  - ");
    proof {
        reveal_strlit("Table \"");
        reveal_strlit("\":");
        reveal_strlit("  - ");
    }
    if n >= open.len() + close.len() && matches_at(line, &open, 0) && matches_at(
        line,
        &close,
        n - close.len(),
    ) {
        let name = slice_chars(line, open.len(), n - close.len());
        let table = TableSchema { table_name: string_of(&name), field_columns: Vec::new() };
        assert(table@.columns =~= Seq::<ColumnView>::empty());
        tables.push(table);
        assert(tables_view(tables@) =~= tables_view(old(tables)@).push(table@));
        return true;
    }
    if n >= dash.len() + 1 && matches_at(line, &dash, 0) && line[n - 1] == ')' && tables.len() > 0 {
        let body = slice_chars(line, dash.len(), n - 1);
        match find_paren_gap(&body) {
            Some(k) => {
                let name = slice_chars(&body, 0, k);
                let data_type = slice_chars(&body, k + 2, body.len());
                let column = ColumnName {
                    column_name: string_of(&name),
                    data_type: string_of(&data_type),
                };
                assert(column@ == column_of(line@));
                let ghost before = tables_view(tables@);
                let mut last = tables.pop().unwrap();
                let ghost kept = tables@;
                let ghost cols = last@.columns;
                last.field_columns.push(column);
                assert(last@.columns =~= cols.push(column@));
                tables.push(last);
                assert(tables_view(tables@) =~= with_column(before, column@)) by {
                    assert(tables_view(kept) =~= before.drop_last());
                }
                true
            },
            None => false,
        }
    } else {
        false
    }
}

/// The view of a closing line that may be there or not.
pub open spec fn close_view(close: Option<&Vec<char>>) -> Option<Seq<char>> {
    match close {
        Some(line) => Some(line@),
        None => None,
    }
}

/// Executable form of [`parse_from`], for the text of `v` from `start` on
/// and no table read yet.
pub(crate) fn parse_lines(v: &Vec<char>, start: usize, close: Option<&Vec<char>>) -> (r: Option<
    DatabaseSchema,
>)
    requires
        start <= v.len(),
    ensures
        match r {
            Some(d) => parse_from(v@.skip(start as int), Seq::empty(), close_view(close)) == Some(
                d@,
            ),
            None => parse_from(v@.skip(start as int), Seq::empty(), close_view(close)) is None,
        },
{
    let n = v.len();
    let ghost whole = parse_from(v@.skip(start as int), Seq::empty(), close_view(close));
    let mut tables: Vec<TableSchema> = Vec::new();
    let mut pos: usize = start;
    assert(tables_view(tables@) =~= Seq::<TableView>::empty());
    while pos < n
        invariant
            start <= pos <= n == v.len(),
            whole == parse_from(v@.skip(start as int), Seq::empty(), close_view(close)),
            whole == parse_from(v@.skip(pos as int), tables_view(tables@), close_view(close)),
        decreases n - pos,
    {
        let end = find_line_end(&v, pos);
        let line = slice_chars(&v, pos, end);
        assert(line@ == v@.skip(pos as int).take(end - pos));
        match close {
            Some(closing) => {
                if line.len() == closing.len() && matches_at(&line, closing, 0) {
                    assert(line@.subrange(0, line@.len() as int) == line@);
                    return Some(DatabaseSchema { schemas: tables });
                }
                assert(line@ != closing@) by {
                    if line@ == closing@ {
                        assert(line@.subrange(0, line@.len() as int) == line@);
                    }
                }
            },
            None => {},
        }
        if !absorb_line(&mut tables, &line) {
            return None;
        }
        if end < n {
            assert(v@.skip(pos as int).skip(end - pos + 1) == v@.skip(end + 1));
            pos = end + 1;
        } else {
            assert(v@.skip(n as int) =~= Seq::<char>::empty());
            pos = n;
        }
    }
    assert(v@.skip(n as int).len() == 0);
    match close {
        Some(_) => None,
        None => Some(DatabaseSchema { schemas: tables }),
    }
}

impl DatabaseSchema {
    /// Reads a snapshot from its text. A text that [`DatabaseSchema::render`]
    /// cannot have written is refused.
    pub fn parse(text: &str) -> (r: Option<DatabaseSchema>)
        ensures
            match r {
                Some(d) => parse_schema_text(text@) == Some(d@),
                None => parse_schema_text(text@) is None,
            },
    {
        let v = chars_of(text);
        assert(v@.skip(0) == v@);
        parse_lines(&v, 0, None)
    }
}


proof fn lemma_line_end_bounds(s: Seq<char>)
    ensures
        0 <= line_end(s) <= s.len(),
        line_end(s) < s.len() ==> s[line_end(s)] == '\n',
        no_newline(s.take(line_end(s))),
    decreases s.len(),
{
    if s.len() == 0 || s[0] == '\n' {
    } else {
        lemma_line_end_bounds(s.drop_first());
        let k = line_end(s);
        assert forall|i: int| 0 <= i < k implies #[trigger] s.take(k)[i] != '\n' by {
            if i > 0 {
                assert(s.drop_first().take(k - 1)[i - 1] == s[i]);
            }
        }
    }
}

proof fn lemma_line_end_of_line(line: Seq<char>, rest: Seq<char>)
    requires
        no_newline(line),
    ensures
        line_end(line + seq!['\n'] + rest) == line.len(),
    decreases line.len(),
{
    let s = line + seq!['\n'] + rest;
    if line.len() == 0 {
        assert(s[0] == '\n');
    } else {
        assert(s[0] == line[0]);
        let tail = line.drop_first();
        assert forall|i: int| 0 <= i < tail.len() implies #[trigger] tail[i] != '\n' by {
            assert(tail[i] == line[i + 1]);
        }
        lemma_line_end_of_line(tail, rest);
        assert(s.drop_first() == tail + seq!['\n'] + rest);
    }
}

/// Reading ends at the closing line: what stood before it is the result.
pub proof fn lemma_parse_closing_line(
    line: Seq<char>,
    rest: Seq<char>,
    acc: Seq<TableView>,
)
    requires
        no_newline(line),
    ensures
        parse_from(line + seq!['\n'] + rest, acc, Some(line)) == Some(acc),
{
    let s = line + seq!['\n'] + rest;
    lemma_line_end_of_line(line, rest);
    assert(s.take(line.len() as int) == line);
}

/// Reading a text that starts with a whole line goes on after that line
/// with what the line added.
pub proof fn lemma_parse_line(
    line: Seq<char>,
    rest: Seq<char>,
    acc: Seq<TableView>,
    close: Option<Seq<char>>,
)
    requires
        no_newline(line),
        absorb(acc, line) is Some,
        close != Some(line),
    ensures
        parse_from(line + seq!['\n'] + rest, acc, close) == parse_from(
            rest,
            absorb(acc, line)->0,
            close,
        ),
{
    let s = line + seq!['\n'] + rest;
    lemma_line_end_of_line(line, rest);
    assert(s.take(line.len() as int) == line);
    assert(s.skip(line.len() as int + 1) == rest);
}

proof fn lemma_header_reads_back(name: Seq<char>)
    requires
        no_newline(name),
    ensures
        is_header(header_open() + name + header_close()),
        header_name(header_open() + name + header_close()) == name,
        no_newline(header_open() + name + header_close()),
        (header_open() + name + header_close()).len() > 0,
        (header_open() + name + header_close())[0] == 'T',
        header_line(name) == header_open() + name + header_close() + seq!['\n'],
{
    reveal_strlit("Table \"");
    reveal_strlit("\":");
    reveal_strlit("\":\n");
    let line = header_open() + name + header_close();
    assert(line.subrange(0, header_open().len() as int) == header_open());
    assert(line.subrange(line.len() - header_close().len(), line.len() as int) == header_close());
    assert(header_name(line) == name);
    assert(header_line(name) == line + seq!['\n']);
    assert forall|i: int| 0 <= i < line.len() implies #[trigger] line[i] != '\n' by {
        if i < 7 {
        } else if i < 7 + name.len() {
            assert(line[i] == name[i - 7]);
        } else {
        }
    }
}

proof fn lemma_paren_gap_after_name(name: Seq<char>, ty: Seq<char>)
    requires
        no_paren_gap(name),
    ensures
        paren_gap(name + seq![' ', '('] + ty) == name.len(),
    decreases name.len(),
{
    let s = name + seq![' ', '('] + ty;
    if name.len() == 0 {
        assert(s[0] == ' ' && s[1] == '(');
    } else {
        assert(s[0] == name[0]);
        if name.len() >= 2 {
            assert(s[1] == name[1]);
            assert(!(name[0] == ' ' && name[1] == '('));
        } else {
            assert(s[1] == ' ');
        }
        let tail = name.drop_first();
        assert forall|i: int| 0 <= i < tail.len() - 1 implies !(#[trigger] tail[i] == ' ' && tail[i
            + 1] == '(') by {
            assert(tail[i] == name[i + 1]);
            assert(tail[i + 1] == name[i + 2]);
        }
        lemma_paren_gap_after_name(tail, ty);
        assert(s.drop_first() == tail + seq![' ', '('] + ty);
    }
}

/// The text of a column line without its line feed.
spec fn column_row(c: ColumnView) -> Seq<char> {
    column_open() + c.name + seq![' ', '('] + c.data_type + seq![')']
}

proof fn lemma_column_reads_back(c: ColumnView)
    requires
        column_is_plain(c),
    ensures
        !is_header(column_row(c)),
        is_column(column_row(c)),
        column_of(column_row(c)) == c,
        no_newline(column_row(c)),
        column_row(c).len() > 0,
        column_row(c)[0] == ' ',
        column_line(c) == column_row(c) + seq!['\n'],
{
    reveal_strlit("Table \"");
    reveal_strlit("  - ");
    reveal_strlit(" (");
    reveal_strlit(")\n");
    let line = column_row(c);
    let body = c.name + seq![' ', '('] + c.data_type;
    assert(line[0] == ' ');
    assert(header_open()[0] == 'T');
    if is_header(line) {
        assert(line.subrange(0, header_open().len() as int)[0] == header_open()[0]);
    }
    assert(line.subrange(0, column_open().len() as int) == column_open());
    assert(column_body(line) == body);
    lemma_paren_gap_after_name(c.name, c.data_type);
    assert(body.take(c.name.len() as int) == c.name);
    assert(body.skip(c.name.len() as int + 2) == c.data_type);
    assert(" ("@ == seq![' ', '(']);
    assert(")\n"@ == seq![')', '\n']);
    assert(column_line(c) == line + seq!['\n']);
    assert forall|i: int| 0 <= i < line.len() implies #[trigger] line[i] != '\n' by {
        let a = 4 + c.name.len();
        if i < 4 {
        } else if i < a {
            assert(line[i] == c.name[i - 4]);
        } else if i < a + 2 {
        } else if i < a + 2 + c.data_type.len() {
            assert(line[i] == c.data_type[i - a - 2]);
        } else {
        }
    }
}

/// `acc` with a run of columns added at the end of its last table.
spec fn with_columns(acc: Seq<TableView>, cols: Seq<ColumnView>) -> Seq<TableView> {
    acc.drop_last().push(TableView { name: acc.last().name, columns: acc.last().columns + cols })
}

proof fn lemma_columns_read_back(
    cols: Seq<ColumnView>,
    rest: Seq<char>,
    acc: Seq<TableView>,
    close: Option<Seq<char>>,
)
    requires
        columns_are_plain(cols),
        acc.len() > 0,
        closes_cleanly(close),
    ensures
        parse_from(columns_text(cols) + rest, acc, close) == parse_from(
            rest,
            with_columns(acc, cols),
            close,
        ),
    decreases cols.len(),
{
    if cols.len() == 0 {
        assert(columns_text(cols) + rest == rest);
        assert(acc.last().columns + cols == acc.last().columns);
        assert(with_columns(acc, cols) == acc);
    } else {
        let c = cols[0];
        let tail = cols.drop_first();
        lemma_column_reads_back(c);
        let line = column_row(c);
        let after = columns_text(tail) + rest;
        assert(columns_text(cols) + rest == line + seq!['\n'] + after);
        lemma_parse_line(line, after, acc, close);
        let next = with_column(acc, c);
        assert(absorb(acc, line) == Some(next));
        assert forall|j: int| 0 <= j < tail.len() implies column_is_plain(#[trigger] tail[j]) by {
            assert(tail[j] == cols[j + 1]);
        }
        lemma_columns_read_back(tail, rest, next, close);
        assert(next.last().columns + tail == acc.last().columns + cols);
        assert(next.drop_last() == acc.drop_last());
        assert(with_columns(next, tail) == with_columns(acc, cols));
    }
}

proof fn lemma_tables_read_back(
    tables: Seq<TableView>,
    rest: Seq<char>,
    acc: Seq<TableView>,
    close: Option<Seq<char>>,
)
    requires
        schema_is_plain(tables),
        closes_cleanly(close),
    ensures
        parse_from(schema_text(tables) + rest, acc, close) == parse_from(rest, acc + tables, close),
    decreases tables.len(),
{
    if tables.len() == 0 {
        assert(acc + tables == acc);
        assert(schema_text(tables) + rest == rest);
    } else {
        let t = tables[0];
        let tail = tables.drop_first();
        assert(table_is_plain(t));
        lemma_header_reads_back(t.name);
        let head = header_open() + t.name + header_close();
        let opened = acc.push(TableView { name: t.name, columns: Seq::empty() });
        assert(absorb(acc, head) == Some(opened));
        assert(Seq::<ColumnView>::empty() + t.columns == t.columns);
        assert(opened.drop_last() == acc);
        assert(with_columns(opened, t.columns) == acc.push(t));
        if tables.len() == 1 {
            let after = columns_text(t.columns) + rest;
            assert(schema_text(tables) + rest == head + seq!['\n'] + after);
            lemma_parse_line(head, after, acc, close);
            lemma_columns_read_back(t.columns, rest, opened, close);
            assert(acc.push(t) == acc + tables);
        } else {
            reveal_strlit("\n");
            assert("\n"@ == seq!['\n']);
            let later = schema_text(tail) + rest;
            let gap = seq!['\n'] + later;
            let after = columns_text(t.columns) + gap;
            assert(schema_text(tables) + rest == head + seq!['\n'] + after);
            lemma_parse_line(head, after, acc, close);
            lemma_columns_read_back(t.columns, gap, opened, close);
            assert(gap == Seq::<char>::empty() + seq!['\n'] + later);
            assert(absorb(acc.push(t), Seq::empty()) == Some(acc.push(t)));
            lemma_parse_line(Seq::empty(), later, acc.push(t), close);
            assert forall|i: int| 0 <= i < tail.len() implies table_is_plain(#[trigger] tail[i]) by {
                assert(tail[i] == tables[i + 1]);
            }
            lemma_tables_read_back(tail, rest, acc.push(t), close);
            assert(acc.push(t) + tail == acc + tables);
        }
    }
}

/// Reading a snapshot's text goes on behind it with the snapshot's tables
/// added to those read before, for every plain snapshot, whatever follows
/// the text.
pub proof fn lemma_text_reads_back_within(
    tables: Seq<TableView>,
    rest: Seq<char>,
    acc: Seq<TableView>,
    close: Option<Seq<char>>,
)
    requires
        schema_is_plain(tables),
        closes_cleanly(close),
    ensures
        parse_from(schema_text(tables) + rest, acc, close) == parse_from(rest, acc + tables, close),
{
    lemma_tables_read_back(tables, rest, acc, close);
}

proof fn lemma_paren_gap_is_first(s: Seq<char>)
    ensures
        -1 <= paren_gap(s),
        paren_gap(s) >= 0 ==> paren_gap(s) + 2 <= s.len() && no_paren_gap(s.take(paren_gap(s))),
    decreases s.len(),
{
    if s.len() < 2 {
    } else if s[0] == ' ' && s[1] == '(' {
    } else {
        let tail = s.drop_first();
        lemma_paren_gap_is_first(tail);
        let k = paren_gap(s);
        if k >= 0 {
            let name = s.take(k);
            let inner = tail.take(k - 1);
            assert forall|i: int| 0 <= i < name.len() - 1 implies !(#[trigger] name[i] == ' '
                && name[i + 1] == '(') by {
                if i == 0 {
                    assert(name[0] == s[0] && name[1] == s[1]);
                } else {
                    assert(inner[i - 1] == name[i]);
                    assert(inner[i] == name[i + 1]);
                }
            }
        }
    }
}

proof fn lemma_absorb_keeps_plain(acc: Seq<TableView>, line: Seq<char>)
    requires
        schema_is_plain(acc),
        no_newline(line),
        absorb(acc, line) is Some,
    ensures
        schema_is_plain(absorb(acc, line)->0),
{
    let next = absorb(acc, line)->0;
    if line.len() == 0 {
    } else if is_header(line) {
        let name = header_name(line);
        assert forall|i: int| 0 <= i < name.len() implies #[trigger] name[i] != '\n' by {
            assert(name[i] == line[i + header_open().len()]);
        }
        assert forall|i: int| 0 <= i < next.len() implies table_is_plain(#[trigger] next[i]) by {
            if i < acc.len() {
                assert(next[i] == acc[i]);
            }
        }
    } else {
        let body = column_body(line);
        let k = paren_gap(body);
        lemma_paren_gap_is_first(body);
        let c = column_of(line);
        assert forall|i: int| 0 <= i < c.name.len() implies #[trigger] c.name[i] != '\n' by {
            assert(c.name[i] == line[i + column_open().len()]);
        }
        assert forall|i: int| 0 <= i < c.data_type.len() implies #[trigger] c.data_type[i]
            != '\n' by {
            assert(c.data_type[i] == line[i + k + 2 + column_open().len()]);
        }
        let last = acc.last();
        let grown = last.columns.push(c);
        assert(table_is_plain(last));
        assert forall|j: int| 0 <= j < grown.len() implies column_is_plain(#[trigger] grown[j]) by {
            if j < last.columns.len() {
                assert(grown[j] == last.columns[j]);
            }
        }
        assert forall|i: int| 0 <= i < next.len() implies table_is_plain(#[trigger] next[i]) by {
            if i < acc.len() - 1 {
                assert(next[i] == acc[i]);
            }
        }
    }
}

proof fn lemma_parse_keeps_plain(s: Seq<char>, acc: Seq<TableView>, close: Option<Seq<char>>)
    requires
        schema_is_plain(acc),
        parse_from(s, acc, close) is Some,
    ensures
        schema_is_plain(parse_from(s, acc, close)->0),
    decreases s.len(),
{
    if s.len() > 0 && close != Some(s.take(line_end(s))) {
        let k = line_end(s);
        lemma_line_end_bounds(s);
        lemma_absorb_keeps_plain(acc, s.take(k));
        lemma_parse_keeps_plain(after_line(s), absorb(acc, s.take(k))->0, close);
    }
}

/// Whatever is read from a text is plain: no name or type read holds a line
/// feed, and no column name read holds a space directly before an opening
/// parenthesis.
pub proof fn lemma_parse_gives_plain(s: Seq<char>)
    requires
        parse_schema_text(s) is Some,
    ensures
        schema_is_plain(parse_schema_text(s)->0),
{
    lemma_parse_keeps_plain(s, Seq::empty(), None);
}

/// Writing a snapshot and reading the text back gives the snapshot again
/// exactly when the snapshot is plain.
pub proof fn lemma_round_trip_exactly_when_plain(tables: Seq<TableView>)
    ensures
        parse_schema_text(schema_text(tables)) == Some(tables) <==> schema_is_plain(tables),
{
    if schema_is_plain(tables) {
        lemma_render_then_parse(tables);
    }
    if parse_schema_text(schema_text(tables)) == Some(tables) {
        lemma_parse_gives_plain(schema_text(tables));
    }
}

/// Writing a snapshot and reading the text back gives the snapshot again,
/// table by table and column by column, for every snapshot in which no name
/// or type holds a line feed and no column name holds a space directly
/// before an opening parenthesis.
pub proof fn lemma_render_then_parse(tables: Seq<TableView>)
    requires
        schema_is_plain(tables),
    ensures
        parse_schema_text(schema_text(tables)) == Some(tables),
{
    lemma_tables_read_back(tables, Seq::empty(), Seq::empty(), None);
    assert(Seq::<TableView>::empty() + tables == tables);
    assert(schema_text(tables) + Seq::<char>::empty() == schema_text(tables));
}

} // verus!
