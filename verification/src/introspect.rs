//! Schema introspection as a state machine: which statement to run next, and
//! what each answer adds to the snapshot. The caller runs the statements.
use crate::schema::{
    columns_view, ColumnName, ColumnView, DatabaseSchema, TableName, TableSchema, TableView,
};
use crate::error::PipelineError;
use crate::rows::{fetched_view, result_text, rows_of, FetchedRow, QueryResult};
use crate::text::strings_view;
use crate::value::{value_text, SqlValue};
use vstd::prelude::*;
use vstd::string::StringExecFns;

verus! {

/// The statement that lists the tables of `catalog`.
pub open spec fn tables_query(catalog: Seq<char>) -> Seq<char> {
    "SELECT table_name AS `table_name` FROM information_schema.tables WHERE table_schema = '"@
        + catalog + "'"@
}

/// The statement that lists the columns of `table` in `catalog`, each with
/// its declared type.
pub open spec fn columns_query(catalog: Seq<char>, table: Seq<char>) -> Seq<char> {
    "SELECT column_name AS `column_name`, data_type AS `data_type` FROM information_schema.columns WHERE table_schema = '"@
        + catalog + "' AND table_name = '"@ + table + "'"@
}

/// The note left when the table listing could not be read.
pub open spec fn tables_failure_note(cause: Seq<char>) -> Seq<char> {
    "Failed to retrieve tables: "@ + cause
}

/// The note left when the columns of `table` could not be read.
pub open spec fn columns_failure_note(table: Seq<char>, cause: Seq<char>) -> Seq<char> {
    "Failed to get columns for table '"@ + table + "': "@ + cause
}

/// Where a snapshot in progress stands.
#[derive(Clone, Copy, Debug, PartialEq, Eq, Structural)]
pub enum Phase {
    /// Nothing has been asked yet.
    Idle,
    /// The table listing has been asked for.
    AwaitTables,
    /// The columns of the table under the cursor have been asked for.
    AwaitColumns,
    /// The snapshot is complete.
    Done,
}

/// What came back from the database.
pub enum SchemaEvent {
    /// Start the snapshot.
    Begin,
    /// The answer to the table listing, or the cause of its failure.
    Tables(Result<Vec<TableName>, String>),
    /// The answer to the column listing of the table last asked about, or
    /// the cause of its failure.
    Columns(Result<Vec<ColumnName>, String>),
}

/// What to do next.
pub enum SchemaStep {
    /// Run `sql`, which lists the tables.
    ListTables { sql: String },
    /// Run `sql`, which lists the columns of `table`.
    ListColumns { table: String, sql: String },
    /// The snapshot is complete.
    Finished,
    /// The event does not fit the phase; nothing has changed.
    Rejected,
}

/// An event, as plain text.
pub enum EventView {
    Begin,
    Tables(Result<Seq<Seq<char>>, Seq<char>>),
    Columns(Result<Seq<ColumnView>, Seq<char>>),
}

/// A step, as plain text.
pub enum StepView {
    ListTables { sql: Seq<char> },
    ListColumns { table: Seq<char>, sql: Seq<char> },
    Finished,
    Rejected,
}

/// A snapshot in progress, as plain values.
pub struct IntrospectView {
    pub catalog: Seq<char>,
    pub phase: Phase,
    pub pending: Seq<Seq<char>>,
    pub cursor: int,
    pub tables: Seq<TableView>,
    pub warnings: Seq<Seq<char>>,
}

/// The names of a table listing.
pub open spec fn names_view(names: Seq<TableName>) -> Seq<Seq<char>> {
    Seq::new(names.len(), |i: int| names[i]@)
}

impl View for SchemaEvent {
    type V = EventView;

    open spec fn view(&self) -> EventView {
        match self {
            SchemaEvent::Begin => EventView::Begin,
            SchemaEvent::Tables(Ok(names)) => EventView::Tables(Ok(names_view(names@))),
            SchemaEvent::Tables(Err(cause)) => EventView::Tables(Err(cause@)),
            SchemaEvent::Columns(Ok(columns)) => EventView::Columns(Ok(columns_view(columns@))),
            SchemaEvent::Columns(Err(cause)) => EventView::Columns(Err(cause@)),
        }
    }
}

impl View for SchemaStep {
    type V = StepView;

    open spec fn view(&self) -> StepView {
        match self {
            SchemaStep::ListTables { sql } => StepView::ListTables { sql: sql@ },
            SchemaStep::ListColumns { table, sql } => StepView::ListColumns {
                table: table@,
                sql: sql@,
            },
            SchemaStep::Finished => StepView::Finished,
            SchemaStep::Rejected => StepView::Rejected,
        }
    }
}

/// The state before anything has been asked.
pub open spec fn initial(catalog: Seq<char>) -> IntrospectView {
    IntrospectView {
        catalog,
        phase: Phase::Idle,
        pending: Seq::empty(),
        cursor: 0,
        tables: Seq::empty(),
        warnings: Seq::empty(),
    }
}

/// Asks for the columns of the table under the cursor, or finishes where no
/// table is left.
pub open spec fn move_on(s: IntrospectView) -> (IntrospectView, StepView) {
    if 0 <= s.cursor < s.pending.len() {
        (
            IntrospectView { phase: Phase::AwaitColumns, ..s },
            StepView::ListColumns {
                table: s.pending[s.cursor],
                sql: columns_query(s.catalog, s.pending[s.cursor]),
            },
        )
    } else {
        (IntrospectView { phase: Phase::Done, ..s }, StepView::Finished)
    }
}

/// The next state and the next step, for every state and every event.
///
/// A failed table listing ends the snapshot with no table. A failed column
/// listing leaves its table out and goes on with the next one. Either
/// failure leaves a note. An event that does not fit the phase is rejected
/// and changes nothing.
pub open spec fn step(s: IntrospectView, e: EventView) -> (IntrospectView, StepView) {
    match (s.phase, e) {
        (Phase::Idle, EventView::Begin) => (
            IntrospectView { phase: Phase::AwaitTables, ..s },
            StepView::ListTables { sql: tables_query(s.catalog) },
        ),
        (Phase::AwaitTables, EventView::Tables(Ok(names))) => move_on(
            IntrospectView { pending: names, cursor: 0, ..s },
        ),
        (Phase::AwaitTables, EventView::Tables(Err(cause))) => (
            IntrospectView {
                phase: Phase::Done,
                warnings: s.warnings.push(tables_failure_note(cause)),
                ..s
            },
            StepView::Finished,
        ),
        (Phase::AwaitColumns, EventView::Columns(Ok(columns))) => if 0 <= s.cursor
            < s.pending.len() {
            move_on(
                IntrospectView {
                    tables: s.tables.push(TableView { name: s.pending[s.cursor], columns }),
                    cursor: s.cursor + 1,
                    ..s
                },
            )
        } else {
            (s, StepView::Rejected)
        },
        (Phase::AwaitColumns, EventView::Columns(Err(cause))) => if 0 <= s.cursor
            < s.pending.len() {
            move_on(
                IntrospectView {
                    warnings: s.warnings.push(columns_failure_note(s.pending[s.cursor], cause)),
                    cursor: s.cursor + 1,
                    ..s
                },
            )
        } else {
            (s, StepView::Rejected)
        },
        _ => (s, StepView::Rejected),
    }
}

/// The tables that a snapshot keeps: each listed table whose column listing
/// succeeded, with the columns it gave, in listing order.
pub open spec fn kept_tables(
    names: Seq<Seq<char>>,
    outcomes: Seq<Result<Seq<ColumnView>, Seq<char>>>,
) -> Seq<TableView>
    decreases names.len(),
{
    if names.len() == 0 || outcomes.len() == 0 {
        Seq::empty()
    } else {
        let rest = kept_tables(names.drop_first(), outcomes.drop_first());
        match outcomes[0] {
            Ok(columns) => seq![TableView { name: names[0], columns }] + rest,
            Err(_) => rest,
        }
    }
}

/// The state after the column answers `outcomes` have come in, one after
/// the other.
pub open spec fn feed(
    s: IntrospectView,
    outcomes: Seq<Result<Seq<ColumnView>, Seq<char>>>,
) -> IntrospectView
    decreases outcomes.len(),
{
    if outcomes.len() == 0 {
        s
    } else {
        feed(step(s, EventView::Columns(outcomes[0])).0, outcomes.drop_first())
    }
}

/// The state once the listing `names` has been answered and every column
/// query has had its outcome.
pub open spec fn snapshot_run(
    catalog: Seq<char>,
    names: Seq<Seq<char>>,
    outcomes: Seq<Result<Seq<ColumnView>, Seq<char>>>,
) -> IntrospectView {
    let asked = step(initial(catalog), EventView::Begin).0;
    let listed = step(asked, EventView::Tables(Ok(names))).0;
    feed(listed, outcomes)
}

proof fn lemma_feed(s: IntrospectView, outcomes: Seq<Result<Seq<ColumnView>, Seq<char>>>)
    requires
        0 <= s.cursor <= s.pending.len(),
        outcomes.len() == s.pending.len() - s.cursor,
        s.phase == if s.cursor < s.pending.len() {
            Phase::AwaitColumns
        } else {
            Phase::Done
        },
    ensures
        feed(s, outcomes).phase == Phase::Done,
        feed(s, outcomes).tables == s.tables + kept_tables(
            s.pending.skip(s.cursor),
            outcomes,
        ),
        feed(s, outcomes).warnings.len() + feed(s, outcomes).tables.len() == s.warnings.len()
            + s.tables.len() + outcomes.len(),
    decreases outcomes.len(),
{
    let names = s.pending.skip(s.cursor);
    if outcomes.len() == 0 {
        assert(s.tables + Seq::<TableView>::empty() == s.tables);
    } else {
        let next = step(s, EventView::Columns(outcomes[0])).0;
        lemma_feed(next, outcomes.drop_first());
        assert(names.drop_first() == s.pending.skip(s.cursor + 1));
        assert(names[0] == s.pending[s.cursor]);
        let rest = kept_tables(names.drop_first(), outcomes.drop_first());
        match outcomes[0] {
            Ok(columns) => {
                let t = TableView { name: names[0], columns };
                assert(s.tables.push(t) + rest == s.tables + (seq![t] + rest));
            },
            Err(_) => {},
        }
    }
}

/// However the column queries turn out, the snapshot completes, and it
/// holds exactly the listed tables whose column query succeeded, in listing
/// order. Each table is either kept or noted as failed.
pub proof fn lemma_snapshot_keeps_what_succeeded(
    catalog: Seq<char>,
    names: Seq<Seq<char>>,
    outcomes: Seq<Result<Seq<ColumnView>, Seq<char>>>,
)
    requires
        names.len() == outcomes.len(),
    ensures
        snapshot_run(catalog, names, outcomes).phase == Phase::Done,
        snapshot_run(catalog, names, outcomes).tables == kept_tables(names, outcomes),
        snapshot_run(catalog, names, outcomes).tables.len() + snapshot_run(
            catalog,
            names,
            outcomes,
        ).warnings.len() == names.len(),
{
    let asked = step(initial(catalog), EventView::Begin).0;
    let listed = step(asked, EventView::Tables(Ok(names))).0;
    lemma_feed(listed, outcomes);
    assert(names.skip(0) == names);
    assert(Seq::<TableView>::empty() + kept_tables(names, outcomes) == kept_tables(
        names,
        outcomes,
    ));
}

/// Where the table listing itself fails, the snapshot completes at once,
/// holds no table, and carries one note.
pub proof fn lemma_failed_listing_gives_empty_snapshot(catalog: Seq<char>, cause: Seq<char>)
    ensures
        ({
            let asked = step(initial(catalog), EventView::Begin).0;
            let ended = step(asked, EventView::Tables(Err(cause)));
            &&& ended.1 == StepView::Finished
            &&& ended.0.phase == Phase::Done
            &&& ended.0.tables == Seq::<TableView>::empty()
            &&& ended.0.warnings == seq![tables_failure_note(cause)]
        }),
{
    let asked = step(initial(catalog), EventView::Begin).0;
    let ended = step(asked, EventView::Tables(Err(cause)));
    assert(ended.0.warnings =~= seq![tables_failure_note(cause)]);
}

/// Where every column query succeeds, the snapshot holds every listed
/// table, each with the columns its query gave.
pub proof fn lemma_kept_tables_all_succeed(
    names: Seq<Seq<char>>,
    outcomes: Seq<Result<Seq<ColumnView>, Seq<char>>>,
)
    requires
        names.len() == outcomes.len(),
        forall|i: int| 0 <= i < outcomes.len() ==> (#[trigger] outcomes[i]) is Ok,
    ensures
        kept_tables(names, outcomes) == Seq::new(
            names.len(),
            |i: int| TableView { name: names[i], columns: outcomes[i]->Ok_0 },
        ),
    decreases names.len(),
{
    let all = Seq::new(
        names.len(),
        |i: int| TableView { name: names[i], columns: outcomes[i]->Ok_0 },
    );
    if names.len() == 0 {
        assert(kept_tables(names, outcomes) =~= all);
    } else {
        let n1 = names.drop_first();
        let o1 = outcomes.drop_first();
        assert forall|i: int| 0 <= i < o1.len() implies (#[trigger] o1[i]) is Ok by {
            assert(o1[i] == outcomes[i + 1]);
        }
        lemma_kept_tables_all_succeed(n1, o1);
        assert(outcomes[0] is Ok);
        assert(kept_tables(names, outcomes) =~= all);
    }
}

/// A table whose column query failed is left out, and nothing else
/// changes: the snapshot is the one that the other tables alone would give.
pub proof fn lemma_kept_tables_omit_failure(
    names: Seq<Seq<char>>,
    outcomes: Seq<Result<Seq<ColumnView>, Seq<char>>>,
    k: int,
)
    requires
        names.len() == outcomes.len(),
        0 <= k < names.len(),
        outcomes[k] is Err,
    ensures
        kept_tables(names, outcomes) == kept_tables(names.remove(k), outcomes.remove(k)),
    decreases names.len(),
{
    if k == 0 {
        assert(names.remove(0) == names.drop_first());
        assert(outcomes.remove(0) == outcomes.drop_first());
    } else {
        lemma_kept_tables_omit_failure(names.drop_first(), outcomes.drop_first(), k - 1);
        assert(names.remove(k).drop_first() == names.drop_first().remove(k - 1));
        assert(outcomes.remove(k).drop_first() == outcomes.drop_first().remove(k - 1));
        assert(names.remove(k)[0] == names[0]);
        assert(outcomes.remove(k)[0] == outcomes[0]);
    }
}


/// Takes the snapshot of one database, step by step.
pub struct DbUtil {
    catalog: String,
    phase: Phase,
    pending: Vec<TableName>,
    cursor: usize,
    schema: DatabaseSchema,
    warnings: Vec<String>,
}

impl View for DbUtil {
    type V = IntrospectView;

    closed spec fn view(&self) -> IntrospectView {
        IntrospectView {
            catalog: self.catalog@,
            phase: self.phase,
            pending: names_view(self.pending@),
            cursor: self.cursor as int,
            tables: self.schema@,
            warnings: strings_view(self.warnings@),
        }
    }
}

impl DbUtil {
    /// A snapshot of `catalog` that has not started.
    pub fn new(catalog: String) -> (db: DbUtil)
        ensures
            db@ == initial(catalog@),
    {
        let db = DbUtil {
            catalog,
            phase: Phase::Idle,
            pending: Vec::new(),
            cursor: 0,
            schema: DatabaseSchema { schemas: Vec::new() },
            warnings: Vec::new(),
        };
        assert(db@.pending =~= Seq::empty());
        assert(db@.tables =~= Seq::empty());
        assert(db@.warnings =~= Seq::empty());
        db
    }

    /// The statement that lists the tables of this catalog.
    pub fn get_all_tables(&self) -> (sql: String)
        ensures
            sql@ == tables_query(self@.catalog),
    {
        let mut sql = String::from_str(
            "SELECT table_name AS `table_name` FROM information_schema.tables WHERE table_schema = '",
        );
        sql.append(self.catalog.as_str());
        sql.append("'");
        sql
    }

    /// The statement that lists the columns of `table_name` in this catalog.
    pub fn get_columns_for_table(&self, table_name: &str) -> (sql: String)
        ensures
            sql@ == columns_query(self@.catalog, table_name@),
    {
        let mut sql = String::from_str(
            "SELECT column_name AS `column_name`, data_type AS `data_type` FROM information_schema.columns WHERE table_schema = '",
        );
        sql.append(self.catalog.as_str());
        sql.append("' AND table_name = '");
        sql.append(table_name);
        sql.append("'");
        sql
    }

    /// Where the snapshot stands.
    pub fn phase(&self) -> (p: Phase)
        ensures
            p == self@.phase,
    {
        self.phase
    }

    /// The tables read so far.
    pub fn schema(&self) -> (s: &DatabaseSchema)
        ensures
            s@ == self@.tables,
    {
        &self.schema
    }

    /// The notes left by the listings that failed, oldest first.
    pub fn warnings(&self) -> (w: &Vec<String>)
        ensures
            strings_view(w@) == self@.warnings,
    {
        &self.warnings
    }

    /// Gives up the machine for the tables it has read.
    pub fn into_schema(self) -> (s: DatabaseSchema)
        ensures
            s@ == self@.tables,
    {
        self.schema
    }

    /// The rows of an answer, given what running the statement came to.
    /// A statement that the database rejected gives `Execution` with the
    /// database's message.
    pub fn query(fetched: Result<Vec<FetchedRow>, String>) -> (r: Result<
        QueryResult,
        PipelineError,
    >)
        ensures
            match fetched {
                Ok(rows) => r is Ok && r->Ok_0@ == rows_of(fetched_view(rows@)),
                Err(cause) => r is Err && r->Err_0 == PipelineError::Execution(cause),
            },
    {
        match fetched {
            Ok(rows) => Ok(QueryResult::from_fetched(&rows)),
            Err(cause) => Err(PipelineError::Execution(cause)),
        }
    }

    /// The answer as text, given what running the statement came to.
    pub fn query_as_string(fetched: Result<Vec<FetchedRow>, String>) -> (r: Result<
        String,
        PipelineError,
    >)
        ensures
            match fetched {
                Ok(rows) => r is Ok && r->Ok_0@ == result_text(rows_of(fetched_view(rows@))),
                Err(cause) => r is Err && r->Err_0 == PipelineError::Execution(cause),
            },
    {
        match DbUtil::query(fetched) {
            Ok(result) => Ok(result.render()),
            Err(e) => Err(e),
        }
    }

    /// The text of one value.
    pub fn value_to_string(val: &SqlValue) -> (s: String)
        ensures
            s@ == value_text(val@),
    {
        val.render()
    }

    fn proceed(&mut self) -> (next: SchemaStep)
        ensures
            (final(self)@, next@) == move_on(old(self)@),
    {
        if self.cursor < self.pending.len() {
            self.phase = Phase::AwaitColumns;
            let table = self.pending[self.cursor].table_name.clone();
            let sql = self.get_columns_for_table(table.as_str());
            SchemaStep::ListColumns { table, sql }
        } else {
            self.phase = Phase::Done;
            SchemaStep::Finished
        }
    }

    /// Takes one event and says what to do next: the whole of the snapshot
    /// logic, one answer at a time.
    pub fn get_database_schema(&mut self, event: SchemaEvent) -> (next: SchemaStep)
        ensures
            (final(self)@, next@) == step(old(self)@, event@),
    {
        match event {
            SchemaEvent::Begin => {
                if self.phase == Phase::Idle {
                    self.phase = Phase::AwaitTables;
                    let sql = self.get_all_tables();
                    SchemaStep::ListTables { sql }
                } else {
                    SchemaStep::Rejected
                }
            },
            SchemaEvent::Tables(answer) => {
                if self.phase == Phase::AwaitTables {
                    match answer {
                        Ok(names) => {
                            self.pending = names;
                            self.cursor = 0;
                            self.proceed()
                        },
                        Err(cause) => {
                            let mut note = String::from_str("Failed to retrieve tables: ");
                            note.append(cause.as_str());
                            self.warnings.push(note);
                            self.phase = Phase::Done;
                            assert(final(self)@.warnings =~= old(self)@.warnings.push(
                                tables_failure_note(cause@),
                            ));
                            SchemaStep::Finished
                        },
                    }
                } else {
                    SchemaStep::Rejected
                }
            },
            SchemaEvent::Columns(answer) => {
                if self.phase == Phase::AwaitColumns && self.cursor < self.pending.len() {
                    match answer {
                        Ok(columns) => {
                            let table = TableSchema {
                                table_name: self.pending[self.cursor].table_name.clone(),
                                field_columns: columns,
                            };
                            self.schema.schemas.push(table);
                            self.cursor = self.cursor + 1;
                            assert(self@.tables =~= old(self)@.tables.push(table@));
                            self.proceed()
                        },
                        Err(cause) => {
                            let mut note = String::from_str("Failed to get columns for table '");
                            note.append(self.pending[self.cursor].table_name.as_str());
                            note.append("': ");
                            note.append(cause.as_str());
                            self.warnings.push(note);
                            self.cursor = self.cursor + 1;
                            assert(self@.warnings =~= old(self)@.warnings.push(
                                columns_failure_note(
                                    old(self)@.pending[old(self)@.cursor],
                                    cause@,
                                ),
                            ));
                            self.proceed()
                        },
                    }
                } else {
                    SchemaStep::Rejected
                }
            },
        }
    }
}

} // verus!
