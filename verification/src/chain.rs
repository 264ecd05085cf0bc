//! One request from question to answer, as a state machine. The caller does
//! the outside work (the snapshot, the text completion, the statement) and
//! reports each outcome; the chain decides what comes next.
use crate::error::{ErrorView, PipelineError};
use crate::prompt::{prompt_text, PromptBuilder};
use crate::rows::{fetched_view, result_text, rows_of, FetchedRow, FetchedView, QueryResult};
use crate::sanitize::{clean_text, lemma_clean_text_is_clean, no_fence, GeneratedSql};
use crate::schema::{DatabaseSchema, TableView};
use vstd::prelude::*;
use vstd::string::StringExecFns;

verus! {

/// Where a request stands.
#[derive(Clone, Copy, Debug, PartialEq, Eq, Structural)]
pub enum Stage {
    /// No question has been asked.
    Ready,
    /// The snapshot has been asked for.
    AwaitSchema,
    /// The statement has been asked for.
    AwaitSql,
    /// The statement is being run.
    AwaitRows,
    /// The request has ended, with an answer or a failure.
    Finished,
}

/// What the caller reports.
pub enum ChainEvent {
    /// A question to answer.
    Ask(String),
    /// The snapshot of the database; an empty one where none could be had.
    Schema(DatabaseSchema),
    /// The generator's raw text, or the cause of its failure.
    Generated(Result<String, String>),
    /// The fetched rows, or the database's message on rejecting the
    /// statement.
    Rows(Result<Vec<FetchedRow>, String>),
    /// No connection to the database could be had.
    Unreachable(String),
}

/// What the caller is to do next.
pub enum ChainAction {
    /// Take a snapshot of `catalog`.
    Introspect { catalog: String },
    /// Ask the text-completion service, under the profile `model`.
    Generate { model: String, prompt: String },
    /// Run the statement.
    Execute { sql: String },
    /// Hand the answer to the user; the request is over.
    Answer(String),
    /// Report the failure; the request is over.
    Fail(PipelineError),
    /// The event does not fit the stage; nothing has changed.
    Rejected,
}

/// An event, as plain data.
pub enum ChainEventView {
    Ask(Seq<char>),
    Schema(Seq<TableView>),
    Generated(Result<Seq<char>, Seq<char>>),
    Rows(Result<Seq<FetchedView>, Seq<char>>),
    Unreachable(Seq<char>),
}

/// An action, as plain data.
pub enum ChainActionView {
    Introspect { catalog: Seq<char> },
    Generate { model: Seq<char>, prompt: Seq<char> },
    Execute { sql: Seq<char> },
    Answer(Seq<char>),
    Fail(ErrorView),
    Rejected,
}

/// A request in progress, as plain data.
pub struct ChainView {
    pub model: Seq<char>,
    pub dialect: Seq<char>,
    pub catalog: Seq<char>,
    pub stage: Stage,
    pub question: Seq<char>,
}

impl View for ChainEvent {
    type V = ChainEventView;

    open spec fn view(&self) -> ChainEventView {
        match self {
            ChainEvent::Ask(q) => ChainEventView::Ask(q@),
            ChainEvent::Schema(s) => ChainEventView::Schema(s@),
            ChainEvent::Generated(Ok(raw)) => ChainEventView::Generated(Ok(raw@)),
            ChainEvent::Generated(Err(cause)) => ChainEventView::Generated(Err(cause@)),
            ChainEvent::Rows(Ok(rows)) => ChainEventView::Rows(Ok(fetched_view(rows@))),
            ChainEvent::Rows(Err(cause)) => ChainEventView::Rows(Err(cause@)),
            ChainEvent::Unreachable(cause) => ChainEventView::Unreachable(cause@),
        }
    }
}

impl View for ChainAction {
    type V = ChainActionView;

    open spec fn view(&self) -> ChainActionView {
        match self {
            ChainAction::Introspect { catalog } => ChainActionView::Introspect {
                catalog: catalog@,
            },
            ChainAction::Generate { model, prompt } => ChainActionView::Generate {
                model: model@,
                prompt: prompt@,
            },
            ChainAction::Execute { sql } => ChainActionView::Execute { sql: sql@ },
            ChainAction::Answer(text) => ChainActionView::Answer(text@),
            ChainAction::Fail(e) => ChainActionView::Fail(e@),
            ChainAction::Rejected => ChainActionView::Rejected,
        }
    }
}

/// A chain that has not been asked anything.
pub open spec fn fresh(model: Seq<char>, dialect: Seq<char>, catalog: Seq<char>) -> ChainView {
    ChainView { model, dialect, catalog, stage: Stage::Ready, question: Seq::empty() }
}

/// The chain `s` at the end of its request.
pub open spec fn ended(s: ChainView) -> ChainView {
    ChainView { stage: Stage::Finished, ..s }
}

/// The next state and the action, for every state and every event.
///
/// A question starts the snapshot; the snapshot gives the prompt; the
/// generated text is cleaned and, unless nothing is left of it, run; the
/// rows give the answer. Every failure ends the request. An event that
/// does not fit the stage is rejected and changes nothing.
pub open spec fn step(s: ChainView, e: ChainEventView) -> (ChainView, ChainActionView) {
    match (s.stage, e) {
        (Stage::Ready, ChainEventView::Ask(question)) => (
            ChainView { stage: Stage::AwaitSchema, question, ..s },
            ChainActionView::Introspect { catalog: s.catalog },
        ),
        (Stage::AwaitSchema, ChainEventView::Schema(schema)) => (
            ChainView { stage: Stage::AwaitSql, ..s },
            ChainActionView::Generate {
                model: s.model,
                prompt: prompt_text(schema, s.dialect, s.question),
            },
        ),
        (Stage::AwaitSchema, ChainEventView::Unreachable(cause)) => (
            ended(s),
            ChainActionView::Fail(ErrorView::Connection(cause)),
        ),
        (Stage::AwaitSql, ChainEventView::Generated(Ok(raw))) => if clean_text(raw).len() == 0 {
            (ended(s), ChainActionView::Fail(ErrorView::Extraction))
        } else {
            (
                ChainView { stage: Stage::AwaitRows, ..s },
                ChainActionView::Execute { sql: clean_text(raw) },
            )
        },
        (Stage::AwaitSql, ChainEventView::Generated(Err(cause))) => (
            ended(s),
            ChainActionView::Fail(ErrorView::Generation(cause)),
        ),
        (Stage::AwaitRows, ChainEventView::Rows(Ok(rows))) => (
            ended(s),
            ChainActionView::Answer(result_text(rows_of(rows))),
        ),
        (Stage::AwaitRows, ChainEventView::Rows(Err(cause))) => (
            ended(s),
            ChainActionView::Fail(ErrorView::Execution(cause)),
        ),
        (Stage::AwaitRows, ChainEventView::Unreachable(cause)) => (
            ended(s),
            ChainActionView::Fail(ErrorView::Connection(cause)),
        ),
        _ => (s, ChainActionView::Rejected),
    }
}

/// No empty statement is ever run: whatever the state and the event, a
/// statement handed out for execution is not empty, holds no fence marker,
/// and is its own cleaned form.
pub proof fn lemma_only_clean_statements_run(s: ChainView, e: ChainEventView)
    requires
        step(s, e).1 is Execute,
    ensures
        step(s, e).1->sql.len() > 0,
        no_fence(step(s, e).1->sql),
        clean_text(step(s, e).1->sql) == step(s, e).1->sql,
{
    match (s.stage, e) {
        (Stage::AwaitSql, ChainEventView::Generated(Ok(raw))) => {
            lemma_clean_text_is_clean(raw);
            crate::sanitize::lemma_clean_idempotent(raw);
        },
        _ => {},
    }
}

/// A request whose outside work all succeeds goes from question to answer
/// in four steps: snapshot, generation with the prompt built from the
/// snapshot and the question, execution of the cleaned statement, and the
/// answer rendered from the rows.
pub proof fn lemma_request_runs_to_answer(
    start: ChainView,
    question: Seq<char>,
    schema: Seq<TableView>,
    raw: Seq<char>,
    rows: Seq<FetchedView>,
)
    requires
        start.stage == Stage::Ready,
        clean_text(raw).len() > 0,
    ensures
        ({
            let a = step(start, ChainEventView::Ask(question));
            let b = step(a.0, ChainEventView::Schema(schema));
            let c = step(b.0, ChainEventView::Generated(Ok(raw)));
            let d = step(c.0, ChainEventView::Rows(Ok(rows)));
            &&& a.1 == ChainActionView::Introspect { catalog: start.catalog }
            &&& b.1 == ChainActionView::Generate {
                model: start.model,
                prompt: prompt_text(schema, start.dialect, question),
            }
            &&& c.1 == ChainActionView::Execute { sql: clean_text(raw) }
            &&& d.1 == ChainActionView::Answer(result_text(rows_of(rows)))
            &&& d.0.stage == Stage::Finished
        }),
{
}

/// A failure or an answer ends the request, and a request that has ended
/// rejects every further event.
pub proof fn lemma_request_ends_once(s: ChainView, e: ChainEventView, later: ChainEventView)
    ensures
        (step(s, e).1 is Fail || step(s, e).1 is Answer) ==> step(s, e).0.stage == Stage::Finished,
        s.stage == Stage::Finished ==> step(s, later) == (s, ChainActionView::Rejected),
{
}

/// Answers questions about one database through one model profile.
pub struct TextToSqlChain {
    model: String,
    prompts: PromptBuilder,
    catalog: String,
    stage: Stage,
    question: String,
}

impl View for TextToSqlChain {
    type V = ChainView;

    closed spec fn view(&self) -> ChainView {
        ChainView {
            model: self.model@,
            dialect: self.prompts.dialect@,
            catalog: self.catalog@,
            stage: self.stage,
            question: self.question@,
        }
    }
}

impl TextToSqlChain {
    /// A chain for the model profile `model`, the SQL dialect `dialect` and
    /// the catalog `catalog`, ready for a question.
    pub fn initialze(model: String, dialect: String, catalog: String) -> (chain: TextToSqlChain)
        ensures
            chain@ == fresh(model@, dialect@, catalog@),
    {
        TextToSqlChain {
            model,
            prompts: PromptBuilder::new(dialect),
            catalog,
            stage: Stage::Ready,
            question: String::new(),
        }
    }

    /// Where the request stands.
    pub fn stage(&self) -> (stage: Stage)
        ensures
            stage == self@.stage,
    {
        self.stage
    }

    /// The snapshot to work with, given what taking it came to. Where no
    /// connection could be had, the failure says so.
    pub fn get_db_info(&self, snapshot: Result<DatabaseSchema, String>) -> (r: Result<
        DatabaseSchema,
        PipelineError,
    >)
        ensures
            match snapshot {
                Ok(schema) => r == Ok::<DatabaseSchema, PipelineError>(schema),
                Err(_) => r is Err && r->Err_0@ == ErrorView::Connection(
                    "fail to get database schema"@,
                ),
            },
    {
        match snapshot {
            Ok(schema) => Ok(schema),
            Err(_) => Err(
                PipelineError::Connection(String::from_str("fail to get database schema")),
            ),
        }
    }

    /// The prompt for `input` over `schema`, in this chain's dialect.
    pub fn construct_prompt(&self, schema: &DatabaseSchema, input: &str) -> (prompt: String)
        ensures
            prompt@ == prompt_text(schema@, self@.dialect, input@),
    {
        self.prompts.build(schema, input)
    }

    /// Takes one event and says what to do next.
    pub fn run(&mut self, event: ChainEvent) -> (next: ChainAction)
        ensures
            (final(self)@, next@) == step(old(self)@, event@),
    {
        match event {
            ChainEvent::Ask(question) => {
                if self.stage == Stage::Ready {
                    self.question = question;
                    self.stage = Stage::AwaitSchema;
                    ChainAction::Introspect { catalog: self.catalog.clone() }
                } else {
                    ChainAction::Rejected
                }
            },
            ChainEvent::Schema(schema) => {
                if self.stage == Stage::AwaitSchema {
                    let prompt = self.construct_prompt(&schema, self.question.as_str());
                    self.stage = Stage::AwaitSql;
                    ChainAction::Generate { model: self.model.clone(), prompt }
                } else {
                    ChainAction::Rejected
                }
            },
            ChainEvent::Generated(outcome) => {
                if self.stage == Stage::AwaitSql {
                    match outcome {
                        Ok(raw) => match GeneratedSql::from_raw(raw) {
                            Ok(sql) => {
                                self.stage = Stage::AwaitRows;
                                ChainAction::Execute { sql: sql.sanitized().clone() }
                            },
                            Err(e) => {
                                self.stage = Stage::Finished;
                                ChainAction::Fail(e)
                            },
                        },
                        Err(cause) => {
                            self.stage = Stage::Finished;
                            ChainAction::Fail(PipelineError::Generation(cause))
                        },
                    }
                } else {
                    ChainAction::Rejected
                }
            },
            ChainEvent::Rows(outcome) => {
                if self.stage == Stage::AwaitRows {
                    self.stage = Stage::Finished;
                    match outcome {
                        Ok(rows) => ChainAction::Answer(QueryResult::from_fetched(&rows).render()),
                        Err(cause) => ChainAction::Fail(PipelineError::Execution(cause)),
                    }
                } else {
                    ChainAction::Rejected
                }
            },
            ChainEvent::Unreachable(cause) => {
                if self.stage == Stage::AwaitSchema || self.stage == Stage::AwaitRows {
                    self.stage = Stage::Finished;
                    ChainAction::Fail(PipelineError::Connection(cause))
                } else {
                    ChainAction::Rejected
                }
            },
        }
    }
}

} // verus!
