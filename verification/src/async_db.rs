//! The database handle of the pipeline: the connection options that a URL
//! gives, and the answer that fetched rows give.
use crate::config::DatabaseConfig;
use crate::error::PipelineError;
use crate::rows::{fetched_view, result_text, rows_of, FetchedRow, QueryResult};
use crate::value::{value_text, SqlValue};
use vstd::prelude::*;

verus! {

/// Connection options of the `mysql` crate. Opaque here: they are made from
/// a URL and handed on to whoever opens the connection.
#[verifier::external_type_specification]
#[verifier::external_body]
pub struct ExOpts(mysql::Opts);

/// The reason for which the `mysql` crate refused a URL.
#[verifier::external_type_specification]
#[verifier::external_body]
pub struct ExUrlError(mysql::UrlError);

/// Whether `mysql::Opts::from_url` accepts `url`.
pub uninterp spec fn mysql_url_accepted(url: Seq<char>) -> bool;

/// `mysql::Opts::from_url`: parses a connection URL. Whether it accepts a
/// URL depends on the URL alone. Nothing is claimed of the options it
/// gives, nor of the reason it gives for a refusal.
#[verifier::external_body]
fn parse_url(url: &str) -> (r: Result<mysql::Opts, mysql::UrlError>)
    ensures
        r is Ok == mysql_url_accepted(url@),
{
    mysql::Opts::from_url(url)
}

/// What a `mysql::UrlError` says of itself. Nothing is claimed of the text.
#[verifier::external_body]
fn url_error_text(e: &mysql::UrlError) -> (s: String) {
    e.to_string()
}

/// The database on which statements are run.
pub struct AsyncDb {
    db_url: String,
    opts: mysql::Opts,
}

impl AsyncDb {
    /// The URL that this handle was made from.
    pub closed spec fn url(&self) -> Seq<char> {
        self.db_url@
    }

    /// The connection options that this handle holds: those that parsing
    /// its URL gave.
    pub closed spec fn options(&self) -> mysql::Opts {
        self.opts
    }

    /// A handle for the database at `config.db_url`. Fails with
    /// `Configuration` exactly when the URL is not accepted as a MySQL
    /// connection URL.
    pub fn new(config: DatabaseConfig) -> (r: Result<AsyncDb, PipelineError>)
        ensures
            r is Ok == mysql_url_accepted(config.db_url@),
            r is Ok ==> r->Ok_0.url() == config.db_url@,
            r is Err ==> r->Err_0 is Configuration,
    {
        let parsed = parse_url(config.db_url.as_str());
        AsyncDb::from_parsed(config.db_url, parsed)
    }

    /// A handle for the database at `db_url`, given what parsing the URL
    /// came to: a handle that holds the options where it was accepted, else
    /// a `Configuration` failure.
    pub fn from_parsed(db_url: String, parsed: Result<mysql::Opts, mysql::UrlError>) -> (r: Result<
        AsyncDb,
        PipelineError,
    >)
        ensures
            r is Ok == parsed is Ok,
            r is Ok ==> r->Ok_0.url() == db_url@,
            r is Ok ==> r->Ok_0.options() == parsed->Ok_0,
            r is Err ==> r->Err_0 is Configuration,
    {
        match parsed {
            Ok(opts) => Ok(AsyncDb { db_url, opts }),
            Err(e) => Err(PipelineError::Configuration(url_error_text(&e))),
        }
    }

    /// The URL that this handle was made from.
    pub fn db_url(&self) -> (s: &String)
        ensures
            s@ == self.url(),
    {
        &self.db_url
    }

    /// The connection options that this handle holds, for whoever opens
    /// the connection: the very options that parsing the URL gave.
    pub fn opts(&self) -> (o: &mysql::Opts)
        ensures
            *o == self.options(),
    {
        &self.opts
    }

    /// The rows of an answer, given what running the statement came to.
    /// A statement that the database rejected gives `Execution` with the
    /// database's message.
    pub fn query(fetched: Result<Vec<FetchedRow>, String>) -> (r: Result<
        QueryResult,
        PipelineError,
    >)
        ensures
            match fetched {
                Ok(rows) => r is Ok && r->Ok_0@ == rows_of(fetched_view(rows@)),
                Err(cause) => r is Err && r->Err_0 == PipelineError::Execution(cause),
            },
    {
        match fetched {
            Ok(rows) => Ok(QueryResult::from_fetched(&rows)),
            Err(cause) => Err(PipelineError::Execution(cause)),
        }
    }

    /// The answer as text, given what running the statement came to.
    pub fn query_as_string(fetched: Result<Vec<FetchedRow>, String>) -> (r: Result<
        String,
        PipelineError,
    >)
        ensures
            match fetched {
                Ok(rows) => r is Ok && r->Ok_0@ == result_text(rows_of(fetched_view(rows@))),
                Err(cause) => r is Err && r->Err_0 == PipelineError::Execution(cause),
            },
    {
        match AsyncDb::query(fetched) {
            Ok(result) => Ok(result.render()),
            Err(e) => Err(e),
        }
    }

    /// The text of one value.
    pub fn value_to_string(val: &SqlValue) -> (s: String)
        ensures
            s@ == value_text(val@),
    {
        val.render()
    }
}

} // verus!
