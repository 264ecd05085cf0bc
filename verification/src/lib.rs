//! A natural-language-to-SQL bridge: the pure core of the pipeline that turns a
//! question into a query and a row set into an answer.
pub mod async_db;
pub mod chain;
pub mod config;
pub mod csv;
pub mod decimal;
pub mod error;
pub mod introspect;
pub mod prompt;
pub mod rows;
pub mod sanitize;
pub mod schema;
pub mod schema_parse;
pub mod text;
pub mod value;
