//! The ways in which a request can fail.
use vstd::prelude::*;
use vstd::string::StringExecFns;

verus! {

/// Why a request ended without an answer. Each kind but `Extraction`
/// carries the underlying message.
#[derive(Debug)]
pub enum PipelineError {
    /// A required connection or service parameter is absent or malformed.
    Configuration(String),
    /// No database connection could be had.
    Connection(String),
    /// The text-completion service failed or gave nothing usable.
    Generation(String),
    /// Nothing was left of the generated text once it was cleaned.
    Extraction,
    /// The database rejected the statement.
    Execution(String),
}

/// A failure, as plain text.
pub enum ErrorView {
    Configuration(Seq<char>),
    Connection(Seq<char>),
    Generation(Seq<char>),
    Extraction,
    Execution(Seq<char>),
}

impl View for PipelineError {
    type V = ErrorView;

    open spec fn view(&self) -> ErrorView {
        match self {
            PipelineError::Configuration(m) => ErrorView::Configuration(m@),
            PipelineError::Connection(m) => ErrorView::Connection(m@),
            PipelineError::Generation(m) => ErrorView::Generation(m@),
            PipelineError::Extraction => ErrorView::Extraction,
            PipelineError::Execution(m) => ErrorView::Execution(m@),
        }
    }
}

/// The name of the stage that a kind of failure belongs to.
pub open spec fn stage_text(e: ErrorView) -> Seq<char> {
    match e {
        ErrorView::Configuration(_) => "configuration"@,
        ErrorView::Connection(_) => "connection"@,
        ErrorView::Generation(_) => "generation"@,
        ErrorView::Extraction => "extraction"@,
        ErrorView::Execution(_) => "execution"@,
    }
}

/// The underlying message of a failure.
pub open spec fn cause_text(e: ErrorView) -> Seq<char> {
    match e {
        ErrorView::Configuration(m) => m,
        ErrorView::Connection(m) => m,
        ErrorView::Generation(m) => m,
        ErrorView::Extraction => "generated text held no statement"@,
        ErrorView::Execution(m) => m,
    }
}

/// What a failure says of itself: the stage, a colon, the message.
pub open spec fn error_text(e: ErrorView) -> Seq<char> {
    stage_text(e) + ": "@ + cause_text(e)
}

impl PipelineError {
    /// The stage at which the request failed.
    pub fn stage(&self) -> (s: &'static str)
        ensures
            s@ == stage_text(self@),
    {
        match self {
            PipelineError::Configuration(_) => "configuration",
            PipelineError::Connection(_) => "connection",
            PipelineError::Generation(_) => "generation",
            PipelineError::Extraction => "extraction",
            PipelineError::Execution(_) => "execution",
        }
    }

    /// The failure as one line: the stage, a colon, the message.
    pub fn to_string(&self) -> (s: String)
        ensures
            s@ == error_text(self@),
    {
        let mut out = String::from_str(self.stage());
        out.append(": ");
        match self {
            PipelineError::Configuration(m) => out.append(m.as_str()),
            PipelineError::Connection(m) => out.append(m.as_str()),
            PipelineError::Generation(m) => out.append(m.as_str()),
            PipelineError::Extraction => out.append("generated text held no statement"),
            PipelineError::Execution(m) => out.append(m.as_str()),
        }
        out
    }
}

} // verus!
