//! The failures of a query, each of its own kind.

use vstd::prelude::*;
use crate::expression::Rejection;
use crate::loader::Format;

verus! {

/// The kind of a failure.
#[derive(Clone, Copy, Debug, PartialEq, Eq, Structural)]
pub enum ErrorKind {
    /// The text is not one statement of SQL.
    Syntax,
    /// The statement is outside the accepted shape.
    UnsupportedQuery,
    /// The source could not be fetched.
    Retrieval,
    /// The content is of no known format, or malformed.
    Format,
    /// The engine refused the query.
    Execution,
}

/// Why a query failed.
#[derive(Debug, PartialEq, Eq)]
pub enum QueryError {
    /// The text did not parse; the parser's message.
    Syntax(String),
    /// The text holds this number of statements, and not one.
    StatementCount(usize),
    /// The statement is outside the accepted shape.
    Unsupported(Rejection),
    /// The source could not be fetched.
    Retrieval { source: String, reason: String },
    /// Neither the name nor the content of the source tells a format.
    UnknownFormat,
    /// The content was read as `format`, and the decoder refused it.
    Malformed { format: Format, reason: String },
    /// The engine refused an expression when the query ran; its message.
    Execution(String),
}

pub enum QueryErrorView {
    Syntax(Seq<char>),
    StatementCount(usize),
    Unsupported(Rejection),
    Retrieval { source: Seq<char>, reason: Seq<char> },
    UnknownFormat,
    Malformed { format: Format, reason: Seq<char> },
    Execution(Seq<char>),
}

impl QueryErrorView {
    pub open spec fn kind(self) -> ErrorKind {
        match self {
            QueryErrorView::Syntax(_) => ErrorKind::Syntax,
            QueryErrorView::StatementCount(_) => ErrorKind::Syntax,
            QueryErrorView::Unsupported(_) => ErrorKind::UnsupportedQuery,
            QueryErrorView::Retrieval { .. } => ErrorKind::Retrieval,
            QueryErrorView::UnknownFormat => ErrorKind::Format,
            QueryErrorView::Malformed { .. } => ErrorKind::Format,
            QueryErrorView::Execution(_) => ErrorKind::Execution,
        }
    }
}

impl View for QueryError {
    type V = QueryErrorView;

    open spec fn view(&self) -> QueryErrorView {
        match self {
            QueryError::Syntax(message) => QueryErrorView::Syntax(message@),
            QueryError::StatementCount(n) => QueryErrorView::StatementCount(*n),
            QueryError::Unsupported(why) => QueryErrorView::Unsupported(*why),
            QueryError::Retrieval { source, reason } => QueryErrorView::Retrieval {
                source: source@,
                reason: reason@,
            },
            QueryError::UnknownFormat => QueryErrorView::UnknownFormat,
            QueryError::Malformed { format, reason } => QueryErrorView::Malformed {
                format: *format,
                reason: reason@,
            },
            QueryError::Execution(message) => QueryErrorView::Execution(message@),
        }
    }
}

impl QueryError {
    /// The kind of the failure.
    pub fn kind(&self) -> (r: ErrorKind)
        ensures
            r == self@.kind(),
    {
        match self {
            QueryError::Syntax(_) => ErrorKind::Syntax,
            QueryError::StatementCount(_) => ErrorKind::Syntax,
            QueryError::Unsupported(_) => ErrorKind::UnsupportedQuery,
            QueryError::Retrieval { .. } => ErrorKind::Retrieval,
            QueryError::UnknownFormat => ErrorKind::Format,
            QueryError::Malformed { .. } => ErrorKind::Format,
            QueryError::Execution(_) => ErrorKind::Execution,
        }
    }
}

} // verus!
