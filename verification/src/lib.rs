//! Restricted SQL `SELECT` over a single external dataset: the dialect, the
//! rules that turn a parsed statement into a query descriptor, format
//! detection, and the lazy pipeline that applies the descriptor.

pub mod dataset;
pub mod dialect;
pub mod engine;
pub mod error;
pub mod expression;
pub mod loader;
pub mod parse;
pub mod pipeline;
pub mod query;
pub mod source;
pub mod statement;

pub use dataset::DataSet;
pub use dialect::{example_sql, CalDialect};
pub use error::{ErrorKind, QueryError};
pub use pipeline::query;
