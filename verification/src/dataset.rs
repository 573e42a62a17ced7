//! A dataset: a frame of the tabular engine, with its serialisation.

use vstd::prelude::*;
use crate::engine::{
    column_names, csv_text, error_message, error_text, frame_columns, frame_height, height,
    write_csv,
};
use crate::error::{QueryError, QueryErrorView};
use crate::statement::names_of;

verus! {

/// A table in memory: named, typed columns of equal length.
#[derive(Debug)]
pub struct DataSet(pub polars::prelude::DataFrame);

/// Turns what the engine's writer made of a frame into the text of the
/// dataset: what it wrote, or its refusal as an `Execution` failure with the
/// writer's message.
pub fn written(outcome: Result<String, polars::prelude::PolarsError>) -> (r: Result<
    String,
    QueryError,
>)
    ensures
        match outcome {
            Ok(text) => r matches Ok(same) && same@ == text@,
            Err(cause) => r matches Err(e) && e@ == QueryErrorView::Execution(
                error_message(cause),
            ),
        },
{
    match outcome {
        Ok(text) => Ok(text),
        Err(cause) => Err(QueryError::Execution(error_text(&cause))),
    }
}

impl std::ops::Deref for DataSet {
    type Target = polars::prelude::DataFrame;

    fn deref(&self) -> (r: &polars::prelude::DataFrame)
        ensures
            *r == self.frame(),
    {
        &self.0
    }
}

impl std::ops::DerefMut for DataSet {
    fn deref_mut(&mut self) -> (r: &mut polars::prelude::DataFrame)
        ensures
            *r == old(self).frame(),
            final(self).frame() == *final(r),
    {
        &mut self.0
    }
}

impl DataSet {
    /// The frame that the dataset holds.
    pub open spec fn frame(&self) -> polars::prelude::DataFrame {
        self.0
    }

    /// A dataset of `frame`.
    pub fn new(frame: polars::prelude::DataFrame) -> (r: DataSet)
        ensures
            r.frame() == frame,
    {
        DataSet(frame)
    }

    /// The dataset as delimited text: a header line, then one line for
    /// each row.
    ///
    /// The text is what the engine's writer makes of the frame; where the
    /// writer refuses the frame, its message comes back as an `Execution`
    /// failure.
    pub fn to_csv(&self) -> (r: Result<String, QueryError>)
        ensures
            match r {
                Ok(written) => csv_text(self.frame()) == Some(written@),
                Err(e) => csv_text(self.frame()) is None && e@ is Execution,
            },
    {
        written(write_csv(&self.0))
    }

    /// The number of rows.
    pub fn height(&self) -> (r: usize)
        ensures
            r == frame_height(self.frame()),
    {
        height(&self.0)
    }

    /// The names of the columns, in order.
    pub fn column_names(&self) -> (r: Vec<String>)
        ensures
            names_of(r@) == frame_columns(self.frame()),
    {
        column_names(&self.0)
    }
}

} // verus!
