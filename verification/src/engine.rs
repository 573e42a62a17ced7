//! The tabular engine. Its values are opaque here, and every contract in this
//! file is believed of the engine, not proved: each says what the named
//! function of the engine does, as far as this library relies on it.
//!
//! The engine reads a few switches of the environment that are meant for
//! debugging (to panic where it would return an error, to run the query on
//! an engine that is not built in). The contracts speak of a process in
//! which none of them is set.

use vstd::prelude::*;
use polars::prelude::{IntoLazy, SerReader, SerWriter};
use crate::expression::{ExpressionView, Operator};

verus! {

/// A column of a frame; named only because the frame's own declaration
/// asks for it.
#[verifier::external_type_specification]
#[verifier::external_body]
pub struct ExColumn(polars::prelude::Column);

/// The engine's error.
#[verifier::external_type_specification]
#[verifier::external_body]
pub struct ExPolarsError(polars::prelude::PolarsError);

/// The engine's table in memory.
#[verifier::external_type_specification]
#[verifier::external_body]
pub struct ExDataFrame(polars::prelude::DataFrame);

/// The engine's plan: a frame and the operations deferred on it.
#[verifier::external_type_specification]
#[verifier::external_body]
pub struct ExLazyFrame(polars::prelude::LazyFrame);

/// The engine's expression.
#[verifier::external_type_specification]
#[verifier::external_body]
pub struct ExExpr(polars::prelude::Expr);

/// One deferred operation of a plan.
pub enum Step {
    /// Keep the rows that meet the predicate.
    Filter(ExpressionView),
    /// Sort by one column, rows with equal keys staying in their order.
    Sort { column: Seq<char>, descending: bool },
    /// Keep `length` rows at most, from row `offset` on.
    Slice { offset: i64, length: u32 },
    /// Keep these expressions as the columns, in this order.
    Select(Seq<ExpressionView>),
}

/// The expression that an engine expression stands for.
pub uninterp spec fn expr_model(e: polars::prelude::Expr) -> ExpressionView;

/// The deferred operations of a plan, first applied first.
pub uninterp spec fn plan_steps(plan: polars::prelude::LazyFrame) -> Seq<Step>;

/// The frame that a plan reads.
pub uninterp spec fn plan_input(plan: polars::prelude::LazyFrame) -> polars::prelude::DataFrame;

/// The frame that running `steps` on `input` yields; `None` where the
/// engine refuses them.
pub uninterp spec fn collected(input: polars::prelude::DataFrame, steps: Seq<Step>) -> Option<
    polars::prelude::DataFrame,
>;

/// The frame that decoding `bytes` as delimited text yields; `None` where
/// the decoder refuses them.
pub uninterp spec fn csv_frame(bytes: Seq<u8>) -> Option<polars::prelude::DataFrame>;

/// The frame that decoding `bytes` as JSON yields, as one record per line
/// where `lines` holds, else as one array of records; `None` where the
/// decoder refuses them.
pub uninterp spec fn json_frame(bytes: Seq<u8>, lines: bool) -> Option<polars::prelude::DataFrame>;

/// The delimited text that writing `frame` yields; `None` where the writer
/// refuses the frame.
pub uninterp spec fn csv_text(frame: polars::prelude::DataFrame) -> Option<Seq<char>>;

/// The message of an engine error.
pub uninterp spec fn error_message(e: polars::prelude::PolarsError) -> Seq<char>;

/// The number of rows of a frame.
pub uninterp spec fn frame_height(frame: polars::prelude::DataFrame) -> nat;

/// The column names of a frame, in order.
pub uninterp spec fn frame_columns(frame: polars::prelude::DataFrame) -> Seq<Seq<char>>;

/// The views of `items`, in order.
pub open spec fn expr_models(items: Seq<polars::prelude::Expr>) -> Seq<ExpressionView> {
    Seq::new(items.len(), |i: int| expr_model(items[i]))
}

/// `Expr::Column`: the column of that name and no other, whatever
/// characters the name holds.
#[verifier::external_body]
pub(crate) fn column(name: &str) -> (r: polars::prelude::Expr)
    ensures
        expr_model(r) == ExpressionView::Column(name@),
{
    polars::prelude::Expr::Column(name.into())
}

/// `all`: the selector of every column.
#[verifier::external_body]
pub(crate) fn wildcard() -> (r: polars::prelude::Expr)
    ensures
        expr_model(r) == ExpressionView::Wildcard,
{
    polars::prelude::all().as_expr()
}

/// `lit` on the digits as written, with `Expr::strict_cast` to a 64-bit
/// float: the number is read when the plan runs.
#[verifier::external_body]
pub(crate) fn number(text: &str) -> (r: polars::prelude::Expr)
    ensures
        expr_model(r) == ExpressionView::Number(text@),
{
    polars::prelude::lit(text).strict_cast(polars::prelude::DataType::Float64)
}

/// `lit` on a string.
#[verifier::external_body]
pub(crate) fn text(value: &str) -> (r: polars::prelude::Expr)
    ensures
        expr_model(r) == ExpressionView::Text(value@),
{
    polars::prelude::lit(value)
}

/// `lit` on a boolean.
#[verifier::external_body]
pub(crate) fn boolean(value: bool) -> (r: polars::prelude::Expr)
    ensures
        expr_model(r) == ExpressionView::Boolean(value),
{
    polars::prelude::lit(value)
}

/// `lit` on `NULL`.
#[verifier::external_body]
pub(crate) fn null() -> (r: polars::prelude::Expr)
    ensures
        expr_model(r) == ExpressionView::Null,
{
    polars::prelude::lit(polars::prelude::NULL)
}

/// `binary_expr`, with the engine's operator of the same meaning; `/` is
/// its true division.
#[verifier::external_body]
pub(crate) fn binary(left: polars::prelude::Expr, op: Operator, right: polars::prelude::Expr) -> (r:
    polars::prelude::Expr)
    ensures
        expr_model(r) == (ExpressionView::Binary {
            left: Box::new(expr_model(left)),
            op,
            right: Box::new(expr_model(right)),
        }),
{
    polars::prelude::binary_expr(left, match op {
        Operator::Plus => polars::prelude::Operator::Plus,
        Operator::Minus => polars::prelude::Operator::Minus,
        Operator::Multiply => polars::prelude::Operator::Multiply,
        Operator::Divide => polars::prelude::Operator::TrueDivide,
        Operator::Modulo => polars::prelude::Operator::Modulus,
        Operator::Gt => polars::prelude::Operator::Gt,
        Operator::Lt => polars::prelude::Operator::Lt,
        Operator::GtEq => polars::prelude::Operator::GtEq,
        Operator::LtEq => polars::prelude::Operator::LtEq,
        Operator::Eq => polars::prelude::Operator::Eq,
        Operator::NotEq => polars::prelude::Operator::NotEq,
        Operator::And => polars::prelude::Operator::And,
        Operator::Or => polars::prelude::Operator::Or,
    }, right)
}

/// `Expr::is_null`.
#[verifier::external_body]
pub(crate) fn is_null(inner: polars::prelude::Expr) -> (r: polars::prelude::Expr)
    ensures
        expr_model(r) == ExpressionView::IsNull(Box::new(expr_model(inner))),
{
    inner.is_null()
}

/// `Expr::is_not_null`.
#[verifier::external_body]
pub(crate) fn is_not_null(inner: polars::prelude::Expr) -> (r: polars::prelude::Expr)
    ensures
        expr_model(r) == ExpressionView::IsNotNull(Box::new(expr_model(inner))),
{
    inner.is_not_null()
}

/// `Expr::alias`.
#[verifier::external_body]
pub(crate) fn alias(inner: polars::prelude::Expr, name: &str) -> (r: polars::prelude::Expr)
    ensures
        expr_model(r) == (ExpressionView::Alias {
            expr: Box::new(expr_model(inner)),
            name: name@,
        }),
{
    inner.alias(name)
}

/// `DataFrame::lazy`: a plan that reads `frame` and defers nothing yet.
#[verifier::external_body]
pub(crate) fn scan(frame: polars::prelude::DataFrame) -> (r: polars::prelude::LazyFrame)
    ensures
        plan_input(r) == frame,
        plan_steps(r) == Seq::<Step>::empty(),
{
    frame.lazy()
}

/// `LazyFrame::filter`: one more deferred operation on the same input.
#[verifier::external_body]
pub(crate) fn filter(plan: polars::prelude::LazyFrame, predicate: polars::prelude::Expr) -> (r:
    polars::prelude::LazyFrame)
    ensures
        plan_input(r) == plan_input(plan),
        plan_steps(r) == plan_steps(plan).push(Step::Filter(expr_model(predicate))),
{
    plan.filter(predicate)
}

/// `LazyFrame::sort_by_exprs` with the one column as the key and the option
/// that keeps equal keys in order: one more deferred operation.
#[verifier::external_body]
pub(crate) fn sort(plan: polars::prelude::LazyFrame, name: &str, descending: bool) -> (r:
    polars::prelude::LazyFrame)
    ensures
        plan_input(r) == plan_input(plan),
        plan_steps(r) == plan_steps(plan).push(Step::Sort { column: name@, descending }),
{
    let options = polars::prelude::SortMultipleOptions::new()
        .with_order_descending(descending)
        .with_maintain_order(true);
    plan.sort_by_exprs([polars::prelude::Expr::Column(name.into())], options)
}

/// `LazyFrame::slice`: one more deferred operation.
#[verifier::external_body]
pub(crate) fn slice(plan: polars::prelude::LazyFrame, offset: i64, length: u32) -> (r:
    polars::prelude::LazyFrame)
    ensures
        plan_input(r) == plan_input(plan),
        plan_steps(r) == plan_steps(plan).push(Step::Slice { offset, length }),
{
    plan.slice(offset, length)
}

/// `LazyFrame::select`: one more deferred operation.
#[verifier::external_body]
pub(crate) fn select(plan: polars::prelude::LazyFrame, items: Vec<polars::prelude::Expr>) -> (r:
    polars::prelude::LazyFrame)
    ensures
        plan_input(r) == plan_input(plan),
        plan_steps(r) == plan_steps(plan).push(Step::Select(expr_models(items@))),
{
    plan.select(items)
}

/// `LazyFrame::collect`: runs the deferred operations on the input.
/// Whether the engine refuses them (a column that the input lacks, operands
/// of unrelated types), and the frame where it does not, rest on the input
/// and the operations alone; nothing is said of the error.
#[verifier::external_body]
pub(crate) fn collect(plan: polars::prelude::LazyFrame) -> (r: Result<
    polars::prelude::DataFrame,
    polars::prelude::PolarsError,
>)
    ensures
        match r {
            Ok(frame) => collected(plan_input(plan), plan_steps(plan)) == Some(frame),
            Err(_) => collected(plan_input(plan), plan_steps(plan)) is None,
        },
{
    plan.collect()
}

/// `CsvReader::finish` with the default options, over the bytes in memory.
/// Whether the decoder refuses the bytes, and the frame where it does not,
/// rest on the bytes alone; nothing is said of the error.
#[verifier::external_body]
pub(crate) fn read_csv(bytes: Vec<u8>) -> (r: Result<
    polars::prelude::DataFrame,
    polars::prelude::PolarsError,
>)
    ensures
        match r {
            Ok(frame) => csv_frame(bytes@) == Some(frame),
            Err(_) => csv_frame(bytes@) is None,
        },
{
    polars::prelude::CsvReader::new(std::io::Cursor::new(bytes)).finish()
}

/// `JsonReader::finish` with the default options but for the format, over
/// the bytes in memory. Whether the decoder refuses the bytes, and the frame
/// where it does not, rest on the bytes and the format alone; nothing is
/// said of the error.
#[verifier::external_body]
pub(crate) fn read_json(bytes: Vec<u8>, lines: bool) -> (r: Result<
    polars::prelude::DataFrame,
    polars::prelude::PolarsError,
>)
    ensures
        match r {
            Ok(frame) => json_frame(bytes@, lines) == Some(frame),
            Err(_) => json_frame(bytes@, lines) is None,
        },
{
    let format = match lines {
        true => polars::prelude::JsonFormat::JsonLines,
        false => polars::prelude::JsonFormat::Json,
    };
    polars::prelude::JsonReader::new(std::io::Cursor::new(bytes)).with_json_format(format).finish()
}

/// `CsvWriter::finish` with the default options, into memory; what it
/// wrote is handed out as text. Whether the writer refuses the frame, and
/// the text where it does not, rest on the frame alone; nothing is said of
/// the error.
#[verifier::external_body]
pub(crate) fn write_csv(frame: &polars::prelude::DataFrame) -> (r: Result<
    String,
    polars::prelude::PolarsError,
>)
    ensures
        match r {
            Ok(written) => csv_text(*frame) == Some(written@),
            Err(_) => csv_text(*frame) is None,
        },
{
    let mut buffer = Vec::new();
    let mut copy = frame.clone();
    polars::prelude::CsvWriter::new(&mut buffer).finish(&mut copy)?;
    String::from_utf8(buffer).map_err(|e| polars::prelude::PolarsError::ComputeError(e.to_string().into()))
}

/// `PolarsError`'s `Display`.
#[verifier::external_body]
pub(crate) fn error_text(e: &polars::prelude::PolarsError) -> (r: String)
    ensures
        r@ == error_message(*e),
{
    e.to_string()
}

/// `DataFrame::height`.
#[verifier::external_body]
pub(crate) fn height(frame: &polars::prelude::DataFrame) -> (r: usize)
    ensures
        r == frame_height(*frame),
{
    frame.height()
}

/// `DataFrame::get_column_names`, each name as a string.
#[verifier::external_body]
pub(crate) fn column_names(frame: &polars::prelude::DataFrame) -> (r: Vec<String>)
    ensures
        crate::statement::names_of(r@) == frame_columns(*frame),
{
    frame.get_column_names().into_iter().map(|name| name.to_string()).collect()
}

} // verus!
