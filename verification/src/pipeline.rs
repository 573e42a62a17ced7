//! The orchestration: from SQL text to a query, from a query to a plan of
//! deferred operations, and from the plan to the result.

use vstd::prelude::*;
use crate::dataset::DataSet;
use crate::engine::{
    alias, binary, boolean, collect, collected, column, error_message, error_text, expr_model,
    expr_models, filter, is_not_null, is_null, null, number, plan_input, plan_steps, scan, select,
    slice, sort, text, wildcard, Step,
};
use crate::error::{ErrorKind, QueryError, QueryErrorView};
use crate::expression::{
    first_fault, first_fault_skips_sound_prefix, views_of, Expression, ExpressionView, Rejection,
};
use crate::loader::{decoded, detected, load};
use crate::parse::{parsed, statements, syntax_text, tree_of};
use crate::query::{condition_fault, convert, converted, OrderByView, Sql, SqlView};
use crate::statement::{ParsedStatement, ParsedStatementView};

verus! {

/// The offset handed to the engine: `offset`, or the largest that the
/// engine takes.
pub open spec fn bounded_offset(offset: usize) -> i64 {
    if offset <= i64::MAX {
        offset as i64
    } else {
        i64::MAX
    }
}

/// The length handed to the engine: `limit`, or the largest that the engine
/// takes, which no frame exceeds.
pub open spec fn bounded_length(limit: usize) -> u32 {
    if limit <= u32::MAX {
        limit as u32
    } else {
        u32::MAX
    }
}

/// The filter of a query: one step where there is a predicate.
pub open spec fn filter_steps(condition: Option<ExpressionView>) -> Seq<Step> {
    match condition {
        Some(predicate) => seq![Step::Filter(predicate)],
        None => Seq::empty(),
    }
}

/// The sorts of a query: one stable sort for each key, the key listed last
/// first, so that the key listed first orders the result and each key after
/// it breaks the ties of those before.
pub open spec fn sort_steps(keys: Seq<OrderByView>) -> Seq<Step> {
    Seq::new(
        keys.len(),
        |i: int|
            Step::Sort {
                column: keys[keys.len() - 1 - i].column,
                descending: keys[keys.len() - 1 - i].descending,
            },
    )
}

/// The slice of a query: one step where an offset or a limit is given, from
/// row 0 where no offset is given and without bound where no limit is.
pub open spec fn slice_steps(offset: Option<usize>, limit: Option<usize>) -> Seq<Step> {
    if offset is Some || limit is Some {
        seq![
            Step::Slice {
                offset: bounded_offset(
                    match offset {
                        Some(n) => n,
                        None => 0,
                    },
                ),
                length: bounded_length(
                    match limit {
                        Some(n) => n,
                        None => usize::MAX,
                    },
                ),
            },
        ]
    } else {
        Seq::empty()
    }
}

/// The deferred operations of a query: filter, sorts, slice, and the
/// selection last.
pub open spec fn steps_of(sql: SqlView) -> Seq<Step> {
    filter_steps(sql.condition) + sort_steps(sql.order_by) + slice_steps(sql.offset, sql.limit)
        + seq![Step::Select(sql.selection)]
}

/// The first expression of a query that the engine cannot be handed: of the
/// predicate first, then of the selection.
pub open spec fn sql_fault(sql: SqlView) -> Option<Rejection> {
    match condition_fault(sql.condition) {
        Some(why) => Some(why),
        None => first_fault(sql.selection),
    }
}

/// Whether `r` is what running `sql` on `frame` comes to.
pub open spec fn executed(
    sql: SqlView,
    frame: polars::prelude::DataFrame,
    r: Result<DataSet, QueryError>,
) -> bool {
    match sql_fault(sql) {
        Some(why) => r matches Err(e) && e@ == QueryErrorView::Unsupported(why),
        None => match collected(frame, steps_of(sql)) {
            Some(result) => r matches Ok(data) && data.frame() == result,
            None => r matches Err(e) && e@ is Execution,
        },
    }
}

/// Whether `r` is what a query comes to once its source was fetched, or
/// could not be.
pub open spec fn completed(
    sql: SqlView,
    fetched: Result<Seq<u8>, Seq<char>>,
    r: Result<DataSet, QueryError>,
) -> bool {
    match fetched {
        Err(reason) => r matches Err(e) && e@ == (QueryErrorView::Retrieval {
            source: sql.source,
            reason,
        }),
        Ok(bytes) => match detected(sql.source, bytes) {
            None => r matches Err(e) && e@ == QueryErrorView::UnknownFormat,
            Some(format) => match decoded(format, bytes) {
                None => r matches Err(e) && e@ is Malformed && e@->format == format,
                Some(frame) => executed(sql, frame, r),
            },
        },
    }
}

/// The query of a text that holds `statements`: there must be one, and it
/// must convert.
pub open spec fn singled(statements: Seq<ParsedStatementView>) -> Result<SqlView, QueryErrorView> {
    if statements.len() != 1 {
        Err(QueryErrorView::StatementCount(statements.len() as usize))
    } else {
        match converted(statements[0]) {
            Ok(sql) => Ok(sql),
            Err(why) => Err(QueryErrorView::Unsupported(why)),
        }
    }
}

/// Clamps an offset to what the engine takes.
pub fn engine_offset(offset: usize) -> (r: i64)
    ensures
        r == bounded_offset(offset),
{
    if offset as u64 > i64::MAX as u64 {
        i64::MAX
    } else {
        offset as i64
    }
}

/// Clamps a limit to what the engine takes.
pub fn engine_length(limit: usize) -> (r: u32)
    ensures
        r == bounded_length(limit),
{
    if limit as u64 > u32::MAX as u64 {
        u32::MAX
    } else {
        limit as u32
    }
}

/// Builds the engine's expression for `e`, or names the first fault of `e`.
pub fn engine_expr(e: &Expression) -> (r: Result<polars::prelude::Expr, Rejection>)
    ensures
        match r {
            Ok(built) => e@.fault() is None && expr_model(built) == e@,
            Err(why) => e@.fault() == Some(why),
        },
    decreases e,
{
    match e {
        Expression::Column(name) => Ok(column(name.as_str())),
        Expression::Wildcard => Ok(wildcard()),
        Expression::Number(digits) => Ok(number(digits.as_str())),
        Expression::Text(value) => Ok(text(value.as_str())),
        Expression::Boolean(value) => Ok(boolean(*value)),
        Expression::Null => Ok(null()),
        Expression::Binary { left, op, right } => {
            let left = match engine_expr(left) {
                Ok(left) => left,
                Err(why) => { return Err(why); },
            };
            let right = match engine_expr(right) {
                Ok(right) => right,
                Err(why) => { return Err(why); },
            };
            Ok(binary(left, *op, right))
        },
        Expression::IsNull(inner) => match engine_expr(inner) {
            Ok(inner) => Ok(is_null(inner)),
            Err(why) => Err(why),
        },
        Expression::IsNotNull(inner) => match engine_expr(inner) {
            Ok(inner) => Ok(is_not_null(inner)),
            Err(why) => Err(why),
        },
        Expression::Alias { expr, name } => match engine_expr(expr) {
            Ok(inner) => Ok(alias(inner, name.as_str())),
            Err(why) => Err(why),
        },
        Expression::Subquery => Err(Rejection::Subquery),
        Expression::Unsupported => Err(Rejection::Expression),
    }
}

/// Builds the engine's expressions for a selection, or names its first fault.
pub fn engine_exprs(items: &Vec<Expression>) -> (r: Result<Vec<polars::prelude::Expr>, Rejection>)
    ensures
        match r {
            Ok(built) => first_fault(views_of(items@)) is None && expr_models(built@) == views_of(
                items@,
            ),
            Err(why) => first_fault(views_of(items@)) == Some(why),
        },
{
    let ghost all = views_of(items@);
    let mut built: Vec<polars::prelude::Expr> = Vec::new();
    let mut i: usize = 0;
    while i < items.len()
        invariant
            i <= items.len(),
            all == views_of(items@),
            forall|j: int| 0 <= j < i ==> (#[trigger] all[j]).fault() is None,
            built@.len() == i,
            forall|j: int| 0 <= j < i ==> expr_model(#[trigger] built@[j]) == all[j],
        decreases items.len() - i,
    {
        match engine_expr(&items[i]) {
            Ok(one) => { built.push(one); },
            Err(why) => {
                proof {
                    first_fault_skips_sound_prefix(all, i as int);
                    assert(all.skip(i as int)[0] == all[i as int]);
                }
                return Err(why);
            },
        }
        i += 1;
    }
    proof {
        first_fault_skips_sound_prefix(all, all.len() as int);
        assert(expr_models(built@) =~= all);
    }
    Ok(built)
}

/// Builds the plan of `sql` over `data`: nothing runs yet.
///
/// The plan reads `data` and defers exactly the steps of `sql`, in order;
/// there is none where an expression of `sql` cannot be handed to the
/// engine, and the first such fault is named.
pub fn plan(sql: &Sql, data: DataSet) -> (r: Result<polars::prelude::LazyFrame, Rejection>)
    ensures
        match r {
            Ok(plan) => sql_fault(sql@) is None && plan_input(plan) == data.frame() && plan_steps(
                plan,
            ) == steps_of(sql@),
            Err(why) => sql_fault(sql@) == Some(why),
        },
{
    let predicate = match &sql.condition {
        Some(predicate) => match engine_expr(predicate) {
            Ok(built) => Some(built),
            Err(why) => { return Err(why); },
        },
        None => None,
    };
    let selection = match engine_exprs(&sql.selection) {
        Ok(built) => built,
        Err(why) => { return Err(why); },
    };
    let mut plan = scan(data.0);
    plan = match predicate {
        Some(predicate) => filter(plan, predicate),
        None => plan,
    };
    assert(plan_steps(plan) =~= filter_steps(sql@.condition));
    let ghost keys = sql@.order_by;
    let n: usize = sql.order_by.len();
    let mut i: usize = 0;
    while i < n
        invariant
            i <= n,
            n == sql.order_by.len(),
            keys == sql@.order_by,
            plan_input(plan) == data.frame(),
            plan_steps(plan) =~= filter_steps(sql@.condition) + sort_steps(keys).take(i as int),
        decreases n - i,
    {
        let key = &sql.order_by[n - 1 - i];
        plan = sort(plan, key.column.as_str(), key.descending);
        proof {
            assert(sort_steps(keys).take(i + 1) =~= sort_steps(keys).take(i as int).push(
                sort_steps(keys)[i as int],
            ));
        }
        i += 1;
    }
    assert(sort_steps(keys).take(i as int) =~= sort_steps(keys));
    if sql.offset.is_some() || sql.limit.is_some() {
        let offset: usize = match sql.offset {
            Some(n) => n,
            None => 0,
        };
        let limit: usize = match sql.limit {
            Some(n) => n,
            None => usize::MAX,
        };
        plan = slice(plan, engine_offset(offset), engine_length(limit));
    }
    assert(plan_steps(plan) =~= filter_steps(sql@.condition) + sort_steps(keys) + slice_steps(
        sql@.offset,
        sql@.limit,
    ));
    plan = select(plan, selection);
    assert(plan_steps(plan) =~= steps_of(sql@));
    Ok(plan)
}

/// Turns what the engine made of a plan into the result of the query: its
/// frame as a dataset, or its refusal as an `Execution` failure with the
/// engine's message.
pub fn settle(outcome: Result<polars::prelude::DataFrame, polars::prelude::PolarsError>) -> (r:
    Result<DataSet, QueryError>)
    ensures
        match outcome {
            Ok(result) => r matches Ok(data) && data.frame() == result,
            Err(cause) => r matches Err(e) && e@ == QueryErrorView::Execution(
                error_message(cause),
            ),
        },
{
    match outcome {
        Ok(result) => Ok(DataSet::new(result)),
        Err(cause) => Err(QueryError::Execution(error_text(&cause))),
    }
}

/// Applies `sql` to `data` and materialises the result.
///
/// Fails with `Unsupported` exactly when an expression of `sql` cannot be
/// handed to the engine, and with `Execution` exactly when the engine
/// refuses the steps; the result is otherwise what the engine makes of the
/// steps of `sql` on `data`.
pub fn execute(sql: &Sql, data: DataSet) -> (r: Result<DataSet, QueryError>)
    ensures
        executed(sql@, data.frame(), r),
{
    let plan = match plan(sql, data) {
        Ok(plan) => plan,
        Err(why) => { return Err(QueryError::Unsupported(why)); },
    };
    settle(collect(plan))
}

/// The views of `statements`, in order.
pub open spec fn statement_views(statements: Seq<ParsedStatement>) -> Seq<ParsedStatementView> {
    Seq::new(statements.len(), |i: int| statements[i]@)
}

/// Turns what a text holds into its query: the text must hold one
/// statement, and the statement must convert.
pub fn single(statements: &Vec<ParsedStatement>) -> (r: Result<Sql, QueryError>)
    ensures
        match r {
            Ok(sql) => singled(statement_views(statements@)) == Ok::<SqlView, QueryErrorView>(
                sql@,
            ),
            Err(e) => singled(statement_views(statements@)) == Err::<SqlView, QueryErrorView>(e@),
        },
{
    if statements.len() != 1 {
        return Err(QueryError::StatementCount(statements.len()));
    }
    match convert(&statements[0]) {
        Ok(sql) => Ok(sql),
        Err(why) => Err(QueryError::Unsupported(why)),
    }
}

/// The query that a text holds, or why it holds none: the parser's error
/// is a failure of syntax with its message, and what the syntax tree is
/// read as must hold one statement that converts.
pub open spec fn prepared(sql: Seq<char>) -> Result<SqlView, QueryErrorView> {
    match parsed(sql) {
        Err(cause) => Err(QueryErrorView::Syntax(syntax_text(cause))),
        Ok(tree) => singled(tree_of(tree)),
    }
}

/// Parses `sql` and converts its one statement.
///
/// The parser decides what the text holds. Whatever it holds, a query that
/// comes back is well formed, and a failure is a syntax error (the parser's,
/// or a number of statements other than one) or names the rule that the
/// statement breaks.
pub fn prepare(sql: &str) -> (r: Result<Sql, QueryError>)
    ensures
        match r {
            Ok(query) => prepared(sql@) == Ok::<SqlView, QueryErrorView>(query@),
            Err(e) => prepared(sql@) == Err::<SqlView, QueryErrorView>(e@),
        },
        match r {
            Ok(sql) => sql@.wf() && sql_fault(sql@) is None,
            Err(e) => e@ is Syntax || e@ is StatementCount || e@ is Unsupported,
        },
{
    let read = match statements(sql) {
        Ok(read) => read,
        Err(message) => { return Err(QueryError::Syntax(message)); },
    };
    let r = single(&read);
    proof {
        if r is Ok {
            crate::query::converted_is_well_formed(statement_views(read@)[0]);
            converted_has_no_fault(statement_views(read@)[0]);
        }
    }
    r
}

/// The view of what a fetch came to.
pub open spec fn fetched_view(fetched: Result<Vec<u8>, String>) -> Result<Seq<u8>, Seq<char>> {
    match fetched {
        Ok(bytes) => Ok(bytes@),
        Err(reason) => Err(reason@),
    }
}

/// Finishes a query once its source was fetched, or could not be.
///
/// A fetch that failed gives `Retrieval`, with the source and the reason.
/// Bytes of no known format give `UnknownFormat`, bytes that their decoder
/// refuses give `Malformed`, and the decoded dataset goes through
/// [`execute`].
pub fn complete(sql: &Sql, fetched: Result<Vec<u8>, String>) -> (r: Result<DataSet, QueryError>)
    ensures
        completed(sql@, fetched_view(fetched), r),
{
    let bytes = match fetched {
        Ok(bytes) => bytes,
        Err(reason) => {
            return Err(QueryError::Retrieval { source: sql.source.clone(), reason });
        },
    };
    let data = match load(sql.source.as_str(), bytes) {
        Ok(data) => data,
        Err(e) => { return Err(e); },
    };
    execute(sql, data)
}

/// Answers `sql`: parses and converts it, has `fetch` bring the bytes of its
/// source, and finishes with [`complete`].
///
/// A text that holds no query fails as [`prepare`] does. Otherwise `fetch`
/// was asked for the source of the query, and the result is what
/// [`complete`] makes of the query and of what `fetch` came to.
pub fn query<F>(sql: &str, fetch: F) -> (r: Result<DataSet, QueryError>) where
    F: FnOnce(&str) -> Result<Vec<u8>, String>,

    requires
        forall|source: &str| fetch.requires((source,)),
    ensures
        match prepared(sql@) {
            Err(failure) => r matches Err(e) && e@ == failure,
            Ok(query) => exists|source: &str, fetched: Result<Vec<u8>, String>|
                source@ == query.source && fetch.ensures((source,), fetched) && completed(
                    query,
                    fetched_view(fetched),
                    r,
                ),
        },
{
    let query = match prepare(sql) {
        Ok(query) => query,
        Err(e) => { return Err(e); },
    };
    let source = query.source.as_str();
    let fetched = fetch(source);
    let ghost brought = fetched;
    let r = complete(&query, fetched);
    assert(source@ == query@.source && fetch.ensures((source,), brought) && completed(
        query@,
        fetched_view(brought),
        r,
    ));
    r
}

/// A query that a statement converts to has no expression that the engine
/// cannot be handed.
pub proof fn converted_has_no_fault(statement: ParsedStatementView)
    requires
        converted(statement) is Ok,
    ensures
        sql_fault(converted(statement)->Ok_0) is None,
{
    let select = statement->Select_0;
    if select.projection.len() == 0 {
        let all = seq![ExpressionView::Wildcard];
        assert(all.drop_first().len() == 0);
        assert(first_fault(all.drop_first()) is None);
        assert(first_fault(all) is None);
    }
}

/// A text that does not hold exactly one statement has no query, and the
/// failure is one of syntax.
pub proof fn statement_count_is_checked(statements: Seq<ParsedStatementView>)
    requires
        statements.len() != 1,
    ensures
        singled(statements) is Err,
        singled(statements)->Err_0.kind() == ErrorKind::Syntax,
{
}

/// Whether two outcomes are the same: the same frame, or a failure of the
/// same kind.
pub open spec fn same_outcome(
    first: Result<DataSet, QueryError>,
    second: Result<DataSet, QueryError>,
) -> bool {
    match (first, second) {
        (Ok(a), Ok(b)) => a.frame() == b.frame(),
        (Err(a), Err(b)) => a@.kind() == b@.kind(),
        _ => false,
    }
}

/// The same query on the same bytes comes to the same outcome, and so to
/// the same serialised text: nothing but the query and what was fetched
/// decides the result.
pub proof fn same_inputs_same_outcome(
    sql: SqlView,
    fetched: Result<Seq<u8>, Seq<char>>,
    first: Result<DataSet, QueryError>,
    second: Result<DataSet, QueryError>,
)
    requires
        completed(sql, fetched, first),
        completed(sql, fetched, second),
    ensures
        same_outcome(first, second),
        first matches Ok(a) ==> second matches Ok(b) && crate::engine::csv_text(a.frame())
            == crate::engine::csv_text(b.frame()),
{
}

/// A source that could not be fetched and a content that could not be
/// decoded fail in kinds of their own: `Retrieval` the first, `Format` the
/// second.
pub proof fn retrieval_and_format_failures_differ(
    sql: SqlView,
    reason: Seq<char>,
    bytes: Seq<u8>,
    unreachable: Result<DataSet, QueryError>,
    malformed: Result<DataSet, QueryError>,
)
    requires
        completed(sql, Err(reason), unreachable),
        completed(sql, Ok(bytes), malformed),
        detected(sql.source, bytes) is None || decoded(
            detected(sql.source, bytes)->Some_0,
            bytes,
        ) is None,
    ensures
        unreachable matches Err(e) && e@.kind() == ErrorKind::Retrieval,
        malformed matches Err(e) && e@.kind() == ErrorKind::Format,
{
}

} // verus!
