//! The query descriptor, and the rules by which one parsed statement
//! becomes a descriptor or is rejected.

use vstd::prelude::*;
use vstd::string::StrSliceExecFns;
use crate::expression::{
    first_fault, first_fault_skips_sound_prefix, views_of, Expression, ExpressionView, Rejection,
};
use crate::statement::{
    optional_view, OrderKey, OrderKeyView, ParsedStatement, ParsedStatementView, Relation,
    RelationView, SelectStatementView, TableRef, TableRefView,
};

verus! {

/// One sort key of a query: a column, and the direction.
#[derive(Debug, PartialEq, Eq)]
pub struct OrderBy {
    pub column: String,
    pub descending: bool,
}

pub struct OrderByView {
    pub column: Seq<char>,
    pub descending: bool,
}

impl View for OrderBy {
    type V = OrderByView;

    open spec fn view(&self) -> OrderByView {
        OrderByView { column: self.column@, descending: self.descending }
    }
}

/// What one `SELECT` asks of one source.
#[derive(Debug, PartialEq, Eq)]
pub struct Sql {
    /// Where the data is fetched from.
    pub source: String,
    /// The predicate that a row must meet, if there is one.
    pub condition: Option<Expression>,
    /// What is kept of each row, in output order.
    pub selection: Vec<Expression>,
    /// How many rows are skipped, where the statement says so.
    pub offset: Option<usize>,
    /// How many rows are kept at most, where the statement says so.
    pub limit: Option<usize>,
    /// The sort keys, in the order of the statement: the first is the
    /// primary one.
    pub order_by: Vec<OrderBy>,
}

pub struct SqlView {
    pub source: Seq<char>,
    pub condition: Option<ExpressionView>,
    pub selection: Seq<ExpressionView>,
    pub offset: Option<usize>,
    pub limit: Option<usize>,
    pub order_by: Seq<OrderByView>,
}

/// The views of `keys`, in order.
pub open spec fn orders_of(keys: Seq<OrderBy>) -> Seq<OrderByView> {
    Seq::new(keys.len(), |i: int| keys[i]@)
}

impl View for Sql {
    type V = SqlView;

    open spec fn view(&self) -> SqlView {
        SqlView {
            source: self.source@,
            condition: optional_view(self.condition),
            selection: views_of(self.selection@),
            offset: self.offset,
            limit: self.limit,
            order_by: orders_of(self.order_by@),
        }
    }
}

impl SqlView {
    /// Something is selected, and the engine can be handed every expression.
    pub open spec fn wf(self) -> bool {
        &&& self.selection.len() > 0
        &&& forall|i: int| 0 <= i < self.selection.len() ==> (#[trigger] self.selection[i]).supported()
        &&& self.condition matches Some(c) ==> c.supported()
    }
}

pub open spec fn is_digit(c: char) -> bool {
    '0' <= c && c <= '9'
}

/// The number that a run of decimal digits writes.
pub open spec fn decimal(text: Seq<char>) -> nat
    decreases text.len(),
{
    if text.len() == 0 {
        0
    } else {
        10 * decimal(text.drop_last()) + (text.last() as nat - '0' as nat) as nat
    }
}

/// The row count that `text` writes: `text` is a non-empty run of decimal
/// digits whose number fits the machine word.
pub open spec fn count_of(text: Seq<char>) -> Option<usize> {
    if text.len() > 0 && (forall|i: int| 0 <= i < text.len() ==> is_digit(#[trigger] text[i]))
        && decimal(text) <= usize::MAX {
        Some(decimal(text) as usize)
    } else {
        None
    }
}

/// The single source of a `FROM` clause.
pub open spec fn source_of(from: Seq<TableRefView>) -> Result<Seq<char>, Rejection> {
    if from.len() == 0 {
        Err(Rejection::NoSource)
    } else if from.len() > 1 {
        Err(Rejection::MultipleSources)
    } else if from[0].joins > 0 {
        Err(Rejection::Join)
    } else {
        match from[0].relation {
            RelationView::Derived => Err(Rejection::Subquery),
            RelationView::Other => Err(Rejection::NotTable),
            RelationView::Table(parts) => if parts.len() == 1 {
                Ok(parts[0])
            } else {
                Err(Rejection::QualifiedSource)
            },
        }
    }
}

/// The fault of an optional predicate.
pub open spec fn condition_fault(condition: Option<ExpressionView>) -> Option<Rejection> {
    match condition {
        Some(c) => c.fault(),
        None => None,
    }
}

/// What a projection list selects: every column where the list is empty,
/// else the items as listed.
pub open spec fn selection_of(projection: Seq<ExpressionView>) -> Result<
    Seq<ExpressionView>,
    Rejection,
> {
    if projection.len() == 0 {
        Ok(seq![ExpressionView::Wildcard])
    } else {
        match first_fault(projection) {
            Some(why) => Err(why),
            None => Ok(projection),
        }
    }
}

/// The sort key that an `ORDER BY` entry stands for: ascending unless the
/// entry says `DESC`.
pub open spec fn order_of(key: OrderKeyView) -> OrderByView {
    OrderByView {
        column: key.expr->Column_0,
        descending: match key.ascending {
            Some(ascending) => !ascending,
            None => false,
        },
    }
}

/// The sort keys of an `ORDER BY` clause, each of which must be a column.
pub open spec fn ordering_of(keys: Seq<OrderKeyView>) -> Result<Seq<OrderByView>, Rejection> {
    if forall|i: int| 0 <= i < keys.len() ==> (#[trigger] keys[i]).expr is Column {
        Ok(Seq::new(keys.len(), |i: int| order_of(keys[i])))
    } else {
        Err(Rejection::OrderKey)
    }
}

/// The row count of a `LIMIT` or `OFFSET` clause; `why` is the rejection of
/// a clause that writes no row count.
pub open spec fn rows_of(clause: Option<ExpressionView>, why: Rejection) -> Result<
    Option<usize>,
    Rejection,
> {
    match clause {
        None => Ok(None),
        Some(ExpressionView::Number(text)) => match count_of(text) {
            Some(n) => Ok(Some(n)),
            None => Err(why),
        },
        Some(_) => Err(why),
    }
}

/// The descriptor of a plain `SELECT`, or the first reason to reject it.
pub open spec fn select_converted(select: SelectStatementView) -> Result<SqlView, Rejection> {
    if select.extra_clauses {
        Err(Rejection::ExtraClause)
    } else if source_of(select.from) is Err {
        Err(source_of(select.from)->Err_0)
    } else if condition_fault(select.selection) is Some {
        Err(condition_fault(select.selection)->Some_0)
    } else if selection_of(select.projection) is Err {
        Err(selection_of(select.projection)->Err_0)
    } else if ordering_of(select.order_by) is Err {
        Err(ordering_of(select.order_by)->Err_0)
    } else if rows_of(select.limit, Rejection::Limit) is Err {
        Err(Rejection::Limit)
    } else if rows_of(select.offset, Rejection::Offset) is Err {
        Err(Rejection::Offset)
    } else {
        Ok(
            SqlView {
                source: source_of(select.from)->Ok_0,
                condition: select.selection,
                selection: selection_of(select.projection)->Ok_0,
                offset: rows_of(select.offset, Rejection::Offset)->Ok_0,
                limit: rows_of(select.limit, Rejection::Limit)->Ok_0,
                order_by: ordering_of(select.order_by)->Ok_0,
            },
        )
    }
}

/// The descriptor of a statement, or the first reason to reject it.
pub open spec fn converted(statement: ParsedStatementView) -> Result<SqlView, Rejection> {
    match statement {
        ParsedStatementView::Other => Err(Rejection::NotSelect),
        ParsedStatementView::Subquery => Err(Rejection::Subquery),
        ParsedStatementView::Select(select) => select_converted(select),
    }
}

/// The number written by a prefix of a run of digits is at most the number
/// written by the whole run.
pub proof fn decimal_grows(text: Seq<char>, k: int)
    requires
        0 <= k <= text.len(),
    ensures
        decimal(text.take(k)) <= decimal(text),
    decreases text.len(),
{
    if k == text.len() {
        assert(text.take(k) =~= text);
    } else {
        decimal_grows(text.drop_last(), k);
        assert(text.drop_last().take(k) =~= text.take(k));
    }
}

/// Reads a row count: a non-empty run of decimal digits that fits the
/// machine word.
pub fn parse_count(text: &str) -> (r: Option<usize>)
    ensures
        r == count_of(text@),
{
    let n: usize = text.unicode_len();
    if n == 0 {
        return None;
    }
    let mut value: usize = 0;
    let mut i: usize = 0;
    while i < n
        invariant
            i <= n,
            n == text@.len(),
            forall|j: int| 0 <= j < i ==> is_digit(#[trigger] text@[j]),
            value == decimal(text@.take(i as int)),
        decreases n - i,
    {
        let c: char = text.get_char(i);
        if !('0' <= c && c <= '9') {
            return None;
        }
        let d: usize = (c as u32 - '0' as u32) as usize;
        proof {
            let next = text@.take(i + 1);
            assert(next.drop_last() =~= text@.take(i as int));
            assert(next.last() == c);
            assert(decimal(next) == 10 * value + d);
            decimal_grows(text@, i + 1);
        }
        let tens: usize = match value.checked_mul(10) {
            Some(tens) => tens,
            None => { return None; },
        };
        value = match tens.checked_add(d) {
            Some(sum) => sum,
            None => { return None; },
        };
        i += 1;
    }
    assert(text@.take(n as int) =~= text@);
    Some(value)
}

/// Finds the single source of a `FROM` clause.
pub fn source_name(from: &Vec<TableRef>) -> (r: Result<String, Rejection>)
    ensures
        match r {
            Ok(name) => source_of(Seq::new(from@.len(), |i: int| from@[i]@)) == Ok::<
                Seq<char>,
                Rejection,
            >(name@),
            Err(why) => source_of(Seq::new(from@.len(), |i: int| from@[i]@)) == Err::<
                Seq<char>,
                Rejection,
            >(why),
        },
{
    if from.len() == 0 {
        return Err(Rejection::NoSource);
    }
    if from.len() > 1 {
        return Err(Rejection::MultipleSources);
    }
    let table = &from[0];
    if table.joins > 0 {
        return Err(Rejection::Join);
    }
    match &table.relation {
        Relation::Derived => Err(Rejection::Subquery),
        Relation::Other => Err(Rejection::NotTable),
        Relation::Table(parts) => {
            if parts.len() == 1 {
                Ok(parts[0].clone())
            } else {
                Err(Rejection::QualifiedSource)
            }
        },
    }
}

/// Checks a projection list and copies what it selects.
pub fn selected(projection: &Vec<Expression>) -> (r: Result<Vec<Expression>, Rejection>)
    ensures
        match r {
            Ok(items) => selection_of(views_of(projection@)) == Ok::<
                Seq<ExpressionView>,
                Rejection,
            >(views_of(items@)),
            Err(why) => selection_of(views_of(projection@)) == Err::<
                Seq<ExpressionView>,
                Rejection,
            >(why),
        },
{
    let mut items: Vec<Expression> = Vec::new();
    if projection.len() == 0 {
        items.push(Expression::Wildcard);
        assert(views_of(items@) =~= seq![ExpressionView::Wildcard]);
        return Ok(items);
    }
    let ghost all = views_of(projection@);
    let mut i: usize = 0;
    while i < projection.len()
        invariant
            i <= projection.len(),
            all == views_of(projection@),
            forall|j: int| 0 <= j < i ==> (#[trigger] all[j]).fault() is None,
            items@.len() == i,
            forall|j: int| 0 <= j < i ==> (#[trigger] items@[j])@ == all[j],
        decreases projection.len() - i,
    {
        let item = &projection[i];
        match item.find_fault() {
            Some(why) => {
                proof {
                    first_fault_skips_sound_prefix(all, i as int);
                    assert(all.skip(i as int)[0] == all[i as int]);
                }
                return Err(why);
            },
            None => {},
        }
        let copy = item.duplicate();
        items.push(copy);
        i += 1;
    }
    proof {
        first_fault_skips_sound_prefix(all, all.len() as int);
        assert(views_of(items@) =~= all);
    }
    Ok(items)
}

/// Reads the sort keys of an `ORDER BY` clause.
pub fn ordering(keys: &Vec<OrderKey>) -> (r: Result<Vec<OrderBy>, Rejection>)
    ensures
        match r {
            Ok(orders) => ordering_of(Seq::new(keys@.len(), |i: int| keys@[i]@)) == Ok::<
                Seq<OrderByView>,
                Rejection,
            >(orders_of(orders@)),
            Err(why) => ordering_of(Seq::new(keys@.len(), |i: int| keys@[i]@)) == Err::<
                Seq<OrderByView>,
                Rejection,
            >(why),
        },
{
    let ghost all = Seq::new(keys@.len(), |i: int| keys@[i]@);
    let mut orders: Vec<OrderBy> = Vec::new();
    let mut i: usize = 0;
    while i < keys.len()
        invariant
            i <= keys.len(),
            all == Seq::new(keys@.len(), |i: int| keys@[i]@),
            forall|j: int| 0 <= j < i ==> (#[trigger] all[j]).expr is Column,
            orders@.len() == i,
            forall|j: int| 0 <= j < i ==> (#[trigger] orders@[j])@ == order_of(all[j]),
        decreases keys.len() - i,
    {
        let key = &keys[i];
        match &key.expr {
            Expression::Column(name) => {
                let descending = match key.ascending {
                    Some(ascending) => !ascending,
                    None => false,
                };
                orders.push(OrderBy { column: name.clone(), descending });
            },
            _ => {
                assert(!(all[i as int].expr is Column));
                return Err(Rejection::OrderKey);
            },
        }
        i += 1;
    }
    assert(orders_of(orders@) =~= Seq::new(all.len(), |i: int| order_of(all[i])));
    Ok(orders)
}

/// Reads the row count of a `LIMIT` or `OFFSET` clause.
pub fn row_count(clause: &Option<Expression>, why: Rejection) -> (r: Result<
    Option<usize>,
    Rejection,
>)
    ensures
        r == rows_of(optional_view(*clause), why),
{
    match clause {
        None => Ok(None),
        Some(Expression::Number(text)) => match parse_count(text.as_str()) {
            Some(n) => Ok(Some(n)),
            None => Err(why),
        },
        Some(_) => Err(why),
    }
}

/// Turns one parsed statement into a query descriptor, or rejects it.
///
/// A descriptor is returned exactly for a plain `SELECT` with no clause
/// outside the accepted shape, a single unjoined table as its source,
/// supported expressions, column names as sort keys, and row counts after
/// `LIMIT` and `OFFSET`; otherwise the first rule broken is named.
pub fn convert(statement: &ParsedStatement) -> (r: Result<Sql, Rejection>)
    ensures
        match r {
            Ok(query) => converted(statement@) == Ok::<SqlView, Rejection>(query@),
            Err(why) => converted(statement@) == Err::<SqlView, Rejection>(why),
        },
{
    let select = match statement {
        ParsedStatement::Other => { return Err(Rejection::NotSelect); },
        ParsedStatement::Subquery => { return Err(Rejection::Subquery); },
        ParsedStatement::Select(select) => select,
    };
    if select.extra_clauses {
        return Err(Rejection::ExtraClause);
    }
    let source = match source_name(&select.from) {
        Ok(source) => source,
        Err(why) => { return Err(why); },
    };
    let condition = match &select.selection {
        Some(predicate) => {
            match predicate.find_fault() {
                Some(why) => { return Err(why); },
                None => {},
            }
            Some(predicate.duplicate())
        },
        None => None,
    };
    let selection = match selected(&select.projection) {
        Ok(items) => items,
        Err(why) => { return Err(why); },
    };
    let order_by = match ordering(&select.order_by) {
        Ok(orders) => orders,
        Err(why) => { return Err(why); },
    };
    let limit = match row_count(&select.limit, Rejection::Limit) {
        Ok(limit) => limit,
        Err(why) => { return Err(why); },
    };
    let offset = match row_count(&select.offset, Rejection::Offset) {
        Ok(offset) => offset,
        Err(why) => { return Err(why); },
    };
    Ok(Sql { source, condition, selection, offset, limit, order_by })
}

/// No fault stands in a list exactly when each item is supported.
pub proof fn no_fault_means_all_supported(items: Seq<ExpressionView>)
    ensures
        first_fault(items) is None <==> forall|i: int|
            0 <= i < items.len() ==> (#[trigger] items[i]).supported(),
    decreases items.len(),
{
    if items.len() > 0 {
        no_fault_means_all_supported(items.drop_first());
        if first_fault(items) is None {
            assert forall|i: int| 0 <= i < items.len() implies (#[trigger] items[i]).supported() by {
                if i > 0 {
                    assert(items.drop_first()[i - 1] == items[i]);
                }
            }
        } else if items[0].fault() is None {
            let j = choose|j: int|
                0 <= j < items.drop_first().len() && !(#[trigger] items.drop_first()[j]).supported();
            assert(items[j + 1] == items.drop_first()[j]);
        }
    }
}

/// A query that a statement converts to is well formed.
pub proof fn converted_is_well_formed(statement: ParsedStatementView)
    requires
        converted(statement) is Ok,
    ensures
        (converted(statement)->Ok_0).wf(),
{
    let select = statement->Select_0;
    if select.projection.len() > 0 {
        no_fault_means_all_supported(select.projection);
    }
}

/// A `LIMIT` or `OFFSET` clause is absent or writes a row count.
pub open spec fn counts_rows(clause: Option<ExpressionView>) -> bool {
    clause matches Some(e) ==> e matches ExpressionView::Number(text) && count_of(text) is Some
}

/// The accepted shape of a `SELECT`: no clause but `FROM`, `WHERE`,
/// `ORDER BY`, `LIMIT` and `OFFSET`; one unjoined table with a one-part name
/// as the source; supported expressions; columns as sort keys; row counts.
pub open spec fn accepted(select: SelectStatementView) -> bool {
    &&& !select.extra_clauses
    &&& select.from.len() == 1
    &&& select.from[0].joins == 0
    &&& select.from[0].relation matches RelationView::Table(parts) && parts.len() == 1
    &&& select.selection matches Some(c) ==> c.supported()
    &&& forall|i: int|
        0 <= i < select.projection.len() ==> (#[trigger] select.projection[i]).supported()
    &&& forall|i: int| 0 <= i < select.order_by.len() ==> (#[trigger] select.order_by[i]).expr is Column
    &&& counts_rows(select.limit)
    &&& counts_rows(select.offset)
}

/// A join hangs on an entry of the `FROM` clause.
pub open spec fn holds_join(select: SelectStatementView) -> bool {
    exists|i: int| 0 <= i < select.from.len() && (#[trigger] select.from[i]).joins > 0
}

/// A subquery stands somewhere in the statement: as a source, or in an
/// expression of any clause.
pub open spec fn holds_subquery(select: SelectStatementView) -> bool {
    ||| exists|i: int| 0 <= i < select.from.len() && (#[trigger] select.from[i]).relation is Derived
    ||| select.selection matches Some(c) && c.has_subquery()
    ||| exists|i: int|
        0 <= i < select.projection.len() && (#[trigger] select.projection[i]).has_subquery()
    ||| exists|i: int|
        0 <= i < select.order_by.len() && (#[trigger] select.order_by[i]).expr.has_subquery()
    ||| select.limit matches Some(e) && e.has_subquery()
    ||| select.offset matches Some(e) && e.has_subquery()
}

/// A `SELECT` converts exactly when it has the accepted shape. The query
/// then names the identifier of the `FROM` clause as its source, keeps the
/// predicate, selects the projection list as listed (every column where the
/// list is empty), and orders by the keys as listed, ascending unless a key
/// says `DESC`; a row count is there exactly where the clause is.
pub proof fn conversion_succeeds_exactly_on_the_accepted_shape(select: SelectStatementView)
    ensures
        converted(ParsedStatementView::Select(select)) is Ok <==> accepted(select),
        accepted(select) ==> ({
            let sql = converted(ParsedStatementView::Select(select))->Ok_0;
            &&& sql.source == select.from[0].relation->Table_0[0]
            &&& sql.condition == select.selection
            &&& sql.selection == if select.projection.len() == 0 {
                seq![ExpressionView::Wildcard]
            } else {
                select.projection
            }
            &&& sql.order_by.len() == select.order_by.len()
            &&& forall|i: int|
                0 <= i < select.order_by.len() ==> sql.order_by[i] == order_of(
                    #[trigger] select.order_by[i],
                )
            &&& sql.limit is Some <==> select.limit is Some
            &&& sql.offset is Some <==> select.offset is Some
        }),
{
    no_fault_means_all_supported(select.projection);
}

/// A statement with a join never converts.
pub proof fn join_is_rejected(select: SelectStatementView)
    requires
        holds_join(select),
    ensures
        converted(ParsedStatementView::Select(select)) is Err,
{
    conversion_succeeds_exactly_on_the_accepted_shape(select);
}

/// A statement with a subquery never converts.
pub proof fn subquery_is_rejected(select: SelectStatementView)
    requires
        holds_subquery(select),
    ensures
        converted(ParsedStatementView::Select(select)) is Err,
        converted(ParsedStatementView::Subquery) is Err,
{
    conversion_succeeds_exactly_on_the_accepted_shape(select);
    if accepted(select) {
        if select.selection is Some && select.selection->Some_0.has_subquery() {
            crate::expression::subquery_is_never_supported(select.selection->Some_0);
        }
        if exists|i: int|
            0 <= i < select.projection.len() && (#[trigger] select.projection[i]).has_subquery() {
            let i = choose|i: int|
                0 <= i < select.projection.len() && (#[trigger] select.projection[i]).has_subquery();
            crate::expression::subquery_is_never_supported(select.projection[i]);
        }
    }
}

} // verus!
