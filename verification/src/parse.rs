//! From SQL text to statements as plain values. The parser and its syntax
//! tree are the outside crate's; the functions marked as believed only hand
//! over what a node of that tree holds, under a name for it, and the reading
//! of the tree is done here and stated over those names.

use vstd::prelude::*;
use crate::dialect::CalDialect;
use crate::expression::{views_of, Expression, ExpressionView, Operator};
use crate::pipeline::statement_views;
use crate::statement::{
    names_of, optional_view, OrderKey, OrderKeyView, ParsedStatement, ParsedStatementView,
    Relation, RelationView, SelectStatement, SelectStatementView, TableRef, TableRefView,
};

verus! {

/// The parser's error.
#[verifier::external_type_specification]
#[verifier::external_body]
pub struct ExParserError(sqlparser::parser::ParserError);

/// One statement of the syntax tree.
#[verifier::external_type_specification]
#[verifier::external_body]
pub struct ExStatement(sqlparser::ast::Statement);

/// A query of the syntax tree: a body and the clauses after it.
#[verifier::external_type_specification]
#[verifier::external_body]
pub struct ExQuery(sqlparser::ast::Query);

/// A `SELECT` of the syntax tree.
#[verifier::external_type_specification]
#[verifier::external_body]
pub struct ExSelect(sqlparser::ast::Select);

/// One item of a projection list.
#[verifier::external_type_specification]
#[verifier::external_body]
pub struct ExSelectItem(sqlparser::ast::SelectItem);

/// One entry of a `FROM` clause.
#[verifier::external_type_specification]
#[verifier::external_body]
pub struct ExTableWithJoins(sqlparser::ast::TableWithJoins);

/// One key of an `ORDER BY` clause.
#[verifier::external_type_specification]
#[verifier::external_body]
pub struct ExOrderByExpr(sqlparser::ast::OrderByExpr);

/// An expression of the syntax tree.
#[verifier::external_type_specification]
#[verifier::external_body]
pub struct ExExpr(sqlparser::ast::Expr);

/// A literal of the syntax tree.
#[verifier::external_type_specification]
#[verifier::external_body]
pub struct ExValue(sqlparser::ast::Value);

/// A binary operator of the syntax tree.
#[verifier::external_type_specification]
#[verifier::external_body]
pub struct ExBinaryOperator(sqlparser::ast::BinaryOperator);

/// What stands in the place of a query's body.
pub(crate) enum Body<'a> {
    Plain(&'a sqlparser::ast::Select),
    Parenthesised,
    Other,
}

/// The clauses of a `SELECT` that the conversion rules read.
pub(crate) struct Clauses<'a> {
    pub projection: &'a Vec<sqlparser::ast::SelectItem>,
    pub from: &'a Vec<sqlparser::ast::TableWithJoins>,
    pub selection: Option<&'a sqlparser::ast::Expr>,
}

/// The `ORDER BY` clause of a query: its keys, and how many `INTERPOLATE`
/// clauses follow them.
pub(crate) enum Sorting<'a> {
    Absent,
    Keys(&'a Vec<sqlparser::ast::OrderByExpr>, usize),
    All,
}

/// The direction that a sort key names.
pub enum Direction {
    Unspecified,
    Ascending,
    Descending,
    Other,
}

/// One key of an `ORDER BY` clause: its expression, its direction, and how
/// many values each of its other fields holds.
pub(crate) struct Key<'a> {
    pub expr: &'a sqlparser::ast::Expr,
    pub direction: Direction,
    pub others: Vec<usize>,
}

/// The `LIMIT` and `OFFSET` of a query, and how many `BY` expressions
/// follow the limit.
pub(crate) struct Paging<'a> {
    pub limit: Option<&'a sqlparser::ast::Expr>,
    pub offset: Option<&'a sqlparser::ast::Expr>,
    pub limit_by: usize,
}

/// One item of a projection list; of a wildcard, how many values each of
/// its options holds.
pub(crate) enum Item<'a> {
    Plain(&'a sqlparser::ast::Expr),
    Aliased(&'a sqlparser::ast::Expr, String),
    Wildcard(Vec<usize>),
    Other,
}

/// What stands at one position of a `FROM` clause; of a table, each part of
/// its name that is an identifier, `None` for a part that is none.
pub(crate) enum Origin {
    Table(Vec<Option<String>>),
    Derived,
    Other,
}

/// One entry of a `FROM` clause: what stands there, and the number of joins.
pub(crate) struct Entry {
    pub origin: Origin,
    pub joins: usize,
}

/// One node of an expression, with its operands still in the tree.
pub(crate) enum Node<'a> {
    Identifier(String),
    Literal(&'a sqlparser::ast::Value),
    Binary(&'a sqlparser::ast::Expr, &'a sqlparser::ast::BinaryOperator, &'a sqlparser::ast::Expr),
    IsNull(&'a sqlparser::ast::Expr),
    IsNotNull(&'a sqlparser::ast::Expr),
    Nested(&'a sqlparser::ast::Expr),
    Wildcard,
    Subquery,
    Other,
}

/// What stands in the place of a query's body, as a value.
pub enum BodyView {
    Plain(sqlparser::ast::Select),
    Parenthesised,
    Other,
}

/// The clauses of a `SELECT` that the conversion rules read, as values.
pub struct ClausesView {
    pub projection: Seq<sqlparser::ast::SelectItem>,
    pub from: Seq<sqlparser::ast::TableWithJoins>,
    pub selection: Option<sqlparser::ast::Expr>,
}

/// The `ORDER BY` clause of a query, as a value.
pub enum SortingView {
    Absent,
    Keys(Seq<sqlparser::ast::OrderByExpr>, usize),
    All,
}

/// One key of an `ORDER BY` clause, as a value.
pub struct KeyView {
    pub expr: sqlparser::ast::Expr,
    pub direction: Direction,
    pub others: Seq<usize>,
}

/// The `LIMIT` and `OFFSET` of a query, as values.
pub struct PagingView {
    pub limit: Option<sqlparser::ast::Expr>,
    pub offset: Option<sqlparser::ast::Expr>,
    pub limit_by: usize,
}

/// One item of a projection list, as a value.
pub enum ItemView {
    Plain(sqlparser::ast::Expr),
    Aliased(sqlparser::ast::Expr, Seq<char>),
    Wildcard(Seq<usize>),
    Other,
}

/// What stands at one position of a `FROM` clause, as a value.
pub enum OriginView {
    Table(Seq<Option<Seq<char>>>),
    Derived,
    Other,
}

/// One entry of a `FROM` clause, as a value.
pub struct EntryView {
    pub origin: OriginView,
    pub joins: usize,
}

/// One node of an expression, as a value.
pub enum NodeView {
    Identifier(Seq<char>),
    Literal(sqlparser::ast::Value),
    Binary(sqlparser::ast::Expr, sqlparser::ast::BinaryOperator, sqlparser::ast::Expr),
    IsNull(sqlparser::ast::Expr),
    IsNotNull(sqlparser::ast::Expr),
    Nested(sqlparser::ast::Expr),
    Wildcard,
    Subquery,
    Other,
}

/// The syntax tree that the parser makes of a text, or its error.
pub uninterp spec fn parsed(sql: Seq<char>) -> Result<
    Seq<sqlparser::ast::Statement>,
    sqlparser::parser::ParserError,
>;

/// The message of a parser's error.
pub uninterp spec fn syntax_text(e: sqlparser::parser::ParserError) -> Seq<char>;

/// The query that a statement holds, if it is one.
pub uninterp spec fn statement_query(statement: sqlparser::ast::Statement) -> Option<
    sqlparser::ast::Query,
>;

/// What stands in the place of the body of a query.
pub uninterp spec fn query_body(query: sqlparser::ast::Query) -> BodyView;

/// The projection list, the `FROM` clause and the predicate of a `SELECT`.
pub uninterp spec fn select_clauses(select: sqlparser::ast::Select) -> ClausesView;

/// How many values each other field of a `SELECT` holds.
pub uninterp spec fn select_others(select: sqlparser::ast::Select) -> Seq<usize>;

/// How long the two lists of a `GROUP BY` clause are; `None` for
/// `GROUP BY ALL`.
pub uninterp spec fn select_grouping(select: sqlparser::ast::Select) -> Option<(usize, usize)>;

/// How many values each other field of a query holds.
pub uninterp spec fn query_others(query: sqlparser::ast::Query) -> Seq<usize>;

/// The `ORDER BY` clause of a query.
pub uninterp spec fn query_sorting(query: sqlparser::ast::Query) -> SortingView;

/// What one key of an `ORDER BY` clause holds.
pub uninterp spec fn key_parts(key: sqlparser::ast::OrderByExpr) -> KeyView;

/// The `LIMIT` and `OFFSET` of a query.
pub uninterp spec fn query_paging(query: sqlparser::ast::Query) -> PagingView;

/// What one item of a projection list holds.
pub uninterp spec fn item_shape(item: sqlparser::ast::SelectItem) -> ItemView;

/// What one entry of a `FROM` clause holds.
pub uninterp spec fn table_entry(table: sqlparser::ast::TableWithJoins) -> EntryView;

/// How many values each other field of a table in a `FROM` clause holds.
pub uninterp spec fn table_others(table: sqlparser::ast::TableWithJoins) -> Seq<usize>;

/// What one node of an expression holds.
pub uninterp spec fn expr_node(expr: sqlparser::ast::Expr) -> NodeView;

/// The literal that a value of the syntax tree writes.
pub uninterp spec fn value_literal(value: sqlparser::ast::Value) -> ExpressionView;

/// The arithmetic operator of the same name as an operator of the syntax
/// tree, if there is one.
pub uninterp spec fn arithmetic_operator(op: sqlparser::ast::BinaryOperator) -> Option<Operator>;

/// The comparison or the connective of the same name as an operator of the
/// syntax tree, if there is one.
pub uninterp spec fn comparison_operator(op: sqlparser::ast::BinaryOperator) -> Option<Operator>;

/// The value of an optional reference.
pub(crate) open spec fn referred(expr: Option<&sqlparser::ast::Expr>) -> Option<
    sqlparser::ast::Expr,
> {
    match expr {
        Some(expr) => Some(*expr),
        None => None,
    }
}

/// The views of the parts of a name, in order.
pub open spec fn part_views(parts: Seq<Option<String>>) -> Seq<Option<Seq<char>>> {
    Seq::new(
        parts.len(),
        |i: int|
            match parts[i] {
                Some(name) => Some(name@),
                None => None,
            },
    )
}

pub(crate) open spec fn body_view(body: Body) -> BodyView {
    match body {
        Body::Plain(select) => BodyView::Plain(*select),
        Body::Parenthesised => BodyView::Parenthesised,
        Body::Other => BodyView::Other,
    }
}

pub(crate) open spec fn clauses_view(clauses: Clauses) -> ClausesView {
    ClausesView {
        projection: clauses.projection@,
        from: clauses.from@,
        selection: referred(clauses.selection),
    }
}

pub(crate) open spec fn sorting_view(sorting: Sorting) -> SortingView {
    match sorting {
        Sorting::Absent => SortingView::Absent,
        Sorting::Keys(keys, interpolations) => SortingView::Keys(keys@, interpolations),
        Sorting::All => SortingView::All,
    }
}

pub(crate) open spec fn key_view(key: Key) -> KeyView {
    KeyView { expr: *key.expr, direction: key.direction, others: key.others@ }
}

pub(crate) open spec fn paging_view(paging: Paging) -> PagingView {
    PagingView {
        limit: referred(paging.limit),
        offset: referred(paging.offset),
        limit_by: paging.limit_by,
    }
}

pub(crate) open spec fn item_view(item: Item) -> ItemView {
    match item {
        Item::Plain(expr) => ItemView::Plain(*expr),
        Item::Aliased(expr, name) => ItemView::Aliased(*expr, name@),
        Item::Wildcard(options) => ItemView::Wildcard(options@),
        Item::Other => ItemView::Other,
    }
}

pub(crate) open spec fn entry_view(entry: Entry) -> EntryView {
    EntryView {
        origin: match entry.origin {
            Origin::Table(parts) => OriginView::Table(part_views(parts@)),
            Origin::Derived => OriginView::Derived,
            Origin::Other => OriginView::Other,
        },
        joins: entry.joins,
    }
}

pub(crate) open spec fn node_view(node: Node) -> NodeView {
    match node {
        Node::Identifier(name) => NodeView::Identifier(name@),
        Node::Literal(value) => NodeView::Literal(*value),
        Node::Binary(left, op, right) => NodeView::Binary(*left, *op, *right),
        Node::IsNull(inner) => NodeView::IsNull(*inner),
        Node::IsNotNull(inner) => NodeView::IsNotNull(*inner),
        Node::Nested(inner) => NodeView::Nested(*inner),
        Node::Wildcard => NodeView::Wildcard,
        Node::Subquery => NodeView::Subquery,
        Node::Other => NodeView::Other,
    }
}

/// `Parser::parse_sql` under [`CalDialect`]: what comes back rests on the
/// text alone.
#[verifier::external_body]
pub(crate) fn parse_sql(sql: &str) -> (r: Result<
    Vec<sqlparser::ast::Statement>,
    sqlparser::parser::ParserError,
>)
    ensures
        match r {
            Ok(tree) => parsed(sql@) == Ok::<
                Seq<sqlparser::ast::Statement>,
                sqlparser::parser::ParserError,
            >(tree@),
            Err(e) => parsed(sql@) == Err::<
                Seq<sqlparser::ast::Statement>,
                sqlparser::parser::ParserError,
            >(e),
        },
{
    sqlparser::parser::Parser::parse_sql(&CalDialect, sql)
}

/// `ParserError`'s `Display`.
#[verifier::external_body]
pub(crate) fn syntax_message(e: &sqlparser::parser::ParserError) -> (r: String)
    ensures
        r@ == syntax_text(*e),
{
    e.to_string()
}

/// The query of `Statement::Query`.
#[verifier::external_body]
pub(crate) fn as_query(statement: &sqlparser::ast::Statement) -> (r: Option<&sqlparser::ast::Query>)
    ensures
        match r {
            Some(query) => statement_query(*statement) == Some(*query),
            None => statement_query(*statement) is None,
        },
{
    match statement {
        sqlparser::ast::Statement::Query(query) => Some(query),
        _ => None,
    }
}

/// The variant of `Query::body`.
#[verifier::external_body]
pub(crate) fn body(query: &sqlparser::ast::Query) -> (r: Body<'_>)
    ensures
        body_view(r) == query_body(*query),
{
    match query.body.as_ref() {
        sqlparser::ast::SetExpr::Select(select) => Body::Plain(select),
        sqlparser::ast::SetExpr::Query(_) => Body::Parenthesised,
        _ => Body::Other,
    }
}

/// The fields `projection`, `from` and `selection` of a `Select`.
#[verifier::external_body]
pub(crate) fn clauses(select: &sqlparser::ast::Select) -> (r: Clauses<'_>)
    ensures
        clauses_view(r) == select_clauses(*select),
{
    Clauses {
        projection: &select.projection,
        from: &select.from,
        selection: select.selection.as_ref(),
    }
}

/// For each field of a `Select` that holds an option or a list, but
/// `projection`, `from` and `selection`: how many values it holds.
#[verifier::external_body]
pub(crate) fn select_counts(select: &sqlparser::ast::Select) -> (r: Vec<usize>)
    ensures
        r@ == select_others(*select),
{
    let s = select;
    vec![
        s.distinct.iter().count(), s.top.iter().count(), s.into.iter().count(),
        s.exclude.iter().count(), s.select_modifiers.iter().count(),
        s.optimizer_hints.len(), s.lateral_views.len(), s.prewhere.iter().count(),
        s.connect_by.len(), s.cluster_by.len(), s.distribute_by.len(), s.sort_by.len(),
        s.having.iter().count(), s.named_window.len(), s.qualify.iter().count(),
        s.value_table_mode.iter().count(),
    ]
}

/// The lengths of the two lists of `GroupByExpr::Expressions`; `None` for
/// `GROUP BY ALL`.
#[verifier::external_body]
pub(crate) fn grouping(select: &sqlparser::ast::Select) -> (r: Option<(usize, usize)>)
    ensures
        r == select_grouping(*select),
{
    match &select.group_by {
        sqlparser::ast::GroupByExpr::Expressions(by, with) => Some((by.len(), with.len())),
        sqlparser::ast::GroupByExpr::All(_) => None,
    }
}

/// For each field of a `Query` but `body`, `order_by` and `limit_clause`:
/// how many values it holds.
#[verifier::external_body]
pub(crate) fn query_counts(query: &sqlparser::ast::Query) -> (r: Vec<usize>)
    ensures
        r@ == query_others(*query),
{
    vec![
        query.with.iter().count(), query.fetch.iter().count(), query.locks.len(),
        query.for_clause.iter().count(), query.settings.iter().count(),
        query.format_clause.iter().count(), query.pipe_operators.len(),
    ]
}

/// The variant of `Query::order_by`.
#[verifier::external_body]
pub(crate) fn sorting(query: &sqlparser::ast::Query) -> (r: Sorting<'_>)
    ensures
        sorting_view(r) == query_sorting(*query),
{
    match &query.order_by {
        None => Sorting::Absent,
        Some(order) => match &order.kind {
            sqlparser::ast::OrderByKind::Expressions(keys) => Sorting::Keys(keys, order.interpolate.iter().count()),
            sqlparser::ast::OrderByKind::All(_) => Sorting::All,
        },
    }
}

/// The fields of an `OrderByExpr`: `expr`, the variant of `options.sort`,
/// and how many values `options.nulls_first` and `with_fill` hold.
#[verifier::external_body]
pub(crate) fn key(ordered: &sqlparser::ast::OrderByExpr) -> (r: Key<'_>)
    ensures
        key_view(r) == key_parts(*ordered),
{
    let direction = match ordered.options.sort {
        None => Direction::Unspecified,
        Some(sqlparser::ast::OrderBySort::Asc) => Direction::Ascending,
        Some(sqlparser::ast::OrderBySort::Desc) => Direction::Descending,
        Some(_) => Direction::Other,
    };
    let others = vec![ordered.options.nulls_first.iter().count(), ordered.with_fill.iter().count()];
    Key { expr: &ordered.expr, direction, others }
}

/// The expressions after `LIMIT` and `OFFSET`, in either variant of
/// `LimitClause`, and the length of `limit_by`.
#[verifier::external_body]
pub(crate) fn paging(query: &sqlparser::ast::Query) -> (r: Paging<'_>)
    ensures
        paging_view(r) == query_paging(*query),
{
    match query.limit_clause.as_ref() {
        None => Paging { limit: None, offset: None, limit_by: 0 },
        Some(sqlparser::ast::LimitClause::LimitOffset { limit, offset, limit_by }) => Paging {
            limit: limit.as_ref(),
            offset: offset.as_ref().map(|offset| &offset.value),
            limit_by: limit_by.len(),
        },
        Some(sqlparser::ast::LimitClause::OffsetCommaLimit { offset, limit }) => {
            Paging { limit: Some(limit), offset: Some(offset), limit_by: 0 }
        },
    }
}

/// The variant of a `SelectItem`; of a wildcard, how many values each of
/// its options holds.
#[verifier::external_body]
pub(crate) fn item(listed: &sqlparser::ast::SelectItem) -> (r: Item<'_>)
    ensures
        item_view(r) == item_shape(*listed),
{
    match listed {
        sqlparser::ast::SelectItem::UnnamedExpr(expr) => Item::Plain(expr),
        sqlparser::ast::SelectItem::ExprWithAlias { expr, alias } => Item::Aliased(expr, alias.value.clone()),
        sqlparser::ast::SelectItem::Wildcard(o) => Item::Wildcard(vec![
            o.opt_ilike.iter().count(), o.opt_exclude.iter().count(), o.opt_except.iter().count(),
            o.opt_replace.iter().count(), o.opt_rename.iter().count(), o.opt_alias.iter().count(),
        ]),
        _ => Item::Other,
    }
}

/// The variant of `TableWithJoins::relation`, of a table with the `value`
/// of each identifier of its name, and the length of `joins`.
#[verifier::external_body]
pub(crate) fn entry(table: &sqlparser::ast::TableWithJoins) -> (r: Entry)
    ensures
        entry_view(r) == table_entry(*table),
{
    let origin = match &table.relation {
        sqlparser::ast::TableFactor::Table { name, .. } => Origin::Table(
            name.0.iter().map(|part| part.as_ident().map(|ident| ident.value.clone())).collect(),
        ),
        sqlparser::ast::TableFactor::Derived { .. } => Origin::Derived,
        _ => Origin::Other,
    };
    Entry { origin, joins: table.joins.len() }
}

/// For each field of `TableFactor::Table` but `name` and `alias`: how many
/// values it holds; no count for another variant.
#[verifier::external_body]
pub(crate) fn table_counts(table: &sqlparser::ast::TableWithJoins) -> (r: Vec<usize>)
    ensures
        r@ == table_others(*table),
{
    match &table.relation {
        sqlparser::ast::TableFactor::Table { args, with_hints, version, with_ordinality, partitions, json_path, sample, index_hints, .. } => vec![
            args.iter().count(), with_hints.len(), version.iter().count(),
            usize::from(*with_ordinality), partitions.len(), json_path.iter().count(),
            sample.iter().count(), index_hints.len(),
        ],
        _ => vec![],
    }
}

/// The variant of an `Expr`, with its operands.
#[verifier::external_body]
pub(crate) fn node(expr: &sqlparser::ast::Expr) -> (r: Node<'_>)
    ensures
        node_view(r) == expr_node(*expr),
{
    match expr {
        sqlparser::ast::Expr::Identifier(ident) => Node::Identifier(ident.value.clone()),
        sqlparser::ast::Expr::Value(value) => Node::Literal(&value.value),
        sqlparser::ast::Expr::BinaryOp { left, op, right } => Node::Binary(left, op, right),
        sqlparser::ast::Expr::IsNull(inner) => Node::IsNull(inner),
        sqlparser::ast::Expr::IsNotNull(inner) => Node::IsNotNull(inner),
        sqlparser::ast::Expr::Nested(inner) => Node::Nested(inner),
        sqlparser::ast::Expr::Wildcard(_) => Node::Wildcard,
        sqlparser::ast::Expr::Subquery(_) => Node::Subquery,
        sqlparser::ast::Expr::InSubquery { .. } => Node::Subquery,
        sqlparser::ast::Expr::Exists { .. } => Node::Subquery,
        _ => Node::Other,
    }
}

/// The variant of a `Value`, with what it holds.
#[verifier::external_body]
pub(crate) fn literal(value: &sqlparser::ast::Value) -> (r: Expression)
    ensures
        r@ == value_literal(*value),
{
    match value {
        sqlparser::ast::Value::Number(digits, _) => Expression::Number(digits.clone()),
        sqlparser::ast::Value::SingleQuotedString(text) => Expression::Text(text.clone()),
        sqlparser::ast::Value::Boolean(value) => Expression::Boolean(*value),
        sqlparser::ast::Value::Null => Expression::Null,
        _ => Expression::Unsupported,
    }
}

/// The arithmetic operator of the same name, if there is one.
#[verifier::external_body]
pub(crate) fn arithmetic(op: &sqlparser::ast::BinaryOperator) -> (r: Option<Operator>)
    ensures
        r == arithmetic_operator(*op),
{
    match op {
        sqlparser::ast::BinaryOperator::Plus => Some(Operator::Plus),
        sqlparser::ast::BinaryOperator::Minus => Some(Operator::Minus),
        sqlparser::ast::BinaryOperator::Multiply => Some(Operator::Multiply),
        sqlparser::ast::BinaryOperator::Divide => Some(Operator::Divide),
        sqlparser::ast::BinaryOperator::Modulo => Some(Operator::Modulo),
        _ => None,
    }
}

/// The comparison or the connective of the same name, if there is one.
#[verifier::external_body]
pub(crate) fn comparison(op: &sqlparser::ast::BinaryOperator) -> (r: Option<Operator>)
    ensures
        r == comparison_operator(*op),
{
    match op {
        sqlparser::ast::BinaryOperator::Gt => Some(Operator::Gt),
        sqlparser::ast::BinaryOperator::Lt => Some(Operator::Lt),
        sqlparser::ast::BinaryOperator::GtEq => Some(Operator::GtEq),
        sqlparser::ast::BinaryOperator::LtEq => Some(Operator::LtEq),
        sqlparser::ast::BinaryOperator::Eq => Some(Operator::Eq),
        sqlparser::ast::BinaryOperator::NotEq => Some(Operator::NotEq),
        sqlparser::ast::BinaryOperator::And => Some(Operator::And),
        sqlparser::ast::BinaryOperator::Or => Some(Operator::Or),
        _ => None,
    }
}

/// How many levels of an expression are read; what nests deeper is taken
/// as unsupported.
pub const MAX_DEPTH: usize = 512;

/// Whether any of `counts` is above zero.
pub fn any_nonzero(counts: &Vec<usize>) -> (r: bool)
    ensures
        r == exists|i: int| 0 <= i < counts@.len() && counts@[i] > 0,
{
    let mut i: usize = 0;
    while i < counts.len()
        invariant
            i <= counts.len(),
            forall|j: int| 0 <= j < i ==> counts@[j] == 0,
        decreases counts.len() - i,
    {
        if counts[i] > 0 {
            return true;
        }
        i += 1;
    }
    false
}

/// Whether any of `counts` is above zero.
pub open spec fn nonzero(counts: Seq<usize>) -> bool {
    exists|i: int| 0 <= i < counts.len() && counts[i] > 0
}

/// The name that the parts of a table's name make: each part must be an
/// identifier.
pub open spec fn name_of(parts: Seq<Option<Seq<char>>>) -> Option<Seq<Seq<char>>> {
    if forall|i: int| 0 <= i < parts.len() ==> (#[trigger] parts[i]) is Some {
        Some(Seq::new(parts.len(), |i: int| parts[i]->Some_0))
    } else {
        None
    }
}

/// The operator that an operator of the syntax tree is read as: the
/// arithmetic operator of its name, else the comparison or the connective of
/// its name.
pub open spec fn operator_of(op: sqlparser::ast::BinaryOperator) -> Option<Operator> {
    match arithmetic_operator(op) {
        Some(op) => Some(op),
        None => comparison_operator(op),
    }
}

/// The expression that an expression of the syntax tree is read as, `fuel`
/// levels deep at most: parentheses leave what they hold, an operator that
/// has no counterpart and what nests deeper than `fuel` are unsupported.
pub open spec fn expression_of(expr: sqlparser::ast::Expr, fuel: nat) -> ExpressionView
    decreases fuel,
{
    if fuel == 0 {
        ExpressionView::Unsupported
    } else {
        match expr_node(expr) {
            NodeView::Identifier(name) => ExpressionView::Column(name),
            NodeView::Literal(value) => value_literal(value),
            NodeView::Binary(left, op, right) => match operator_of(op) {
                Some(op) => ExpressionView::Binary {
                    left: Box::new(expression_of(left, (fuel - 1) as nat)),
                    op,
                    right: Box::new(expression_of(right, (fuel - 1) as nat)),
                },
                None => ExpressionView::Unsupported,
            },
            NodeView::IsNull(inner) => ExpressionView::IsNull(
                Box::new(expression_of(inner, (fuel - 1) as nat)),
            ),
            NodeView::IsNotNull(inner) => ExpressionView::IsNotNull(
                Box::new(expression_of(inner, (fuel - 1) as nat)),
            ),
            NodeView::Nested(inner) => expression_of(inner, (fuel - 1) as nat),
            NodeView::Wildcard => ExpressionView::Wildcard,
            NodeView::Subquery => ExpressionView::Subquery,
            NodeView::Other => ExpressionView::Unsupported,
        }
    }
}

/// What an optional expression of the syntax tree is read as.
pub open spec fn optional_of(expr: Option<sqlparser::ast::Expr>) -> Option<ExpressionView> {
    match expr {
        Some(expr) => Some(expression_of(expr, MAX_DEPTH as nat)),
        None => None,
    }
}

/// What one item of a projection list is read as: a wildcard with options
/// and any item but an expression, with or without an alias, are
/// unsupported.
pub open spec fn item_of(item: sqlparser::ast::SelectItem) -> ExpressionView {
    match item_shape(item) {
        ItemView::Plain(expr) => expression_of(expr, MAX_DEPTH as nat),
        ItemView::Aliased(expr, name) => ExpressionView::Alias {
            expr: Box::new(expression_of(expr, MAX_DEPTH as nat)),
            name,
        },
        ItemView::Wildcard(options) => if nonzero(options) {
            ExpressionView::Unsupported
        } else {
            ExpressionView::Wildcard
        },
        ItemView::Other => ExpressionView::Unsupported,
    }
}

/// What a projection list is read as, item by item.
pub open spec fn projection_of(items: Seq<sqlparser::ast::SelectItem>) -> Seq<ExpressionView> {
    Seq::new(items.len(), |i: int| item_of(items[i]))
}

/// What stands at one position of a `FROM` clause: a table only where every
/// part of its name is an identifier and it holds nothing but a name and an
/// alias.
pub open spec fn relation_of(table: sqlparser::ast::TableWithJoins) -> RelationView {
    match table_entry(table).origin {
        OriginView::Table(parts) => match name_of(parts) {
            Some(names) => if nonzero(table_others(table)) {
                RelationView::Other
            } else {
                RelationView::Table(names)
            },
            None => RelationView::Other,
        },
        OriginView::Derived => RelationView::Derived,
        OriginView::Other => RelationView::Other,
    }
}

/// What one entry of a `FROM` clause is read as.
pub open spec fn table_of(table: sqlparser::ast::TableWithJoins) -> TableRefView {
    TableRefView { relation: relation_of(table), joins: table_entry(table).joins as nat }
}

/// What a `FROM` clause is read as, entry by entry.
pub open spec fn from_of(tables: Seq<sqlparser::ast::TableWithJoins>) -> Seq<TableRefView> {
    Seq::new(tables.len(), |i: int| table_of(tables[i]))
}

/// What one key of an `ORDER BY` clause is read as: a key with anything but
/// an expression and `ASC` or `DESC` is unsupported.
pub open spec fn key_of(key: sqlparser::ast::OrderByExpr) -> OrderKeyView {
    let parts = key_parts(key);
    if nonzero(parts.others) {
        OrderKeyView { expr: ExpressionView::Unsupported, ascending: None }
    } else {
        match parts.direction {
            Direction::Unspecified => OrderKeyView {
                expr: expression_of(parts.expr, MAX_DEPTH as nat),
                ascending: None,
            },
            Direction::Ascending => OrderKeyView {
                expr: expression_of(parts.expr, MAX_DEPTH as nat),
                ascending: Some(true),
            },
            Direction::Descending => OrderKeyView {
                expr: expression_of(parts.expr, MAX_DEPTH as nat),
                ascending: Some(false),
            },
            Direction::Other => OrderKeyView { expr: ExpressionView::Unsupported, ascending: None },
        }
    }
}

/// What the keys of an `ORDER BY` clause are read as, key by key.
pub open spec fn keys_of(keys: Seq<sqlparser::ast::OrderByExpr>) -> Seq<OrderKeyView> {
    Seq::new(keys.len(), |i: int| key_of(keys[i]))
}

/// The views of `keys`, in order.
pub open spec fn key_views(keys: Seq<OrderKey>) -> Seq<OrderKeyView> {
    Seq::new(keys.len(), |i: int| keys[i]@)
}

/// The views of `tables`, in order.
pub open spec fn table_views(tables: Seq<TableRef>) -> Seq<TableRefView> {
    Seq::new(tables.len(), |i: int| tables[i]@)
}

/// Whether a query whose body is `select` holds a clause outside the
/// accepted shape: `ORDER BY ALL` or an `INTERPOLATE` after the keys, a
/// `GROUP BY`, a `BY` after the limit, or anything in another field.
pub open spec fn extras_of(query: sqlparser::ast::Query, select: sqlparser::ast::Select) -> bool {
    let beside_keys = match query_sorting(query) {
        SortingView::Absent => false,
        SortingView::Keys(keys, interpolations) => interpolations > 0,
        SortingView::All => true,
    };
    let grouped = match select_grouping(select) {
        Some((by, with)) => by > 0 || with > 0,
        None => true,
    };
    beside_keys || grouped || query_paging(query).limit_by > 0 || nonzero(select_others(select))
        || nonzero(query_others(query))
}

/// What a query whose body is the plain `SELECT` `select` is read as.
pub open spec fn select_of(
    query: sqlparser::ast::Query,
    select: sqlparser::ast::Select,
) -> SelectStatementView {
    SelectStatementView {
        projection: projection_of(select_clauses(select).projection),
        from: from_of(select_clauses(select).from),
        selection: optional_of(select_clauses(select).selection),
        order_by: match query_sorting(query) {
            SortingView::Keys(keys, interpolations) => keys_of(keys),
            _ => Seq::empty(),
        },
        limit: optional_of(query_paging(query).limit),
        offset: optional_of(query_paging(query).offset),
        extra_clauses: extras_of(query, select),
    }
}

/// What one statement of the syntax tree is read as: a `SELECT` where it is
/// a query with a plain `SELECT` as its body, a subquery where the body is a
/// parenthesised query, and another statement otherwise.
pub open spec fn statement_of(statement: sqlparser::ast::Statement) -> ParsedStatementView {
    match statement_query(statement) {
        None => ParsedStatementView::Other,
        Some(query) => match query_body(query) {
            BodyView::Plain(select) => ParsedStatementView::Select(select_of(query, select)),
            BodyView::Parenthesised => ParsedStatementView::Subquery,
            BodyView::Other => ParsedStatementView::Other,
        },
    }
}

/// What a syntax tree is read as, statement by statement.
pub open spec fn tree_of(tree: Seq<sqlparser::ast::Statement>) -> Seq<ParsedStatementView> {
    Seq::new(tree.len(), |i: int| statement_of(tree[i]))
}

/// The name of a table: every part must be an identifier.
pub fn table_name(parts: &Vec<Option<String>>) -> (r: Option<Vec<String>>)
    ensures
        match r {
            Some(names) => names@.len() == parts@.len() && forall|i: int|
                0 <= i < parts@.len() ==> parts@[i] == Some(#[trigger] names@[i]),
            None => exists|i: int| 0 <= i < parts@.len() && parts@[i] is None,
        },
        match r {
            Some(names) => name_of(part_views(parts@)) == Some(names_of(names@)),
            None => name_of(part_views(parts@)) is None,
        },
{
    let mut names: Vec<String> = Vec::new();
    let mut i: usize = 0;
    while i < parts.len()
        invariant
            i <= parts.len(),
            names@.len() == i,
            forall|j: int| 0 <= j < i ==> parts@[j] == Some(#[trigger] names@[j]),
        decreases parts.len() - i,
    {
        match &parts[i] {
            Some(name) => names.push(name.clone()),
            None => {
                assert(part_views(parts@)[i as int] is None);
                return None;
            },
        }
        i += 1;
    }
    proof {
        let views = part_views(parts@);
        assert forall|j: int| 0 <= j < views.len() implies (#[trigger] views[j]) is Some by {
            assert(parts@[j] == Some(names@[j]));
        }
        assert(Seq::new(views.len(), |j: int| views[j]->Some_0) =~= names_of(names@)) by {
            assert forall|j: int| 0 <= j < views.len() implies views[j]->Some_0 == names@[j]@ by {
                assert(parts@[j] == Some(names@[j]));
            }
        }
    }
    Some(names)
}

/// Reads the operator of a binary expression.
fn operator(op: &sqlparser::ast::BinaryOperator) -> (r: Option<Operator>)
    ensures
        r == operator_of(*op),
{
    match arithmetic(op) {
        Some(op) => Some(op),
        None => comparison(op),
    }
}

/// Reads an expression of the syntax tree, `fuel` levels deep at most.
fn read_expr(expr: &sqlparser::ast::Expr, fuel: usize) -> (r: Expression)
    ensures
        r@ == expression_of(*expr, fuel as nat),
    decreases fuel,
{
    if fuel == 0 {
        return Expression::Unsupported;
    }
    match node(expr) {
        Node::Identifier(name) => Expression::Column(name),
        Node::Literal(value) => literal(value),
        Node::Binary(left, op, right) => match operator(op) {
            Some(op) => Expression::Binary {
                left: Box::new(read_expr(left, fuel - 1)),
                op,
                right: Box::new(read_expr(right, fuel - 1)),
            },
            None => Expression::Unsupported,
        },
        Node::IsNull(inner) => Expression::IsNull(Box::new(read_expr(inner, fuel - 1))),
        Node::IsNotNull(inner) => Expression::IsNotNull(Box::new(read_expr(inner, fuel - 1))),
        Node::Nested(inner) => read_expr(inner, fuel - 1),
        Node::Wildcard => Expression::Wildcard,
        Node::Subquery => Expression::Subquery,
        Node::Other => Expression::Unsupported,
    }
}

/// Reads an optional expression of the syntax tree.
fn read_optional(expr: Option<&sqlparser::ast::Expr>) -> (r: Option<Expression>)
    ensures
        optional_view(r) == optional_of(referred(expr)),
{
    match expr {
        Some(expr) => Some(read_expr(expr, MAX_DEPTH)),
        None => None,
    }
}

/// Reads a projection list, item by item; a wildcard with options is taken
/// as unsupported.
fn read_projection(items: &Vec<sqlparser::ast::SelectItem>) -> (r: Vec<Expression>)
    ensures
        views_of(r@) == projection_of(items@),
{
    let mut projection: Vec<Expression> = Vec::new();
    let mut i: usize = 0;
    while i < items.len()
        invariant
            i <= items.len(),
            projection@.len() == i,
            forall|j: int| 0 <= j < i ==> (#[trigger] projection@[j])@ == item_of(items@[j]),
        decreases items.len() - i,
    {
        let read = match item(&items[i]) {
            Item::Plain(expr) => read_expr(expr, MAX_DEPTH),
            Item::Aliased(expr, name) => Expression::Alias {
                expr: Box::new(read_expr(expr, MAX_DEPTH)),
                name,
            },
            Item::Wildcard(options) => if any_nonzero(&options) {
                Expression::Unsupported
            } else {
                Expression::Wildcard
            },
            Item::Other => Expression::Unsupported,
        };
        projection.push(read);
        i += 1;
    }
    assert(views_of(projection@) =~= projection_of(items@));
    projection
}

/// Reads a `FROM` clause, entry by entry; a table with anything but a name
/// and an alias is taken as no plain table.
fn read_from(tables: &Vec<sqlparser::ast::TableWithJoins>) -> (r: Vec<TableRef>)
    ensures
        table_views(r@) == from_of(tables@),
{
    let mut from: Vec<TableRef> = Vec::new();
    let mut i: usize = 0;
    while i < tables.len()
        invariant
            i <= tables.len(),
            from@.len() == i,
            forall|j: int| 0 <= j < i ==> (#[trigger] from@[j])@ == table_of(tables@[j]),
        decreases tables.len() - i,
    {
        let read = entry(&tables[i]);
        let relation = match read.origin {
            Origin::Table(parts) => match table_name(&parts) {
                Some(names) => if any_nonzero(&table_counts(&tables[i])) {
                    Relation::Other
                } else {
                    Relation::Table(names)
                },
                None => Relation::Other,
            },
            Origin::Derived => Relation::Derived,
            Origin::Other => Relation::Other,
        };
        from.push(TableRef { relation, joins: read.joins });
        i += 1;
    }
    assert(table_views(from@) =~= from_of(tables@));
    from
}

/// Reads the keys of an `ORDER BY` clause, key by key; a key with anything
/// but an expression and `ASC` or `DESC` is taken as unsupported.
fn read_keys(keys: &Vec<sqlparser::ast::OrderByExpr>) -> (r: Vec<OrderKey>)
    ensures
        key_views(r@) == keys_of(keys@),
{
    let mut order_by: Vec<OrderKey> = Vec::new();
    let mut i: usize = 0;
    while i < keys.len()
        invariant
            i <= keys.len(),
            order_by@.len() == i,
            forall|j: int| 0 <= j < i ==> (#[trigger] order_by@[j])@ == key_of(keys@[j]),
        decreases keys.len() - i,
    {
        let read = key(&keys[i]);
        let plain = !any_nonzero(&read.others);
        let next = match read.direction {
            Direction::Unspecified if plain => OrderKey {
                expr: read_expr(read.expr, MAX_DEPTH),
                ascending: None,
            },
            Direction::Ascending if plain => OrderKey {
                expr: read_expr(read.expr, MAX_DEPTH),
                ascending: Some(true),
            },
            Direction::Descending if plain => OrderKey {
                expr: read_expr(read.expr, MAX_DEPTH),
                ascending: Some(false),
            },
            _ => OrderKey { expr: Expression::Unsupported, ascending: None },
        };
        order_by.push(next);
        i += 1;
    }
    assert(key_views(order_by@) =~= keys_of(keys@));
    order_by
}

/// Reads one statement of the syntax tree.
fn read_statement(statement: &sqlparser::ast::Statement) -> (r: ParsedStatement)
    ensures
        r@ == statement_of(*statement),
{
    let query = match as_query(statement) {
        Some(query) => query,
        None => { return ParsedStatement::Other; },
    };
    let select = match body(query) {
        Body::Plain(select) => select,
        Body::Parenthesised => { return ParsedStatement::Subquery; },
        Body::Other => { return ParsedStatement::Other; },
    };
    let parts = clauses(select);
    let (order_by, beside_keys) = match sorting(query) {
        Sorting::Absent => (Vec::new(), false),
        Sorting::Keys(keys, interpolations) => (read_keys(keys), interpolations > 0),
        Sorting::All => (Vec::new(), true),
    };
    let grouped = match grouping(select) {
        Some((by, with)) => by > 0 || with > 0,
        None => true,
    };
    let page = paging(query);
    let extra_clauses = beside_keys || grouped || page.limit_by > 0 || any_nonzero(
        &select_counts(select),
    ) || any_nonzero(&query_counts(query));
    let read = SelectStatement {
        projection: read_projection(parts.projection),
        from: read_from(parts.from),
        selection: read_optional(parts.selection),
        order_by,
        limit: read_optional(page.limit),
        offset: read_optional(page.offset),
        extra_clauses,
    };
    proof {
        let expected = select_of(*query, *select);
        assert(read@.projection == expected.projection);
        assert(read@.from =~= table_views(read.from@));
        assert(read@.from == expected.from);
        assert(read@.selection == expected.selection);
        assert(read@.order_by =~= key_views(read.order_by@));
        assert(read@.order_by =~= expected.order_by);
        assert(read@.limit == expected.limit);
        assert(read@.offset == expected.offset);
        assert(read@.extra_clauses == expected.extra_clauses);
    }
    ParsedStatement::Select(read)
}

/// Parses `sql` under [`CalDialect`] and reads each statement of the result.
///
/// The parser decides what the text holds. Its error is handed on as its
/// message, and its syntax tree is read statement by statement.
pub fn statements(sql: &str) -> (r: Result<Vec<ParsedStatement>, String>)
    ensures
        match r {
            Ok(read) => parsed(sql@) matches Ok(tree) && statement_views(read@) == tree_of(tree),
            Err(message) => parsed(sql@) matches Err(e) && message@ == syntax_text(e),
        },
{
    let tree = match parse_sql(sql) {
        Ok(tree) => tree,
        Err(e) => { return Err(syntax_message(&e)); },
    };
    let mut read: Vec<ParsedStatement> = Vec::new();
    let mut i: usize = 0;
    while i < tree.len()
        invariant
            i <= tree.len(),
            read@.len() == i,
            forall|j: int| 0 <= j < i ==> (#[trigger] read@[j])@ == statement_of(tree@[j]),
        decreases tree.len() - i,
    {
        read.push(read_statement(&tree[i]));
        i += 1;
    }
    assert(statement_views(read@) =~= tree_of(tree@));
    Ok(read)
}

} // verus!
