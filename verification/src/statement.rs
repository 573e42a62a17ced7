//! What a parsed statement holds, as plain values: the input of the
//! conversion rules.

use vstd::prelude::*;
use crate::expression::{Expression, ExpressionView};

verus! {

/// What stands at one position of a `FROM` clause.
#[derive(Debug, PartialEq, Eq)]
pub enum Relation {
    /// A table name, one entry for each dot-separated part, quotes resolved.
    Table(Vec<String>),
    /// A nested query.
    Derived,
    /// Anything else: a table function, a parenthesised join, ...
    Other,
}

pub enum RelationView {
    Table(Seq<Seq<char>>),
    Derived,
    Other,
}

/// The views of `parts`, in order.
pub open spec fn names_of(parts: Seq<String>) -> Seq<Seq<char>> {
    Seq::new(parts.len(), |i: int| parts[i]@)
}

impl View for Relation {
    type V = RelationView;

    open spec fn view(&self) -> RelationView {
        match self {
            Relation::Table(parts) => RelationView::Table(names_of(parts@)),
            Relation::Derived => RelationView::Derived,
            Relation::Other => RelationView::Other,
        }
    }
}

/// One entry of a `FROM` clause: a relation and the joins hung on it.
#[derive(Debug, PartialEq, Eq)]
pub struct TableRef {
    pub relation: Relation,
    /// How many joins follow the relation.
    pub joins: usize,
}

pub struct TableRefView {
    pub relation: RelationView,
    pub joins: nat,
}

impl View for TableRef {
    type V = TableRefView;

    open spec fn view(&self) -> TableRefView {
        TableRefView { relation: self.relation@, joins: self.joins as nat }
    }
}

/// One key of an `ORDER BY` clause.
#[derive(Debug, PartialEq, Eq)]
pub struct OrderKey {
    pub expr: Expression,
    /// `Some(true)` for `ASC`, `Some(false)` for `DESC`, `None` when the
    /// statement names no direction.
    pub ascending: Option<bool>,
}

pub struct OrderKeyView {
    pub expr: ExpressionView,
    pub ascending: Option<bool>,
}

impl View for OrderKey {
    type V = OrderKeyView;

    open spec fn view(&self) -> OrderKeyView {
        OrderKeyView { expr: self.expr@, ascending: self.ascending }
    }
}

/// A `SELECT` with the clauses that the conversion rules read.
#[derive(Debug, PartialEq, Eq)]
pub struct SelectStatement {
    pub projection: Vec<Expression>,
    pub from: Vec<TableRef>,
    pub selection: Option<Expression>,
    pub order_by: Vec<OrderKey>,
    pub limit: Option<Expression>,
    pub offset: Option<Expression>,
    /// Whether any other clause is present (`WITH`, `DISTINCT`, `GROUP BY`,
    /// `HAVING`, `FETCH`, ...).
    pub extra_clauses: bool,
}

pub struct SelectStatementView {
    pub projection: Seq<ExpressionView>,
    pub from: Seq<TableRefView>,
    pub selection: Option<ExpressionView>,
    pub order_by: Seq<OrderKeyView>,
    pub limit: Option<ExpressionView>,
    pub offset: Option<ExpressionView>,
    pub extra_clauses: bool,
}

/// The view of an optional expression.
pub open spec fn optional_view(e: Option<Expression>) -> Option<ExpressionView> {
    match e {
        Some(e) => Some(e@),
        None => None,
    }
}

impl View for SelectStatement {
    type V = SelectStatementView;

    open spec fn view(&self) -> SelectStatementView {
        SelectStatementView {
            projection: crate::expression::views_of(self.projection@),
            from: Seq::new(self.from@.len(), |i: int| self.from@[i]@),
            selection: optional_view(self.selection),
            order_by: Seq::new(self.order_by@.len(), |i: int| self.order_by@[i]@),
            limit: optional_view(self.limit),
            offset: optional_view(self.offset),
            extra_clauses: self.extra_clauses,
        }
    }
}

/// One parsed statement.
#[derive(Debug, PartialEq, Eq)]
pub enum ParsedStatement {
    Select(SelectStatement),
    /// A parenthesised query in the place of a `SELECT`.
    Subquery,
    /// Any other statement, and any query that is not a plain `SELECT`
    /// (a set operation, `VALUES`, ...).
    Other,
}

pub enum ParsedStatementView {
    Select(SelectStatementView),
    Subquery,
    Other,
}

impl View for ParsedStatement {
    type V = ParsedStatementView;

    open spec fn view(&self) -> ParsedStatementView {
        match self {
            ParsedStatement::Select(select) => ParsedStatementView::Select(select@),
            ParsedStatement::Subquery => ParsedStatementView::Subquery,
            ParsedStatement::Other => ParsedStatementView::Other,
        }
    }
}

} // verus!
