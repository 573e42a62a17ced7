//! Expressions over the columns of a dataset: what a predicate or a selected
//! item holds, and which of them the tabular engine is asked to evaluate.

use vstd::prelude::*;

verus! {

/// A binary operator that the engine evaluates.
#[derive(Clone, Copy, Debug, PartialEq, Eq, Structural)]
pub enum Operator {
    Plus,
    Minus,
    Multiply,
    Divide,
    Modulo,
    Gt,
    Lt,
    GtEq,
    LtEq,
    Eq,
    NotEq,
    And,
    Or,
}

/// Why a statement is outside the accepted shape
/// `SELECT .. FROM <identifier> [WHERE ..] [ORDER BY ..] [LIMIT n] [OFFSET n]`.
#[derive(Clone, Copy, Debug, PartialEq, Eq, Structural)]
pub enum Rejection {
    /// The statement is not a `SELECT`.
    NotSelect,
    /// A clause outside the accepted shape is present.
    ExtraClause,
    /// There is no `FROM` clause.
    NoSource,
    /// The `FROM` clause lists more than one source.
    MultipleSources,
    /// The `FROM` clause holds a join.
    Join,
    /// A subquery stands in the statement.
    Subquery,
    /// The source is not a plain table name.
    NotTable,
    /// The source name has more than one part.
    QualifiedSource,
    /// An expression uses an operator, function or literal that is not supported.
    Expression,
    /// An `ORDER BY` key is not a column name.
    OrderKey,
    /// `LIMIT` is not a non-negative integer that fits the machine word.
    Limit,
    /// `OFFSET` is not a non-negative integer that fits the machine word.
    Offset,
}

/// An expression as it stands in a statement.
#[derive(Debug, PartialEq, Eq)]
pub enum Expression {
    /// A column, by name.
    Column(String),
    /// Every column (`*`).
    Wildcard,
    /// A numeric literal, as written.
    Number(String),
    /// A string literal, quotes resolved.
    Text(String),
    Boolean(bool),
    Null,
    Binary { left: Box<Expression>, op: Operator, right: Box<Expression> },
    IsNull(Box<Expression>),
    IsNotNull(Box<Expression>),
    /// An expression under another name (`expr AS name`).
    Alias { expr: Box<Expression>, name: String },
    /// A nested query.
    Subquery,
    /// Anything else: a function call, an operator outside [`Operator`], ...
    Unsupported,
}

/// The mathematical value of an [`Expression`].
pub enum ExpressionView {
    Column(Seq<char>),
    Wildcard,
    Number(Seq<char>),
    Text(Seq<char>),
    Boolean(bool),
    Null,
    Binary { left: Box<ExpressionView>, op: Operator, right: Box<ExpressionView> },
    IsNull(Box<ExpressionView>),
    IsNotNull(Box<ExpressionView>),
    Alias { expr: Box<ExpressionView>, name: Seq<char> },
    Subquery,
    Unsupported,
}

impl Expression {
    /// The value of the expression, with every name and literal as a
    /// sequence of characters.
    pub open spec fn model(self) -> ExpressionView
        decreases self,
    {
        match self {
            Expression::Column(name) => ExpressionView::Column(name@),
            Expression::Wildcard => ExpressionView::Wildcard,
            Expression::Number(text) => ExpressionView::Number(text@),
            Expression::Text(text) => ExpressionView::Text(text@),
            Expression::Boolean(b) => ExpressionView::Boolean(b),
            Expression::Null => ExpressionView::Null,
            Expression::Binary { left, op, right } => ExpressionView::Binary {
                left: Box::new(left.model()),
                op,
                right: Box::new(right.model()),
            },
            Expression::IsNull(inner) => ExpressionView::IsNull(Box::new(inner.model())),
            Expression::IsNotNull(inner) => ExpressionView::IsNotNull(Box::new(inner.model())),
            Expression::Alias { expr, name } => ExpressionView::Alias {
                expr: Box::new(expr.model()),
                name: name@,
            },
            Expression::Subquery => ExpressionView::Subquery,
            Expression::Unsupported => ExpressionView::Unsupported,
        }
    }
}

impl View for Expression {
    type V = ExpressionView;

    open spec fn view(&self) -> ExpressionView {
        self.model()
    }
}

impl ExpressionView {
    /// The first reason, reading left to right, for which the engine cannot
    /// be handed this expression; `None` when there is none.
    pub open spec fn fault(self) -> Option<Rejection>
        decreases self,
    {
        match self {
            ExpressionView::Subquery => Some(Rejection::Subquery),
            ExpressionView::Unsupported => Some(Rejection::Expression),
            ExpressionView::Binary { left, op, right } => match left.fault() {
                Some(why) => Some(why),
                None => right.fault(),
            },
            ExpressionView::IsNull(inner) => inner.fault(),
            ExpressionView::IsNotNull(inner) => inner.fault(),
            ExpressionView::Alias { expr, name } => expr.fault(),
            _ => None,
        }
    }

    /// No subquery and nothing unsupported stands anywhere in the expression.
    pub open spec fn supported(self) -> bool {
        self.fault() is None
    }

    /// A subquery stands somewhere in the expression.
    pub open spec fn has_subquery(self) -> bool
        decreases self,
    {
        match self {
            ExpressionView::Subquery => true,
            ExpressionView::Binary { left, op, right } => left.has_subquery()
                || right.has_subquery(),
            ExpressionView::IsNull(inner) => inner.has_subquery(),
            ExpressionView::IsNotNull(inner) => inner.has_subquery(),
            ExpressionView::Alias { expr, name } => expr.has_subquery(),
            _ => false,
        }
    }
}

/// The first fault among `items`, in order.
pub open spec fn first_fault(items: Seq<ExpressionView>) -> Option<Rejection>
    decreases items.len(),
{
    if items.len() == 0 {
        None
    } else {
        match items[0].fault() {
            Some(why) => Some(why),
            None => first_fault(items.drop_first()),
        }
    }
}

/// The views of `items`, in order.
pub open spec fn views_of(items: Seq<Expression>) -> Seq<ExpressionView> {
    Seq::new(items.len(), |i: int| items[i]@)
}

/// Faults before position `i` being absent, the first fault of `items` is
/// the first fault from `i` on.
pub proof fn first_fault_skips_sound_prefix(items: Seq<ExpressionView>, i: int)
    requires
        0 <= i <= items.len(),
        forall|j: int| 0 <= j < i ==> items[j].fault() is None,
    ensures
        first_fault(items) == first_fault(items.skip(i)),
    decreases i,
{
    if i == 0 {
        assert(items.skip(0) =~= items);
    } else {
        first_fault_skips_sound_prefix(items.drop_first(), i - 1);
        assert(items.drop_first().skip(i - 1) =~= items.skip(i));
    }
}

impl Expression {
    /// Finds the first fault of the expression.
    pub fn find_fault(&self) -> (r: Option<Rejection>)
        ensures
            r == self@.fault(),
        decreases self,
    {
        match self {
            Expression::Subquery => Some(Rejection::Subquery),
            Expression::Unsupported => Some(Rejection::Expression),
            Expression::Binary { left, op, right } => match left.find_fault() {
                Some(why) => Some(why),
                None => right.find_fault(),
            },
            Expression::IsNull(inner) => inner.find_fault(),
            Expression::IsNotNull(inner) => inner.find_fault(),
            Expression::Alias { expr, name } => expr.find_fault(),
            _ => None,
        }
    }

    /// A copy with the same value.
    pub fn duplicate(&self) -> (r: Expression)
        ensures
            r@ == self@,
        decreases self,
    {
        match self {
            Expression::Column(name) => Expression::Column(name.clone()),
            Expression::Wildcard => Expression::Wildcard,
            Expression::Number(text) => Expression::Number(text.clone()),
            Expression::Text(text) => Expression::Text(text.clone()),
            Expression::Boolean(b) => Expression::Boolean(*b),
            Expression::Null => Expression::Null,
            Expression::Binary { left, op, right } => Expression::Binary {
                left: Box::new(left.duplicate()),
                op: *op,
                right: Box::new(right.duplicate()),
            },
            Expression::IsNull(inner) => Expression::IsNull(Box::new(inner.duplicate())),
            Expression::IsNotNull(inner) => Expression::IsNotNull(Box::new(inner.duplicate())),
            Expression::Alias { expr, name } => Expression::Alias {
                expr: Box::new(expr.duplicate()),
                name: name.clone(),
            },
            Expression::Subquery => Expression::Subquery,
            Expression::Unsupported => Expression::Unsupported,
        }
    }
}

impl Clone for Expression {
    fn clone(&self) -> (r: Expression)
        ensures
            r@ == self@,
    {
        self.duplicate()
    }
}

/// An expression that holds a subquery anywhere is never supported.
pub proof fn subquery_is_never_supported(e: ExpressionView)
    requires
        e.has_subquery(),
    ensures
        !e.supported(),
    decreases e,
{
    match e {
        ExpressionView::Binary { left, op, right } => {
            if left.has_subquery() {
                subquery_is_never_supported(*left);
            } else {
                subquery_is_never_supported(*right);
            }
        },
        ExpressionView::IsNull(inner) => subquery_is_never_supported(*inner),
        ExpressionView::IsNotNull(inner) => subquery_is_never_supported(*inner),
        ExpressionView::Alias { expr, name } => subquery_is_never_supported(*expr),
        _ => {},
    }
}

} // verus!
