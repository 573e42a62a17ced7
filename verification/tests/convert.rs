use queryer::expression::{Expression, Operator, Rejection};
use queryer::query::{convert, ordering, parse_count, row_count, selected, source_name, OrderBy, Sql};
use queryer::statement::{OrderKey, ParsedStatement, Relation, SelectStatement, TableRef};

fn table(name: &str) -> TableRef {
    TableRef { relation: Relation::Table(vec![name.to_string()]), joins: 0 }
}

fn column(name: &str) -> Expression {
    Expression::Column(name.to_string())
}

fn number(digits: &str) -> Expression {
    Expression::Number(digits.to_string())
}

fn select_all_from(name: &str) -> SelectStatement {
    SelectStatement {
        projection: vec![Expression::Wildcard],
        from: vec![table(name)],
        selection: None,
        order_by: vec![],
        limit: None,
        offset: None,
        extra_clauses: false,
    }
}

fn rejection(select: SelectStatement) -> Rejection {
    convert(&ParsedStatement::Select(select)).unwrap_err()
}

#[test]
fn source_is_the_from_identifier() {
    let query = convert(&ParsedStatement::Select(select_all_from("data/People.csv"))).unwrap();
    assert_eq!(
        query,
        Sql {
            source: "data/People.csv".to_string(),
            condition: None,
            selection: vec![Expression::Wildcard],
            offset: None,
            limit: None,
            order_by: vec![],
        }
    );
}

#[test]
fn every_clause_is_carried_over() {
    let predicate = Expression::Binary {
        left: Box::new(column("score")),
        op: Operator::Gt,
        right: Box::new(number("50")),
    };
    let select = SelectStatement {
        projection: vec![
            column("b"),
            Expression::Alias { expr: Box::new(column("a")), name: "first".to_string() },
        ],
        from: vec![table("https://example.org/x.csv")],
        selection: Some(predicate.clone()),
        order_by: vec![
            OrderKey { expr: column("a"), ascending: None },
            OrderKey { expr: column("b"), ascending: Some(false) },
            OrderKey { expr: column("c"), ascending: Some(true) },
        ],
        limit: Some(number("3")),
        offset: Some(number("2")),
        extra_clauses: false,
    };
    let query = convert(&ParsedStatement::Select(select)).unwrap();
    assert_eq!(query.source, "https://example.org/x.csv");
    assert_eq!(query.condition, Some(predicate));
    assert_eq!(
        query.selection,
        vec![
            column("b"),
            Expression::Alias { expr: Box::new(column("a")), name: "first".to_string() },
        ]
    );
    assert_eq!(
        query.order_by,
        vec![
            OrderBy { column: "a".to_string(), descending: false },
            OrderBy { column: "b".to_string(), descending: true },
            OrderBy { column: "c".to_string(), descending: false },
        ]
    );
    assert_eq!(query.limit, Some(3));
    assert_eq!(query.offset, Some(2));
}

#[test]
fn empty_projection_selects_every_column() {
    let mut select = select_all_from("t");
    select.projection = vec![];
    let query = convert(&ParsedStatement::Select(select)).unwrap();
    assert_eq!(query.selection, vec![Expression::Wildcard]);
    assert_eq!(selected(&vec![]), Ok(vec![Expression::Wildcard]));
}

#[test]
fn absent_limit_and_offset_stay_empty() {
    let mut select = select_all_from("t");
    select.limit = Some(number("0"));
    let query = convert(&ParsedStatement::Select(select)).unwrap();
    assert_eq!(query.limit, Some(0));
    assert_eq!(query.offset, None);
    assert_eq!(row_count(&None, Rejection::Limit), Ok(None));
}

#[test]
fn other_statements_are_rejected() {
    assert_eq!(convert(&ParsedStatement::Other), Err(Rejection::NotSelect));
    assert_eq!(convert(&ParsedStatement::Subquery), Err(Rejection::Subquery));
}

#[test]
fn extra_clause_is_rejected() {
    let mut select = select_all_from("t");
    select.extra_clauses = true;
    assert_eq!(rejection(select), Rejection::ExtraClause);
}

#[test]
fn sources_are_counted() {
    let mut select = select_all_from("t");
    select.from = vec![];
    assert_eq!(rejection(select), Rejection::NoSource);
    let mut select = select_all_from("t");
    select.from.push(table("u"));
    assert_eq!(rejection(select), Rejection::MultipleSources);
    assert_eq!(source_name(&vec![table("only")]), Ok("only".to_string()));
}

#[test]
fn join_is_rejected() {
    let mut select = select_all_from("a");
    select.from[0].joins = 1;
    assert_eq!(rejection(select), Rejection::Join);
}

#[test]
fn source_must_be_a_plain_table() {
    let mut select = select_all_from("t");
    select.from[0].relation = Relation::Derived;
    assert_eq!(rejection(select), Rejection::Subquery);
    let mut select = select_all_from("t");
    select.from[0].relation = Relation::Other;
    assert_eq!(rejection(select), Rejection::NotTable);
    let mut select = select_all_from("t");
    select.from[0].relation = Relation::Table(vec!["db".to_string(), "t".to_string()]);
    assert_eq!(rejection(select), Rejection::QualifiedSource);
    let mut select = select_all_from("t");
    select.from[0].relation = Relation::Table(vec![]);
    assert_eq!(rejection(select), Rejection::QualifiedSource);
}

#[test]
fn faults_are_found_left_to_right() {
    let both = Expression::Binary {
        left: Box::new(Expression::IsNull(Box::new(Expression::Unsupported))),
        op: Operator::And,
        right: Box::new(Expression::Subquery),
    };
    assert_eq!(both.find_fault(), Some(Rejection::Expression));
    let mut select = select_all_from("t");
    select.selection = Some(both);
    assert_eq!(rejection(select), Rejection::Expression);
    let mut select = select_all_from("t");
    select.selection = Some(Expression::IsNotNull(Box::new(Expression::Subquery)));
    assert_eq!(rejection(select), Rejection::Subquery);
    let mut select = select_all_from("t");
    select.projection = vec![column("a"), Expression::Subquery, Expression::Unsupported];
    assert_eq!(rejection(select), Rejection::Subquery);
    assert_eq!(column("a").find_fault(), None);
}

#[test]
fn predicate_is_checked_before_the_projection() {
    let mut select = select_all_from("t");
    select.selection = Some(Expression::Unsupported);
    select.projection = vec![Expression::Subquery];
    assert_eq!(rejection(select), Rejection::Expression);
}

#[test]
fn sort_keys_must_be_columns() {
    let mut select = select_all_from("t");
    select.order_by = vec![
        OrderKey { expr: column("a"), ascending: None },
        OrderKey { expr: number("1"), ascending: None },
    ];
    assert_eq!(rejection(select), Rejection::OrderKey);
    assert_eq!(ordering(&vec![]), Ok(vec![]));
}

#[test]
fn limit_and_offset_must_be_row_counts() {
    let mut select = select_all_from("t");
    select.limit = Some(column("n"));
    assert_eq!(rejection(select), Rejection::Limit);
    let mut select = select_all_from("t");
    select.limit = Some(number("1.5"));
    assert_eq!(rejection(select), Rejection::Limit);
    let mut select = select_all_from("t");
    select.offset = Some(number("1e3"));
    assert_eq!(rejection(select), Rejection::Offset);
    let mut select = select_all_from("t");
    select.limit = Some(number("x"));
    select.offset = Some(number("y"));
    assert_eq!(rejection(select), Rejection::Limit);
}

#[test]
fn row_counts_are_decimal() {
    assert_eq!(parse_count("0"), Some(0));
    assert_eq!(parse_count("42"), Some(42));
    assert_eq!(parse_count("007"), Some(7));
    assert_eq!(parse_count(""), None);
    assert_eq!(parse_count("-1"), None);
    assert_eq!(parse_count("+1"), None);
    assert_eq!(parse_count("1 "), None);
    assert_eq!(parse_count("١"), None);
}

#[test]
fn row_counts_fit_the_machine_word() {
    assert_eq!(parse_count(&usize::MAX.to_string()), Some(usize::MAX));
    assert_eq!(parse_count(&format!("{}0", usize::MAX)), None);
    assert_eq!(parse_count(&(usize::MAX as u128 + 1).to_string()), None);
    assert_eq!(parse_count("99999999999999999999999999"), None);
}

#[test]
fn copies_are_equal() {
    let e = Expression::Alias {
        expr: Box::new(Expression::Binary {
            left: Box::new(Expression::Text("x".to_string())),
            op: Operator::NotEq,
            right: Box::new(Expression::Boolean(true)),
        }),
        name: "n".to_string(),
    };
    assert_eq!(e.duplicate(), e);
    assert_eq!(e.clone(), e);
    assert_eq!(Expression::Null.duplicate(), Expression::Null);
}
