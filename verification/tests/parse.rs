use queryer::error::QueryError;
use queryer::expression::{Expression, Operator, Rejection};
use queryer::parse::{any_nonzero, statements, table_name, MAX_DEPTH};
use queryer::pipeline::{prepare, single};
use queryer::statement::{OrderKey, ParsedStatement, Relation, SelectStatement, TableRef};

fn one(sql: &str) -> ParsedStatement {
    let mut read = statements(sql).unwrap();
    assert_eq!(read.len(), 1);
    read.remove(0)
}

fn select(sql: &str) -> SelectStatement {
    match one(sql) {
        ParsedStatement::Select(select) => select,
        other => panic!("not a select: {other:?}"),
    }
}

fn column(name: &str) -> Expression {
    Expression::Column(name.to_string())
}

fn unsupported(sql: &str) -> Rejection {
    match prepare(sql) {
        Err(QueryError::Unsupported(why)) => why,
        other => panic!("not rejected: {other:?}"),
    }
}

#[test]
fn a_full_statement_is_read() {
    let read = select("SELECT b, a AS first FROM t WHERE a >= 1 AND b IS NOT NULL ORDER BY a, b DESC, c ASC LIMIT 3 OFFSET 2");
    let expected = SelectStatement {
        projection: vec![
            column("b"),
            Expression::Alias { expr: Box::new(column("a")), name: "first".to_string() },
        ],
        from: vec![TableRef { relation: Relation::Table(vec!["t".to_string()]), joins: 0 }],
        selection: Some(Expression::Binary {
            left: Box::new(Expression::Binary {
                left: Box::new(column("a")),
                op: Operator::GtEq,
                right: Box::new(Expression::Number("1".to_string())),
            }),
            op: Operator::And,
            right: Box::new(Expression::IsNotNull(Box::new(column("b")))),
        }),
        order_by: vec![
            OrderKey { expr: column("a"), ascending: None },
            OrderKey { expr: column("b"), ascending: Some(false) },
            OrderKey { expr: column("c"), ascending: Some(true) },
        ],
        limit: Some(Expression::Number("3".to_string())),
        offset: Some(Expression::Number("2".to_string())),
        extra_clauses: false,
    };
    assert_eq!(read, expected);
}

#[test]
fn literals_are_read() {
    let read = select("SELECT * FROM t WHERE a = 'it''s' OR b = true OR c = NULL OR d = 1.5");
    let mut found = vec![];
    let mut rest = read.selection.unwrap();
    loop {
        match rest {
            Expression::Binary { left, op: Operator::Or, right } => {
                found.push(*right);
                rest = *left;
            }
            last => {
                found.push(last);
                break;
            }
        }
    }
    let literal = |e: &Expression| match e {
        Expression::Binary { op: Operator::Eq, right, .. } => (**right).clone(),
        other => panic!("{other:?}"),
    };
    assert_eq!(literal(&found[0]), Expression::Number("1.5".to_string()));
    assert_eq!(literal(&found[1]), Expression::Null);
    assert_eq!(literal(&found[2]), Expression::Boolean(true));
    assert_eq!(literal(&found[3]), Expression::Text("it's".to_string()));
    assert_eq!(read.projection, vec![Expression::Wildcard]);
}

#[test]
fn each_operator_is_read() {
    let cases = [
        ("+", Operator::Plus),
        ("-", Operator::Minus),
        ("*", Operator::Multiply),
        ("/", Operator::Divide),
        ("%", Operator::Modulo),
        (">", Operator::Gt),
        ("<", Operator::Lt),
        (">=", Operator::GtEq),
        ("<=", Operator::LtEq),
        ("=", Operator::Eq),
        ("<>", Operator::NotEq),
        ("!=", Operator::NotEq),
        ("AND", Operator::And),
        ("OR", Operator::Or),
    ];
    for (text, op) in cases {
        let read = select(&format!("SELECT * FROM t WHERE a {text} b"));
        assert_eq!(
            read.selection,
            Some(Expression::Binary { left: Box::new(column("a")), op, right: Box::new(column("b")) }),
            "{text}"
        );
    }
    let read = select("SELECT * FROM t WHERE a || b");
    assert_eq!(read.selection, Some(Expression::Unsupported));
}

#[test]
fn parentheses_leave_the_operands() {
    let read = select("SELECT * FROM t WHERE (a) IS NULL");
    assert_eq!(read.selection, Some(Expression::IsNull(Box::new(column("a")))));
    let read = select("SELECT * FROM t WHERE a * (b + c) > 0");
    let product = Expression::Binary {
        left: Box::new(column("a")),
        op: Operator::Multiply,
        right: Box::new(Expression::Binary {
            left: Box::new(column("b")),
            op: Operator::Plus,
            right: Box::new(column("c")),
        }),
    };
    assert_eq!(
        read.selection,
        Some(Expression::Binary {
            left: Box::new(product),
            op: Operator::Gt,
            right: Box::new(Expression::Number("0".to_string())),
        })
    );
}

#[test]
fn source_keeps_its_case_and_loses_its_quotes() {
    assert_eq!(prepare("SELECT a FROM Data/People.CSV").unwrap().source, "Data/People.CSV");
    assert_eq!(prepare("SELECT a FROM \"my file.csv\"").unwrap().source, "my file.csv");
    assert_eq!(
        prepare("SELECT a FROM file:///tmp/x-1_y.csv?a=1&b=2").unwrap().source,
        "file:///tmp/x-1_y.csv?a=1&b=2"
    );
    assert_eq!(prepare("select a from t as alias").unwrap().source, "t");
}

#[test]
fn statements_are_counted() {
    assert_eq!(statements("").unwrap().len(), 0);
    assert_eq!(prepare(""), Err(QueryError::StatementCount(0)));
    assert_eq!(statements("SELECT a FROM t; SELECT b FROM u; SELECT c FROM v").unwrap().len(), 3);
    assert_eq!(prepare("SELECT a FROM t; SELECT b FROM u; SELECT c FROM v"), Err(QueryError::StatementCount(3)));
    assert_eq!(single(&vec![]), Err(QueryError::StatementCount(0)));
    assert_eq!(
        single(&vec![ParsedStatement::Other, ParsedStatement::Other]),
        Err(QueryError::StatementCount(2))
    );
    assert_eq!(single(&vec![ParsedStatement::Other]), Err(QueryError::Unsupported(Rejection::NotSelect)));
    assert!(prepare("SELECT a FROM t;").is_ok());
}

#[test]
fn syntax_errors_carry_the_parsers_message() {
    match prepare("SELECT a FROM") {
        Err(QueryError::Syntax(message)) => assert!(message.starts_with("sql parser error: "), "{message}"),
        other => panic!("{other:?}"),
    }
    assert!(matches!(prepare("SELEC a FROM t"), Err(QueryError::Syntax(_))));
    assert!(matches!(prepare("SELECT a FROM t WHERE"), Err(QueryError::Syntax(_))));
    assert!(matches!(prepare("SELECT 'open FROM t"), Err(QueryError::Syntax(_))));
    assert!(statements("SELECT a FROM").is_err());
}

#[test]
fn statements_that_are_no_select_are_rejected() {
    assert_eq!(one("INSERT INTO t VALUES (1)"), ParsedStatement::Other);
    assert_eq!(one("DROP TABLE t"), ParsedStatement::Other);
    assert_eq!(one("SELECT a FROM t UNION SELECT a FROM u"), ParsedStatement::Other);
    assert_eq!(one("VALUES (1)"), ParsedStatement::Other);
    assert_eq!(unsupported("UPDATE t SET a = 1"), Rejection::NotSelect);
    assert_eq!(unsupported("DELETE FROM t"), Rejection::NotSelect);
    assert_eq!(unsupported("SELECT a FROM t UNION SELECT a FROM u"), Rejection::NotSelect);
}

#[test]
fn subqueries_are_rejected_wherever_they_stand() {
    assert_eq!(one("(SELECT a FROM t)"), ParsedStatement::Subquery);
    assert_eq!(unsupported("(SELECT a FROM t)"), Rejection::Subquery);
    assert_eq!(unsupported("SELECT a FROM (SELECT a FROM t)"), Rejection::Subquery);
    assert_eq!(unsupported("SELECT a FROM (SELECT a FROM t) AS s"), Rejection::Subquery);
    assert_eq!(unsupported("SELECT (SELECT 1) FROM t"), Rejection::Subquery);
    assert_eq!(unsupported("SELECT a FROM t WHERE a = (SELECT 1)"), Rejection::Subquery);
    assert_eq!(unsupported("SELECT a FROM t WHERE a IN (SELECT b FROM u)"), Rejection::Subquery);
    assert_eq!(unsupported("SELECT a FROM t WHERE EXISTS (SELECT b FROM u)"), Rejection::Subquery);
    assert_eq!(unsupported("SELECT a FROM t WHERE b > 1 AND a IN (SELECT b FROM u)"), Rejection::Subquery);
}

#[test]
fn joins_and_several_sources_are_rejected() {
    let read = select("SELECT a FROM t JOIN u ON t.id = u.id LEFT JOIN v ON u.id = v.id");
    assert_eq!(read.from.len(), 1);
    assert_eq!(read.from[0].joins, 2);
    assert_eq!(unsupported("SELECT a FROM t JOIN u ON t.id = u.id"), Rejection::Join);
    assert_eq!(unsupported("SELECT a FROM t CROSS JOIN u"), Rejection::Join);
    assert_eq!(unsupported("SELECT a FROM t NATURAL JOIN u"), Rejection::Join);
    assert_eq!(unsupported("SELECT a FROM t, u"), Rejection::MultipleSources);
    assert_eq!(unsupported("SELECT 1"), Rejection::NoSource);
}

#[test]
fn sources_that_are_no_plain_name_are_rejected() {
    assert_eq!(unsupported("SELECT a FROM \"db\".\"t\""), Rejection::QualifiedSource);
    assert_eq!(unsupported("SELECT a FROM f(1)"), Rejection::NotTable);
}

#[test]
fn clauses_outside_the_shape_are_rejected() {
    for sql in [
        "SELECT DISTINCT a FROM t",
        "SELECT a FROM t GROUP BY a",
        "SELECT a FROM t GROUP BY a HAVING a > 1",
        "SELECT a FROM t HAVING a > 1",
        "WITH c AS (SELECT 1) SELECT a FROM t",
        "SELECT a FROM t FETCH FIRST 2 ROWS ONLY",
        "SELECT a FROM t FOR UPDATE",
        "SELECT a INTO u FROM t",
    ] {
        assert!(select(sql).extra_clauses, "{sql}");
        assert_eq!(unsupported(sql), Rejection::ExtraClause, "{sql}");
    }
    assert!(!select("SELECT a FROM t WHERE a > 1 ORDER BY a LIMIT 1 OFFSET 1").extra_clauses);
}

#[test]
fn unsupported_expressions_are_rejected() {
    assert_eq!(unsupported("SELECT count(a) FROM t"), Rejection::Expression);
    assert_eq!(unsupported("SELECT a FROM t WHERE a LIKE 'x%'"), Rejection::Expression);
    assert_eq!(unsupported("SELECT a FROM t WHERE NOT a"), Rejection::Expression);
    assert_eq!(unsupported("SELECT a FROM t WHERE a BETWEEN 1 AND 2"), Rejection::Expression);
    assert_eq!(unsupported("SELECT a FROM t WHERE a IN (1, 2)"), Rejection::Expression);
    assert_eq!(unsupported("SELECT a FROM t WHERE a || b = 'x'"), Rejection::Expression);
    assert_eq!(unsupported("SELECT \"t\".\"a\" FROM t"), Rejection::Expression);
    assert_eq!(unsupported("SELECT CASE WHEN a THEN 1 ELSE 2 END FROM t"), Rejection::Expression);
}

#[test]
fn sort_keys_and_row_counts_are_checked() {
    assert_eq!(unsupported("SELECT a FROM t ORDER BY a + 1"), Rejection::OrderKey);
    assert_eq!(unsupported("SELECT a FROM t ORDER BY 1"), Rejection::OrderKey);
    assert_eq!(unsupported("SELECT a FROM t LIMIT n"), Rejection::Limit);
    assert_eq!(unsupported("SELECT a FROM t LIMIT -1"), Rejection::Limit);
    assert_eq!(unsupported("SELECT a FROM t LIMIT 1.5"), Rejection::Limit);
    assert_eq!(unsupported("SELECT a FROM t LIMIT 1 OFFSET 'x'"), Rejection::Offset);
    assert_eq!(unsupported("SELECT a FROM t LIMIT 99999999999999999999999"), Rejection::Limit);
    let query = prepare("SELECT a FROM t OFFSET 7").unwrap();
    assert_eq!((query.limit, query.offset), (None, Some(7)));
    let query = prepare("SELECT a FROM t LIMIT 7").unwrap();
    assert_eq!((query.limit, query.offset), (Some(7), None));
}

#[test]
fn expressions_are_read_to_a_depth() {
    let sum = |terms: usize| format!("SELECT a FROM t WHERE {} > 0", vec!["a"; terms].join(" + "));
    assert!(prepare(&sum(MAX_DEPTH - 1)).is_ok());
    assert_eq!(unsupported(&sum(MAX_DEPTH + 1)), Rejection::Expression);
}

#[test]
fn any_count_above_zero_is_found() {
    assert!(!any_nonzero(&vec![]));
    assert!(!any_nonzero(&vec![0, 0]));
    assert!(any_nonzero(&vec![0, 2, 0]));
    assert!(any_nonzero(&vec![1]));
}

#[test]
fn table_names_are_made_of_identifiers() {
    assert_eq!(table_name(&vec![]), Some(vec![]));
    assert_eq!(
        table_name(&vec![Some("a".to_string()), Some("b".to_string()), Some("c".to_string())]),
        Some(vec!["a".to_string(), "b".to_string(), "c".to_string()])
    );
    assert_eq!(table_name(&vec![Some("a".to_string()), None]), None);
    assert_eq!(table_name(&vec![None]), None);
}

#[test]
fn options_outside_the_shape_are_rejected() {
    assert_eq!(unsupported("SELECT a FROM t ORDER BY a NULLS LAST"), Rejection::OrderKey);
    assert_eq!(unsupported("SELECT a FROM t ORDER BY a DESC NULLS FIRST"), Rejection::OrderKey);
    assert_eq!(unsupported("SELECT a FROM t TABLESAMPLE (10)"), Rejection::NotTable);
}
