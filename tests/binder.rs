use portal_binder::binder::{BindError, PlaceholderValue, StatementBinder};
use portal_binder::convert::ConvertError;
use portal_binder::tree::{StatementNode, ValueNode};
use sqlparser::dialect::PostgreSqlDialect;
use sqlparser::parser::Parser;

fn parse(input: &str) -> StatementNode {
    let stmts = Parser::parse_sql(&PostgreSqlDialect {}, input).unwrap();
    match StatementNode::from_ast(stmts[0].clone()) {
        Ok(s) => s,
        Err(_) => panic!("statement nests too deeply"),
    }
}

fn bind_text(input: &str, values: Vec<PlaceholderValue>) -> Result<String, BindError> {
    let mut stmt = parse(input);
    let mut binder = StatementBinder::new(values);
    binder.bind(&mut stmt)?;
    Ok(stmt.into_ast().to_string())
}

fn test_binder(input: &str, output: &str, values: Vec<PlaceholderValue>) {
    match bind_text(input, values) {
        Ok(text) => assert_eq!(text, output),
        Err(_) => panic!("bind failed"),
    }
}

fn text_of(input: &str) -> String {
    parse(input).into_ast().to_string()
}

#[test]
fn test_binder_named() {
    test_binder(
        r#"
            SELECT *
            FROM testdata
            WHERE fieldA = $1 AND fieldB = $2
        "#,
        "SELECT * FROM testdata WHERE fieldA = 'test' AND fieldB = 1",
        vec![
            PlaceholderValue::String("test".to_string()),
            PlaceholderValue::Int64(1),
        ],
    );

    test_binder(
        r#"
            SELECT *
            FROM testdata
            WHERE fieldA = $1 OR fieldB = $2
        "#,
        "SELECT * FROM testdata WHERE fieldA = 'test1' OR fieldB = 'test2'",
        vec![
            PlaceholderValue::String("test1".to_string()),
            PlaceholderValue::String("test2".to_string()),
        ],
    );

    test_binder(
        r#"
            SELECT *
            FROM testdata
            WHERE fieldA BETWEEN $1 AND $2
        "#,
        "SELECT * FROM testdata WHERE fieldA BETWEEN 'test1' AND 'test2'",
        vec![
            PlaceholderValue::String("test1".to_string()),
            PlaceholderValue::String("test2".to_string()),
        ],
    );

    test_binder(
        r#"
            SELECT *
            FROM testdata
            WHERE fieldA = $1
            UNION ALL
            SELECT *
            FROM testdata
            WHERE fieldA = $2
        "#,
        "SELECT * FROM testdata WHERE fieldA = 'test1' UNION ALL SELECT * FROM testdata WHERE fieldA = 'test2'",
        vec![
            PlaceholderValue::String("test1".to_string()),
            PlaceholderValue::String("test2".to_string()),
        ],
    );

    test_binder(
        r#"
            SELECT * FROM (
                SELECT *
                FROM testdata
                WHERE fieldA = $1
            )
        "#,
        "SELECT * FROM (SELECT * FROM testdata WHERE fieldA = 'test1')",
        vec![PlaceholderValue::String("test1".to_string())],
    );
}

#[test]
fn fewer_values_than_placeholders_is_refused() {
    let input = "SELECT * FROM testdata WHERE fieldA = $1 AND fieldB = $2";
    let mut stmt = parse(input);
    let mut binder = StatementBinder::new(vec![PlaceholderValue::String("test".to_string())]);
    let r = binder.bind(&mut stmt);
    assert!(matches!(r, Err(BindError::InsufficientParameters)));
    assert_eq!(stmt.into_ast().to_string(), text_of(input));
}

#[test]
fn no_values_for_one_placeholder_is_refused() {
    let r = bind_text("SELECT * FROM t WHERE a = $1", vec![]);
    assert!(matches!(r, Err(BindError::InsufficientParameters)));
}

#[test]
fn more_values_than_placeholders_is_refused() {
    let input = "SELECT * FROM testdata WHERE fieldA = $1";
    let mut stmt = parse(input);
    let mut binder = StatementBinder::new(vec![
        PlaceholderValue::String("test1".to_string()),
        PlaceholderValue::String("test2".to_string()),
    ]);
    let r = binder.bind(&mut stmt);
    assert!(matches!(r, Err(BindError::ExcessParameters)));
    assert_eq!(stmt.into_ast().to_string(), text_of(input));
}

#[test]
fn statement_without_placeholders_binds_no_values() {
    let input = "SELECT a, b FROM t WHERE a = 'x' ORDER BY b LIMIT 3";
    let r = bind_text(input, vec![]);
    assert_eq!(r.ok(), Some(text_of(input)));
}

#[test]
fn other_statement_kinds_are_left_alone() {
    let input = "INSERT INTO t (a) VALUES ($1)";
    assert_eq!(bind_text(input, vec![]).ok(), Some(text_of(input)));
    let r = bind_text(input, vec![PlaceholderValue::Int64(1)]);
    assert!(matches!(r, Err(BindError::ExcessParameters)));
}

#[test]
fn placeholder_in_function_argument_is_not_discovered() {
    let r = bind_text("SELECT * FROM t WHERE f($1) = 1", vec![PlaceholderValue::Int64(1)]);
    assert!(matches!(r, Err(BindError::ExcessParameters)));
}

#[test]
fn between_binds_low_then_high() {
    test_binder(
        "SELECT * FROM t WHERE x BETWEEN $1 AND $2",
        "SELECT * FROM t WHERE x BETWEEN 3 AND 7",
        vec![PlaceholderValue::UInt64(3), PlaceholderValue::UInt64(7)],
    );
}

#[test]
fn binary_operands_bind_left_then_right() {
    test_binder(
        "SELECT * FROM t WHERE a = $2 OR b = $1",
        "SELECT * FROM t WHERE a = true OR b = false",
        vec![PlaceholderValue::Bool(true), PlaceholderValue::Bool(false)],
    );
}

#[test]
fn intersect_binds_left_branch_first() {
    test_binder(
        "SELECT a FROM t WHERE a = $1 INTERSECT SELECT a FROM u WHERE a = $2",
        "SELECT a FROM t WHERE a = 'l' INTERSECT SELECT a FROM u WHERE a = 'r'",
        vec![
            PlaceholderValue::String("l".to_string()),
            PlaceholderValue::String("r".to_string()),
        ],
    );
}

#[test]
fn where_clause_binds_before_joined_subquery() {
    test_binder(
        "SELECT * FROM a JOIN (SELECT * FROM b WHERE x = $2) AS s ON a.id = s.id WHERE a.y = $1",
        "SELECT * FROM a JOIN (SELECT * FROM b WHERE x = 'second') AS s ON a.id = s.id WHERE a.y = 'first'",
        vec![
            PlaceholderValue::String("first".to_string()),
            PlaceholderValue::String("second".to_string()),
        ],
    );
}

#[test]
fn nested_expression_is_entered() {
    test_binder(
        "SELECT * FROM t WHERE (a = $1)",
        "SELECT * FROM t WHERE (a = 42)",
        vec![PlaceholderValue::Int64(42)],
    );
}

#[test]
fn parenthesized_query_is_entered() {
    test_binder(
        "(SELECT * FROM t WHERE a = $1)",
        "(SELECT * FROM t WHERE a = 18446744073709551615)",
        vec![PlaceholderValue::UInt64(u64::MAX)],
    );
}

#[test]
fn negative_integer_is_a_flagged_number() {
    match PlaceholderValue::Int64(-5).to_literal() {
        ValueNode::Number(text, negative) => {
            assert_eq!(text, "-5");
            assert!(negative);
        }
        _ => panic!("not a number"),
    }
    match PlaceholderValue::Int64(i64::MIN).to_literal() {
        ValueNode::Number(text, negative) => {
            assert_eq!(text, "-9223372036854775808");
            assert!(negative);
        }
        _ => panic!("not a number"),
    }
}

#[test]
fn non_negative_integers_are_plain_numbers() {
    match PlaceholderValue::Int64(0).to_literal() {
        ValueNode::Number(text, negative) => {
            assert_eq!(text, "0");
            assert!(!negative);
        }
        _ => panic!("not a number"),
    }
    match PlaceholderValue::UInt64(1234).to_literal() {
        ValueNode::Number(text, negative) => {
            assert_eq!(text, "1234");
            assert!(!negative);
        }
        _ => panic!("not a number"),
    }
}

#[test]
fn strings_and_booleans_have_their_literal_forms() {
    match PlaceholderValue::String("it".to_string()).to_literal() {
        ValueNode::SingleQuotedString(s) => assert_eq!(s, "it"),
        _ => panic!("not a string"),
    }
    assert!(matches!(PlaceholderValue::Bool(true).to_literal(), ValueNode::Boolean(true)));
    assert!(matches!(PlaceholderValue::Bool(false).to_literal(), ValueNode::Boolean(false)));
}

#[test]
fn deep_statement_is_refused() {
    let stmts = Parser::parse_sql(&PostgreSqlDialect {}, "SELECT * FROM t WHERE a = ((($1)))").unwrap();
    let r = StatementNode::from_ast_with_depth(stmts[0].clone(), 4);
    assert!(matches!(r, Err(ConvertError::TooDeep)));
    let r = StatementNode::from_ast_with_depth(stmts[0].clone(), 0);
    assert!(matches!(r, Err(ConvertError::TooDeep)));
    assert!(StatementNode::from_ast(stmts[0].clone()).is_ok());
}

#[test]
fn round_trip_keeps_the_text() {
    for q in [
        "SELECT a FROM t AS x LEFT JOIN u ON x.a = u.a WHERE a IN (1, 2) GROUP BY a",
        "WITH c AS (SELECT 1) SELECT * FROM c ORDER BY 1 LIMIT 2 OFFSET 1",
        "SELECT * FROM t WHERE a = $1",
    ] {
        assert_eq!(text_of(q), Parser::parse_sql(&PostgreSqlDialect {}, q).unwrap()[0].to_string());
    }
}
