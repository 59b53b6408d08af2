use spark_connect::expression::LiteralExpression;
use spark_connect::column::{col, lit};
use spark_connect::expression::Expression;
use spark_connect::types::DataType;

#[test]
fn test_col_creation() {
    let c = col("x");
    assert!(matches!(c.expr, Expression::ColumnReference(_)));
}

#[test]
fn test_lit_creation() {
    let c = lit(42);
    assert!(matches!(c.expr, Expression::Literal(_)));
}

#[test]
fn test_addition() {
    let c1 = col("a");
    let c2 = lit(1);
    let result = c1.add(c2);
    assert!(matches!(result.expr, Expression::UnresolvedFunction(_)));
}

#[test]
fn test_alias() {
    let c = col("x");
    let aliased = c.alias("y");
    assert!(matches!(aliased.expr, Expression::Alias(_)));
}

#[test]
fn test_cast() {
    let c = col("x");
    let casted = c.cast(DataType::String {
        collation: "UTF8_BINARY".to_string(),
    });
    assert!(matches!(casted.expr, Expression::Cast(_)));
}

#[test]
fn lit_picks_integer_or_long_by_range() {
    assert!(matches!(lit(1).expr, Expression::Literal(LiteralExpression::Integer(1))));
    assert!(matches!(
        lit(5_000_000_000).expr,
        Expression::Literal(LiteralExpression::Long(5_000_000_000))
    ));
}

#[test]
fn when_otherwise_builds_one_case_expression() {
    let c = spark_connect::column::when(col("a").gt(lit(1)), lit(10))
        .when(col("a").lt(lit(0)), lit(20))
        .otherwise(lit(30));
    match c.expr {
        Expression::CaseWhen(cw) => {
            assert_eq!(cw.branches.len(), 2);
            assert!(cw.else_expr.is_some());
        }
        _ => panic!("expected a CASE WHEN"),
    }
}
