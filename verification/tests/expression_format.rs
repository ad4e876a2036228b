use expr_ir::BinaryOperator;
use expr_ir::Expression;
use expr_ir::Scalar;

fn col_x() -> Expression {
    Expression::column(vec!["x".to_string()])
}

fn lit(i: i64) -> Expression {
    Expression::literal(Scalar::Integer(i))
}

#[test]
fn test_expression_format() {
    let cases = [
        (col_x(), "Column(x)"),
        (col_x().eq(lit(2)), "Column(x) = 2"),
        (
            Expression::binary(BinaryOperator::Minus, col_x(), lit(4)).lt(lit(10)),
            "Column(x) - 4 < 10",
        ),
        (
            Expression::binary(
                BinaryOperator::Multiply,
                Expression::binary(
                    BinaryOperator::Divide,
                    Expression::binary(BinaryOperator::Plus, col_x(), lit(4)),
                    lit(10),
                ),
                lit(42),
            ),
            "Column(x) + 4 / 10 * 42",
        ),
        (
            col_x().gt_eq(lit(2)).and(col_x().lt_eq(lit(10))),
            "AND(Column(x) >= 2, Column(x) <= 10)",
        ),
        (
            Expression::and_from(vec![
                col_x().gt_eq(lit(2)),
                col_x().lt_eq(lit(10)),
                col_x().lt_eq(lit(100)),
            ]),
            "AND(Column(x) >= 2, Column(x) <= 10, Column(x) <= 100)",
        ),
        (
            col_x().gt(lit(2)).or(col_x().lt(lit(10))),
            "OR(Column(x) > 2, Column(x) < 10)",
        ),
        (
            col_x().eq(Expression::literal(Scalar::String("foo".to_string()))),
            "Column(x) = 'foo'",
        ),
    ];

    for (expr, expected) in cases {
        let result = expr.render();
        assert_eq!(result, expected);
    }
}
