use expr_ir::DataType;
use expr_ir::Expression;
use expr_ir::Scalar;
use expr_ir::UnaryOperator;
use expr_ir::VariadicOperator;

fn col_x() -> Expression {
    Expression::column(vec!["x".to_string()])
}

fn lit(i: i64) -> Expression {
    Expression::literal(Scalar::Integer(i))
}

#[test]
fn rendering_is_deterministic() {
    let first = col_x().gt_eq(lit(2)).and(col_x().lt_eq(lit(10))).render();
    let second = col_x().gt_eq(lit(2)).and(col_x().lt_eq(lit(10))).render();
    assert_eq!(first, second);
}

#[test]
fn scalar_literals_render() {
    assert_eq!(lit(0).render(), "0");
    assert_eq!(lit(-42).render(), "-42");
    assert_eq!(Expression::literal(Scalar::Boolean(true)).render(), "true");
    assert_eq!(
        Expression::literal(Scalar::Boolean(false)).render(),
        "false"
    );
    assert_eq!(
        Expression::literal(Scalar::String("foo".to_string())).render(),
        "'foo'"
    );
    assert_eq!(
        Expression::null_literal(DataType::Boolean).render(),
        "null"
    );
}

#[test]
fn nested_column_paths_render_dotted() {
    let e = Expression::column(vec!["a".to_string(), "b".to_string()]);
    assert_eq!(e.render(), "Column(a.b)");
}

#[test]
fn distinct_renders_as_a_call() {
    assert_eq!(col_x().distinct(lit(2)).render(), "DISTINCT(Column(x), 2)");
}

#[test]
fn null_tests_render_prefix_and_postfix() {
    assert_eq!(col_x().is_null().render(), "Column(x) IS NULL");
    assert_eq!(col_x().is_not_null().render(), "NOT Column(x) IS NULL");
    assert_eq!(
        Expression::unary(UnaryOperator::Not, col_x()).render(),
        "NOT Column(x)"
    );
}

#[test]
fn empty_child_sequences_render_as_empty_calls() {
    assert_eq!(Expression::and_from(vec![]).render(), "AND()");
    assert_eq!(Expression::or_from(vec![]).render(), "OR()");
    assert_eq!(Expression::struct_from(vec![]).render(), "Struct()");
}

#[test]
fn struct_children_render_in_positional_order() {
    let e = Expression::struct_from(vec![lit(1), col_x(), lit(3)]);
    assert_eq!(e.render(), "Struct(1, Column(x), 3)");
}

#[test]
fn variadic_renders_each_operand() {
    let e = Expression::variadic(VariadicOperator::Or, vec![lit(1)]);
    assert_eq!(e.render(), "OR(1)");
}
