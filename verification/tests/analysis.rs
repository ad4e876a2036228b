use expr_ir::BinaryOperator;
use expr_ir::ColumnName;
use expr_ir::DataType;
use expr_ir::Expression;
use expr_ir::Scalar;
use expr_ir::UnaryOperator;

fn col(path: &[&str]) -> Expression {
    Expression::column(path.iter().map(|s| s.to_string()).collect())
}

fn lit(i: i64) -> Expression {
    Expression::literal(Scalar::Integer(i))
}

fn rendered_references(e: &Expression) -> Vec<String> {
    let mut names: Vec<String> = e.references().iter().map(|c| c.render()).collect();
    names.sort();
    names
}

#[test]
fn references_without_columns_is_empty() {
    let e = Expression::binary(BinaryOperator::Plus, lit(1), lit(2));
    assert!(e.references().is_empty());
    let e = Expression::struct_from(vec![lit(3), Expression::null_literal(DataType::Integer)]);
    assert!(e.references().is_empty());
}

#[test]
fn references_deduplicates_repeated_columns() {
    let e = col(&["x"]).gt_eq(lit(2)).and(col(&["x"]).lt_eq(lit(10)));
    let refs = e.references();
    assert_eq!(refs.len(), 1);
    assert_eq!(refs[0].render(), "x");
}

#[test]
fn references_aggregates_across_depths() {
    let e = Expression::struct_from(vec![
        col(&["a"]),
        Expression::struct_from(vec![col(&["b", "c"])]),
        col(&["a"]).or(Expression::unary(
            UnaryOperator::Not,
            col(&["d"]).is_null(),
        )),
    ]);
    assert_eq!(rendered_references(&e), vec!["a", "b.c", "d"]);
}

#[test]
fn walk_visits_every_node_once() {
    // AND node, two comparison nodes, two column leaves, two literal
    // leaves: seven nodes in all.
    let e = col(&["x"]).gt_eq(lit(2)).and(col(&["x"]).lt_eq(lit(10)));
    assert_eq!(e.walk().len(), 7);
    // A single leaf is a one-node tree.
    assert_eq!(lit(5).walk().len(), 1);
}

#[test]
fn walk_starts_at_the_root() {
    let e = col(&["x"]).gt(lit(2)).or(col(&["y"]).lt(lit(3)));
    let visited = e.walk();
    assert_eq!(visited.len(), 7);
    assert!(matches!(
        visited[0],
        Expression::VariadicOperation { .. }
    ));
}

#[test]
fn shared_handles_read_the_same_tree() {
    let handle: expr_ir::ExpressionRef = col(&["x"]).eq(lit(2)).into_ref();
    let other = handle.clone();
    assert_eq!(handle.render(), "Column(x) = 2");
    assert_eq!(other.render(), "Column(x) = 2");
}

#[test]
fn column_name_equality_is_over_the_full_path() {
    let a = ColumnName::new(vec!["a".to_string(), "b".to_string()]);
    let b = ColumnName::new(vec!["a".to_string(), "b".to_string()]);
    let c = ColumnName::new(vec!["a".to_string()]);
    assert!(a.path_eq(&b));
    assert!(!a.path_eq(&c));
    assert_eq!(a.render(), "a.b");
}
