use expr_ir::BinaryOperator;
use expr_ir::VariadicOperator;

#[test]
fn commute_flips_ordered_comparisons() {
    assert_eq!(
        BinaryOperator::GreaterThan.commute(),
        Some(BinaryOperator::LessThan)
    );
    assert_eq!(
        BinaryOperator::GreaterThanOrEqual.commute(),
        Some(BinaryOperator::LessThanOrEqual)
    );
    assert_eq!(
        BinaryOperator::LessThan.commute(),
        Some(BinaryOperator::GreaterThan)
    );
    assert_eq!(
        BinaryOperator::LessThanOrEqual.commute(),
        Some(BinaryOperator::GreaterThanOrEqual)
    );
}

#[test]
fn commute_keeps_symmetric_operators() {
    assert_eq!(BinaryOperator::Equal.commute(), Some(BinaryOperator::Equal));
    assert_eq!(
        BinaryOperator::NotEqual.commute(),
        Some(BinaryOperator::NotEqual)
    );
    assert_eq!(
        BinaryOperator::Distinct.commute(),
        Some(BinaryOperator::Distinct)
    );
    assert_eq!(BinaryOperator::Plus.commute(), Some(BinaryOperator::Plus));
    assert_eq!(
        BinaryOperator::Multiply.commute(),
        Some(BinaryOperator::Multiply)
    );
}

#[test]
fn commute_is_absent_for_asymmetric_operators() {
    assert_eq!(BinaryOperator::In.commute(), None);
    assert_eq!(BinaryOperator::NotIn.commute(), None);
    assert_eq!(BinaryOperator::Minus.commute(), None);
    assert_eq!(BinaryOperator::Divide.commute(), None);
}

#[test]
fn commute_twice_returns_the_original() {
    let ops = [
        BinaryOperator::Plus,
        BinaryOperator::Minus,
        BinaryOperator::Multiply,
        BinaryOperator::Divide,
        BinaryOperator::LessThan,
        BinaryOperator::LessThanOrEqual,
        BinaryOperator::GreaterThan,
        BinaryOperator::GreaterThanOrEqual,
        BinaryOperator::Equal,
        BinaryOperator::NotEqual,
        BinaryOperator::Distinct,
        BinaryOperator::In,
        BinaryOperator::NotIn,
    ];
    for op in ops {
        if let Some(op2) = op.commute() {
            assert_eq!(op2.commute(), Some(op));
        }
    }
}

#[test]
fn invert_swaps_and_and_or() {
    assert_eq!(VariadicOperator::And.invert(), VariadicOperator::Or);
    assert_eq!(VariadicOperator::Or.invert(), VariadicOperator::And);
}

#[test]
fn invert_twice_returns_the_original() {
    assert_eq!(
        VariadicOperator::And.invert().invert(),
        VariadicOperator::And
    );
    assert_eq!(VariadicOperator::Or.invert().invert(), VariadicOperator::Or);
}
