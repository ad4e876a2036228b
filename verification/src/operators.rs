//! The operator vocabulary of the expression tree: binary, unary and
//! variadic operator kinds, together with their algebraic rewriting rules
//! (commutation of binary operators, De Morgan inversion of the variadic
//! boolean combinators).

use vstd::prelude::*;

verus! {

/// A binary operator.
#[derive(Debug, Clone, Copy, PartialEq, Eq, Structural, Hash)]
pub enum BinaryOperator {
    /// Arithmetic addition.
    Plus,
    /// Arithmetic subtraction.
    Minus,
    /// Arithmetic multiplication.
    Multiply,
    /// Arithmetic division.
    Divide,
    /// Comparison: less than.
    LessThan,
    /// Comparison: less than or equal.
    LessThanOrEqual,
    /// Comparison: greater than.
    GreaterThan,
    /// Comparison: greater than or equal.
    GreaterThanOrEqual,
    /// Comparison: equal.
    Equal,
    /// Comparison: not equal.
    NotEqual,
    /// Null-aware comparison (SQL `IS DISTINCT FROM`).
    Distinct,
    /// Membership test.
    In,
    /// Negated membership test.
    NotIn,
}

/// A unary operator.
#[derive(Debug, Clone, Copy, PartialEq, Eq, Structural)]
pub enum UnaryOperator {
    /// Logical negation.
    Not,
    /// Null test.
    IsNull,
}

/// A variadic boolean combinator.
#[derive(Debug, Clone, Copy, PartialEq, Eq, Structural)]
pub enum VariadicOperator {
    And,
    Or,
}

/// The commutation table: `spec_commute(op)` is `Some(op2)` exactly when
/// `B op2 A` is equivalent to `A op B`, and `None` for the asymmetric
/// operators `In`, `NotIn`, `Minus` and `Divide`.
pub open spec fn spec_commute(op: BinaryOperator) -> Option<BinaryOperator> {
    match op {
        BinaryOperator::GreaterThan => Some(BinaryOperator::LessThan),
        BinaryOperator::GreaterThanOrEqual => Some(BinaryOperator::LessThanOrEqual),
        BinaryOperator::LessThan => Some(BinaryOperator::GreaterThan),
        BinaryOperator::LessThanOrEqual => Some(BinaryOperator::GreaterThanOrEqual),
        BinaryOperator::Equal => Some(BinaryOperator::Equal),
        BinaryOperator::NotEqual => Some(BinaryOperator::NotEqual),
        BinaryOperator::Distinct => Some(BinaryOperator::Distinct),
        BinaryOperator::Plus => Some(BinaryOperator::Plus),
        BinaryOperator::Multiply => Some(BinaryOperator::Multiply),
        BinaryOperator::In => None,
        BinaryOperator::NotIn => None,
        BinaryOperator::Minus => None,
        BinaryOperator::Divide => None,
    }
}

/// The inversion table: `And` and `Or` are each other's De Morgan duals.
pub open spec fn spec_invert(op: VariadicOperator) -> VariadicOperator {
    match op {
        VariadicOperator::And => VariadicOperator::Or,
        VariadicOperator::Or => VariadicOperator::And,
    }
}

/// The textual symbol of a binary operator, as used by the infix
/// rendering of binary operations.
pub open spec fn spec_symbol(op: BinaryOperator) -> Seq<char> {
    match op {
        BinaryOperator::Plus => "+"@,
        BinaryOperator::Minus => "-"@,
        BinaryOperator::Multiply => "*"@,
        BinaryOperator::Divide => "/"@,
        BinaryOperator::LessThan => "<"@,
        BinaryOperator::LessThanOrEqual => "<="@,
        BinaryOperator::GreaterThan => ">"@,
        BinaryOperator::GreaterThanOrEqual => ">="@,
        BinaryOperator::Equal => "="@,
        BinaryOperator::NotEqual => "!="@,
        BinaryOperator::Distinct => "DISTINCT"@,
        BinaryOperator::In => "IN"@,
        BinaryOperator::NotIn => "NOT IN"@,
    }
}

/// The textual name of a variadic operator, as used by the prefix
/// rendering of variadic operations.
pub open spec fn spec_variadic_name(op: VariadicOperator) -> Seq<char> {
    match op {
        VariadicOperator::And => "AND"@,
        VariadicOperator::Or => "OR"@,
    }
}

impl BinaryOperator {
    /// The textual symbol of the operator. `Distinct` has no
    /// conventional infix symbol; the expression rendering special-cases
    /// it and never prints this symbol in infix position.
    pub fn symbol(&self) -> (r: &'static str)
        ensures
            r@ == spec_symbol(*self),
    {
        match self {
            BinaryOperator::Plus => "+",
            BinaryOperator::Minus => "-",
            BinaryOperator::Multiply => "*",
            BinaryOperator::Divide => "/",
            BinaryOperator::LessThan => "<",
            BinaryOperator::LessThanOrEqual => "<=",
            BinaryOperator::GreaterThan => ">",
            BinaryOperator::GreaterThanOrEqual => ">=",
            BinaryOperator::Equal => "=",
            BinaryOperator::NotEqual => "!=",
            BinaryOperator::Distinct => "DISTINCT",
            BinaryOperator::In => "IN",
            BinaryOperator::NotIn => "NOT IN",
        }
    }

    /// Returns the operator `op2` (if any) such that `B <op2> A` is
    /// equivalent to `A op B`, and `None` for asymmetric operators.
    pub fn commute(&self) -> (r: Option<BinaryOperator>)
        ensures
            r == spec_commute(*self),
    {
        match self {
            BinaryOperator::GreaterThan => Some(BinaryOperator::LessThan),
            BinaryOperator::GreaterThanOrEqual => Some(BinaryOperator::LessThanOrEqual),
            BinaryOperator::LessThan => Some(BinaryOperator::GreaterThan),
            BinaryOperator::LessThanOrEqual => Some(BinaryOperator::GreaterThanOrEqual),
            BinaryOperator::Equal | BinaryOperator::NotEqual | BinaryOperator::Distinct
            | BinaryOperator::Plus | BinaryOperator::Multiply => Some(*self),
            BinaryOperator::In | BinaryOperator::NotIn | BinaryOperator::Minus
            | BinaryOperator::Divide => None,
        }
    }
}

impl VariadicOperator {
    /// The textual name of the combinator.
    pub fn name(&self) -> (r: &'static str)
        ensures
            r@ == spec_variadic_name(*self),
    {
        match self {
            VariadicOperator::And => "AND",
            VariadicOperator::Or => "OR",
        }
    }

    /// Returns the De Morgan dual of the combinator: `And` becomes `Or`
    /// and `Or` becomes `And`. Total; no failure mode.
    pub fn invert(&self) -> (r: VariadicOperator)
        ensures
            r == spec_invert(*self),
    {
        match self {
            VariadicOperator::And => VariadicOperator::Or,
            VariadicOperator::Or => VariadicOperator::And,
        }
    }
}

/// Commutation is an involution on the operators for which it is defined:
/// whenever `spec_commute(op)` is `Some(op2)`, commuting `op2` gives back
/// `Some(op)`. It is defined for exactly the nine symmetric-or-flippable
/// operators and absent for exactly `In`, `NotIn`, `Minus` and `Divide`.
pub proof fn lemma_commute_involution(op: BinaryOperator)
    ensures
        spec_commute(op) matches Some(op2) ==> spec_commute(op2) == Some(op),
        spec_commute(op) is Some <==> !(op == BinaryOperator::In || op == BinaryOperator::NotIn
            || op == BinaryOperator::Minus || op == BinaryOperator::Divide),
{
}

/// Inversion is an involution: inverting a variadic operator twice gives
/// back the original operator, for both `And` and `Or`.
pub proof fn lemma_invert_involution(op: VariadicOperator)
    ensures
        spec_invert(spec_invert(op)) == op,
{
}

} // verus!
