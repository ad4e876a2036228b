//! Deterministic, total textual rendering of expression trees, for
//! diagnostics and logging (not for round-trip parsing): literals render
//! through the scalar rendering, column references as `Column(<path>)`,
//! structs and variadic operations with comma-separated children, binary
//! operations infix (except `DISTINCT`, which has no conventional infix
//! symbol and renders as a call), `NOT` prefix and `IS NULL` postfix.

use vstd::prelude::*;

use crate::expression::Expression;
use crate::join::join_with;
use crate::join::spec_join;
use crate::operators::BinaryOperator;
use crate::operators::UnaryOperator;
use crate::operators::spec_symbol;
use crate::operators::spec_variadic_name;
use crate::scalars::spec_render_scalar;

verus! {

/// The rendering of an expression tree: a total function of the tree
/// value alone, so rendering the same tree always yields the same
/// string. Empty child sequences render as `OP()` rather than failing.
pub open spec fn spec_render(e: Expression) -> Seq<char>
    decreases e,
{
    match e {
        Expression::Literal(s) => spec_render_scalar(s),
        Expression::Column(c) => "Column("@ + spec_join(c@, "."@) + ")"@,
        Expression::Struct(exprs) => "Struct("@ + spec_join(spec_render_list(exprs@), ", "@)
            + ")"@,
        Expression::UnaryOperation { op, expr } => match op {
            UnaryOperator::Not => "NOT "@ + spec_render(*expr),
            UnaryOperator::IsNull => spec_render(*expr) + " IS NULL"@,
        },
        Expression::BinaryOperation { op, left, right } => if op == BinaryOperator::Distinct {
            "DISTINCT("@ + spec_render(*left) + ", "@ + spec_render(*right) + ")"@
        } else {
            spec_render(*left) + " "@ + spec_symbol(op) + " "@ + spec_render(*right)
        },
        Expression::VariadicOperation { op, exprs } => spec_variadic_name(op) + "("@ + spec_join(
            spec_render_list(exprs@),
            ", "@,
        ) + ")"@,
    }
}

/// The renderings of a sequence of sibling subtrees, in order.
pub open spec fn spec_render_list(s: Seq<Expression>) -> Seq<Seq<char>>
    decreases s,
{
    if s.len() == 0 {
        Seq::empty()
    } else {
        seq![spec_render(s[0])] + spec_render_list(s.drop_first())
    }
}

proof fn lemma_render_list_snoc(s: Seq<Expression>, x: Expression)
    ensures
        spec_render_list(s.push(x)) == spec_render_list(s).push(spec_render(x)),
    decreases s,
{
    if s.len() == 0 {
        assert(s.push(x)[0] == x);
        assert(s.push(x).drop_first() =~= Seq::<Expression>::empty());
        assert(spec_render_list(Seq::<Expression>::empty()) =~= Seq::<Seq<char>>::empty());
        assert(spec_render_list(s.push(x)) =~= spec_render_list(s).push(spec_render(x)));
    } else {
        assert(s.push(x)[0] == s[0]);
        assert(s.push(x).drop_first() =~= s.drop_first().push(x));
        lemma_render_list_snoc(s.drop_first(), x);
        assert(spec_render_list(s.push(x)) =~= spec_render_list(s).push(spec_render(x)));
    }
}

/// Renders each sibling subtree in order.
fn render_children(exprs: &Vec<Expression>) -> (r: Vec<String>)
    ensures
        r@.map_values(|s: String| s@) == spec_render_list(exprs@),
    decreases exprs@,
{
    let mut parts: Vec<String> = Vec::new();
    let n = exprs.len();
    let mut j: usize = 0;
    proof {
        assert(exprs@.take(0) =~= Seq::<Expression>::empty());
        assert(parts@.map_values(|s: String| s@) =~= spec_render_list(exprs@.take(0)));
    }
    while j < n
        invariant
            j <= n,
            n == exprs@.len(),
            parts@.map_values(|s: String| s@) == spec_render_list(exprs@.take(j as int)),
        decreases n - j,
    {
        let ghost pre = parts@;
        let rendered = exprs[j].render();
        parts.push(rendered);
        proof {
            assert(exprs@.take(j + 1) =~= exprs@.take(j as int).push(exprs@[j as int]));
            lemma_render_list_snoc(exprs@.take(j as int), exprs@[j as int]);
            assert(parts@.map_values(|s: String| s@) =~= pre.map_values(|s: String| s@).push(
                spec_render(exprs@[j as int]),
            ));
        }
        j += 1;
    }
    proof {
        assert(exprs@.take(n as int) =~= exprs@);
    }
    parts
}

impl Expression {
    /// Renders the tree to a human-readable string. Total and
    /// deterministic: the result is a function of the tree value alone,
    /// so rendering the same tree twice yields identical strings.
    pub fn render(&self) -> (r: String)
        ensures
            r@ == spec_render(*self),
        decreases *self,
    {
        match self {
            Expression::Literal(s) => s.render(),
            Expression::Column(c) => {
                let mut r = String::from_str("Column(");
                let path = c.render();
                r.append(path.as_str());
                r.append(")");
                r
            },
            Expression::Struct(exprs) => {
                let parts = render_children(exprs);
                let joined = join_with(&parts, ", ");
                let mut r = String::from_str("Struct(");
                r.append(joined.as_str());
                r.append(")");
                r
            },
            Expression::UnaryOperation { op, expr } => match op {
                UnaryOperator::Not => {
                    let mut r = String::from_str("NOT ");
                    let operand = (**expr).render();
                    r.append(operand.as_str());
                    r
                },
                UnaryOperator::IsNull => {
                    let mut r = (**expr).render();
                    r.append(" IS NULL");
                    r
                },
            },
            Expression::BinaryOperation { op, left, right } => match op {
                BinaryOperator::Distinct => {
                    let mut r = String::from_str("DISTINCT(");
                    let lhs = (**left).render();
                    r.append(lhs.as_str());
                    r.append(", ");
                    let rhs = (**right).render();
                    r.append(rhs.as_str());
                    r.append(")");
                    r
                },
                _ => {
                    let mut r = (**left).render();
                    r.append(" ");
                    r.append(op.symbol());
                    r.append(" ");
                    let rhs = (**right).render();
                    r.append(rhs.as_str());
                    r
                },
            },
            Expression::VariadicOperation { op, exprs } => {
                let parts = render_children(exprs);
                let joined = join_with(&parts, ", ");
                let mut r = String::from_str(op.name());
                r.append("(");
                r.append(joined.as_str());
                r.append(")");
                r
            },
        }
    }
}

} // verus!
