//! The expression tree: a recursive tagged union over literals, column
//! references, structs and operator applications, together with its
//! construction helpers, traversal and column-reference analysis.

use vstd::prelude::*;

use crate::column_names::ColumnName;
use crate::operators::BinaryOperator;
use crate::operators::UnaryOperator;
use crate::operators::VariadicOperator;
use crate::scalars::DataType;
use crate::scalars::Scalar;

verus! {

/// An expression over literals and column references.
///
/// Expressions carry no type information other than the type of
/// literals; validating an expression against a schema is left to a
/// downstream evaluator. A tree is never mutated after construction:
/// every combinator consumes its operands and builds a new tree.
#[derive(Debug)]
pub enum Expression {
    /// A literal value.
    Literal(Scalar),
    /// A column reference by name.
    Column(ColumnName),
    /// A struct computed from an ordered sequence of expressions.
    Struct(Vec<Expression>),
    /// A unary operation.
    UnaryOperation {
        /// The operator.
        op: UnaryOperator,
        /// The operand.
        expr: Box<Expression>,
    },
    /// A binary operation.
    BinaryOperation {
        /// The operator.
        op: BinaryOperator,
        /// The left-hand operand.
        left: Box<Expression>,
        /// The right-hand operand.
        right: Box<Expression>,
    },
    /// A variadic boolean operation over an ordered sequence of operands.
    VariadicOperation {
        /// The operator.
        op: VariadicOperator,
        /// The operands.
        exprs: Vec<Expression>,
    },
}

/// A shareable handle to an expression tree, for callers that need to
/// hold one tree from multiple owners without copying it.
pub type ExpressionRef = std::sync::Arc<Expression>;

/// Every node of the tree rooted at `e`, in depth-first preorder: the
/// node itself, then the nodes of each child subtree in child order.
pub open spec fn nodes(e: Expression) -> Seq<Expression>
    decreases e,
{
    match e {
        Expression::Literal(_) => seq![e],
        Expression::Column(_) => seq![e],
        Expression::Struct(exprs) => seq![e] + nodes_list(exprs@),
        Expression::UnaryOperation { op, expr } => seq![e] + nodes(*expr),
        Expression::BinaryOperation { op, left, right } => seq![e] + nodes(*left) + nodes(*right),
        Expression::VariadicOperation { op, exprs } => seq![e] + nodes_list(exprs@),
    }
}

/// The concatenation of `nodes` over a sequence of sibling subtrees.
pub open spec fn nodes_list(s: Seq<Expression>) -> Seq<Expression>
    decreases s,
{
    if s.len() == 0 {
        Seq::empty()
    } else {
        nodes(s[0]) + nodes_list(s.drop_first())
    }
}

/// The number of nodes of the tree rooted at `e`: leaves count one,
/// composite nodes count themselves plus all their descendants.
pub open spec fn count(e: Expression) -> nat
    decreases e,
{
    match e {
        Expression::Literal(_) => 1,
        Expression::Column(_) => 1,
        Expression::Struct(exprs) => 1 + count_list(exprs@),
        Expression::UnaryOperation { op, expr } => 1 + count(*expr),
        Expression::BinaryOperation { op, left, right } => 1 + count(*left) + count(*right),
        Expression::VariadicOperation { op, exprs } => 1 + count_list(exprs@),
    }
}

/// The total node count of a sequence of sibling subtrees.
pub open spec fn count_list(s: Seq<Expression>) -> nat
    decreases s,
{
    if s.len() == 0 {
        0
    } else {
        count(s[0]) + count_list(s.drop_first())
    }
}

/// The set of distinct column paths referenced anywhere in the tree,
/// aggregated across all depths.
pub open spec fn spec_references(e: Expression) -> Set<Seq<Seq<char>>>
    decreases e,
{
    match e {
        Expression::Literal(_) => Set::empty(),
        Expression::Column(c) => Set::empty().insert(c@),
        Expression::Struct(exprs) => references_list(exprs@),
        Expression::UnaryOperation { op, expr } => spec_references(*expr),
        Expression::BinaryOperation { op, left, right } => spec_references(*left) + spec_references(
            *right,
        ),
        Expression::VariadicOperation { op, exprs } => references_list(exprs@),
    }
}

/// The union of `spec_references` over a sequence of sibling subtrees.
pub open spec fn references_list(s: Seq<Expression>) -> Set<Seq<Seq<char>>>
    decreases s,
{
    if s.len() == 0 {
        Set::empty()
    } else {
        spec_references(s[0]) + references_list(s.drop_first())
    }
}

/// A node visit list has as many entries as the tree has nodes: a tree
/// of `k` nodes is walked in exactly `k` steps.
pub proof fn lemma_nodes_count(e: Expression)
    ensures
        nodes(e).len() == count(e),
    decreases e,
{
    match e {
        Expression::Literal(_) => {},
        Expression::Column(_) => {},
        Expression::Struct(exprs) => lemma_nodes_list_count(exprs@),
        Expression::UnaryOperation { op, expr } => lemma_nodes_count(*expr),
        Expression::BinaryOperation { op, left, right } => {
            lemma_nodes_count(*left);
            lemma_nodes_count(*right);
        },
        Expression::VariadicOperation { op, exprs } => lemma_nodes_list_count(exprs@),
    }
}

proof fn lemma_nodes_list_count(s: Seq<Expression>)
    ensures
        nodes_list(s).len() == count_list(s),
    decreases s,
{
    if s.len() > 0 {
        lemma_nodes_count(s[0]);
        lemma_nodes_list_count(s.drop_first());
    }
}

/// The sequence of expressions that a sequence of references points at.
pub open spec fn deref_seq(s: Seq<&Expression>) -> Seq<Expression> {
    s.map_values(|e: &Expression| *e)
}

/// The nodes still to be visited from a traversal work list, top of the
/// stack first.
pub open spec fn stack_nodes(s: Seq<&Expression>) -> Seq<Expression>
    decreases s.len(),
{
    if s.len() == 0 {
        Seq::empty()
    } else {
        nodes(*s.last()) + stack_nodes(s.drop_last())
    }
}

/// Whether `n` is a column reference to exactly the path `p`.
pub open spec fn is_column_with(n: Expression, p: Seq<Seq<char>>) -> bool {
    n matches Expression::Column(c) && c@ == p
}

/// Whether some element of `s` is a column reference to the path `p`.
pub open spec fn has_col(s: Seq<Expression>, p: Seq<Seq<char>>) -> bool {
    exists|i: int| 0 <= i < s.len() && is_column_with(#[trigger] s[i], p)
}

proof fn lemma_stack_nodes_push(s: Seq<&Expression>, x: &Expression)
    ensures
        stack_nodes(s.push(x)) == nodes(*x) + stack_nodes(s),
{
    assert(s.push(x).last() == x);
    assert(s.push(x).drop_last() =~= s);
}

proof fn lemma_nodes_list_skip(s: Seq<Expression>, j: int)
    requires
        0 <= j < s.len(),
    ensures
        nodes_list(s.skip(j)) == nodes(s[j]) + nodes_list(s.skip(j + 1)),
{
    assert(s.skip(j).len() > 0);
    assert(s.skip(j)[0] == s[j]);
    assert(s.skip(j).drop_first() =~= s.skip(j + 1));
}

proof fn lemma_has_col_single(x: Expression, p: Seq<Seq<char>>)
    ensures
        has_col(seq![x], p) <==> is_column_with(x, p),
{
    if is_column_with(x, p) {
        assert(seq![x][0] == x);
    }
}

proof fn lemma_has_col_concat(a: Seq<Expression>, b: Seq<Expression>, p: Seq<Seq<char>>)
    ensures
        has_col(a + b, p) <==> (has_col(a, p) || has_col(b, p)),
{
    if has_col(a + b, p) {
        let i = choose|i: int| 0 <= i < (a + b).len() && is_column_with(#[trigger] (a + b)[i], p);
        if i < a.len() {
            assert(a[i] == (a + b)[i]);
        } else {
            assert(b[i - a.len()] == (a + b)[i]);
        }
    }
    if has_col(a, p) {
        let i = choose|i: int| 0 <= i < a.len() && is_column_with(#[trigger] a[i], p);
        assert((a + b)[i] == a[i]);
    }
    if has_col(b, p) {
        let i = choose|i: int| 0 <= i < b.len() && is_column_with(#[trigger] b[i], p);
        assert((a + b)[a.len() + i] == b[i]);
    }
}

proof fn lemma_has_col_push(s: Seq<Expression>, x: Expression, p: Seq<Seq<char>>)
    ensures
        has_col(s.push(x), p) <==> (has_col(s, p) || is_column_with(x, p)),
{
    assert(s.push(x) =~= s + seq![x]);
    lemma_has_col_concat(s, seq![x], p);
    lemma_has_col_single(x, p);
}

/// The references of a tree are exactly the paths of the column nodes
/// that a complete traversal of the tree visits: `spec_references`
/// aggregates column references across all depths of the tree.
pub proof fn lemma_references_nodes(e: Expression, p: Seq<Seq<char>>)
    ensures
        spec_references(e).contains(p) <==> has_col(nodes(e), p),
    decreases e,
{
    match e {
        Expression::Literal(_) => {
            lemma_has_col_single(e, p);
        },
        Expression::Column(_) => {
            lemma_has_col_single(e, p);
        },
        Expression::Struct(exprs) => {
            lemma_references_nodes_list(exprs@, p);
            lemma_has_col_concat(seq![e], nodes_list(exprs@), p);
            lemma_has_col_single(e, p);
        },
        Expression::UnaryOperation { op, expr } => {
            lemma_references_nodes(*expr, p);
            lemma_has_col_concat(seq![e], nodes(*expr), p);
            lemma_has_col_single(e, p);
        },
        Expression::BinaryOperation { op, left, right } => {
            lemma_references_nodes(*left, p);
            lemma_references_nodes(*right, p);
            lemma_has_col_concat(seq![e] + nodes(*left), nodes(*right), p);
            lemma_has_col_concat(seq![e], nodes(*left), p);
            lemma_has_col_single(e, p);
        },
        Expression::VariadicOperation { op, exprs } => {
            lemma_references_nodes_list(exprs@, p);
            lemma_has_col_concat(seq![e], nodes_list(exprs@), p);
            lemma_has_col_single(e, p);
        },
    }
}

proof fn lemma_references_nodes_list(s: Seq<Expression>, p: Seq<Seq<char>>)
    ensures
        references_list(s).contains(p) <==> has_col(nodes_list(s), p),
    decreases s,
{
    if s.len() == 0 {
    } else {
        lemma_references_nodes(s[0], p);
        lemma_references_nodes_list(s.drop_first(), p);
        lemma_has_col_concat(nodes(s[0]), nodes_list(s.drop_first()), p);
    }
}

/// A tree that contains no column node references no columns at all.
pub proof fn lemma_no_column_no_references(e: Expression)
    requires
        forall|i: int| 0 <= i < nodes(e).len() ==> !(#[trigger] nodes(e)[i] matches
            Expression::Column(_)),
    ensures
        spec_references(e) == Set::<Seq<Seq<char>>>::empty(),
{
    assert forall|p: Seq<Seq<char>>| !(#[trigger] spec_references(e).contains(p)) by {
        lemma_references_nodes(e, p);
    }
    assert(spec_references(e) =~= Set::<Seq<Seq<char>>>::empty());
}

/// Pushes the children onto the work list so that the first child ends
/// on top of the stack and is visited first.
fn push_children<'a>(stack: &mut Vec<&'a Expression>, exprs: &'a Vec<Expression>)
    ensures
        stack_nodes(final(stack)@) == nodes_list(exprs@) + stack_nodes(old(stack)@),
{
    let ghost base = stack@;
    let n = exprs.len();
    let mut j: usize = n;
    proof {
        assert(exprs@.skip(n as int) =~= Seq::<Expression>::empty());
        assert(nodes_list(exprs@.skip(n as int)) + stack_nodes(base) =~= stack_nodes(base));
    }
    while j > 0
        invariant
            j <= n,
            n == exprs@.len(),
            stack_nodes(stack@) == nodes_list(exprs@.skip(j as int)) + stack_nodes(base),
        decreases j,
    {
        j -= 1;
        let ghost pre = stack@;
        stack.push(&exprs[j]);
        proof {
            lemma_stack_nodes_push(pre, &exprs[j as int]);
            lemma_nodes_list_skip(exprs@, j as int);
            assert(stack_nodes(stack@) =~= nodes_list(exprs@.skip(j as int)) + stack_nodes(base));
        }
    }
    proof {
        assert(exprs@.skip(0) =~= exprs@);
    }
}

fn contains_path(v: &Vec<&ColumnName>, name: &ColumnName) -> (r: bool)
    ensures
        r <==> exists|k: int| 0 <= k < v@.len() && #[trigger] v@[k]@ == name@,
{
    let n = v.len();
    let mut i: usize = 0;
    while i < n
        invariant
            i <= n,
            n == v@.len(),
            forall|k: int| 0 <= k < i ==> #[trigger] v@[k]@ != name@,
        decreases n - i,
    {
        let c: &ColumnName = v[i];
        if c.path_eq(name) {
            assert(v@[i as int]@ == name@);
            return true;
        }
        i += 1;
    }
    false
}

impl Expression {
    /// Visits every node of the tree exactly once, producing the visited
    /// nodes in depth-first preorder: each node stands before the nodes
    /// of its subtrees, children in order. The traversal uses an
    /// explicit heap-allocated work list, so its depth is not bounded by
    /// the call stack. A tree of `k` nodes yields exactly `k` entries.
    pub fn walk(&self) -> (r: Vec<&Expression>)
        ensures
            deref_seq(r@) == nodes(*self),
            r@.len() == count(*self),
    {
        let mut stack: Vec<&Expression> = Vec::new();
        stack.push(self);
        let mut out: Vec<&Expression> = Vec::new();
        proof {
            assert(stack@.last() == self);
            assert(stack@.drop_last() =~= Seq::<&Expression>::empty());
            assert(stack_nodes(stack@.drop_last()) =~= Seq::<Expression>::empty());
            assert(stack_nodes(stack@) =~= nodes(*self));
            assert(deref_seq(out@) + stack_nodes(stack@) =~= nodes(*self));
        }
        while stack.len() > 0
            invariant
                deref_seq(out@) + stack_nodes(stack@) == nodes(*self),
            decreases stack_nodes(stack@).len(),
        {
            let ghost pre_stack = stack@;
            let ghost pre_out = out@;
            let e: &Expression = match stack.pop() {
                Some(top) => top,
                None => {
                    proof {
                        assert(false);
                    }
                    self
                },
            };
            proof {
                assert(pre_stack.last() == e);
                assert(stack@ =~= pre_stack.drop_last());
                assert(stack_nodes(pre_stack) == nodes(*e) + stack_nodes(stack@));
            }
            out.push(e);
            proof {
                assert(deref_seq(out@) =~= deref_seq(pre_out).push(*e));
            }
            let ghost mid_stack = stack@;
            match e {
                Expression::Literal(_) => {
                    proof {
                        assert(nodes(*e) =~= seq![*e]);
                        assert(deref_seq(out@) + stack_nodes(stack@) =~= nodes(*self));
                    }
                },
                Expression::Column(_) => {
                    proof {
                        assert(nodes(*e) =~= seq![*e]);
                        assert(deref_seq(out@) + stack_nodes(stack@) =~= nodes(*self));
                    }
                },
                Expression::UnaryOperation { expr, .. } => {
                    stack.push(&**expr);
                    proof {
                        lemma_stack_nodes_push(mid_stack, &**expr);
                        assert(deref_seq(out@) + stack_nodes(stack@) =~= nodes(*self));
                    }
                },
                Expression::BinaryOperation { left, right, .. } => {
                    stack.push(&**right);
                    let ghost with_right = stack@;
                    stack.push(&**left);
                    proof {
                        lemma_stack_nodes_push(mid_stack, &**right);
                        lemma_stack_nodes_push(with_right, &**left);
                        assert(deref_seq(out@) + stack_nodes(stack@) =~= nodes(*self));
                    }
                },
                Expression::Struct(exprs) => {
                    push_children(&mut stack, exprs);
                    proof {
                        assert(deref_seq(out@) + stack_nodes(stack@) =~= nodes(*self));
                    }
                },
                Expression::VariadicOperation { exprs, .. } => {
                    push_children(&mut stack, exprs);
                    proof {
                        assert(deref_seq(out@) + stack_nodes(stack@) =~= nodes(*self));
                    }
                },
            }
        }
        proof {
            assert(stack_nodes(stack@) =~= Seq::<Expression>::empty());
            assert(deref_seq(out@) =~= nodes(*self));
            lemma_nodes_count(*self);
        }
        out
    }

    /// Returns the columns referenced by this expression, each distinct
    /// path exactly once: the result carries no duplicates, every entry
    /// is referenced somewhere in the tree, and every path referenced
    /// anywhere in the tree (at any depth) has exactly one entry.
    pub fn references(&self) -> (r: Vec<&ColumnName>)
        ensures
            forall|m1: int, m2: int| 0 <= m1 < m2 < r@.len() ==> r@[m1]@ != r@[m2]@,
            forall|m: int| 0 <= m < r@.len() ==> spec_references(*self).contains(#[trigger] r@[m]@),
            forall|p: Seq<Seq<char>>| #[trigger] spec_references(*self).contains(p) ==> exists|m: int|
                0 <= m < r@.len() && #[trigger] r@[m]@ == p,
    {
        let all = self.walk();
        let ghost ns = nodes(*self);
        let n = all.len();
        let mut out: Vec<&ColumnName> = Vec::new();
        let mut i: usize = 0;
        proof {
            assert(ns.take(0) =~= Seq::<Expression>::empty());
        }
        while i < n
            invariant
                i <= n,
                n == all@.len(),
                ns == nodes(*self),
                deref_seq(all@) == ns,
                forall|m1: int, m2: int| 0 <= m1 < m2 < out@.len() ==> out@[m1]@ != out@[m2]@,
                forall|m: int| 0 <= m < out@.len() ==> has_col(ns.take(i as int), #[trigger] out@[m]@),
                forall|p: Seq<Seq<char>>| #[trigger] has_col(ns.take(i as int), p) ==> exists|m: int|
                    0 <= m < out@.len() && #[trigger] out@[m]@ == p,
            decreases n - i,
        {
            let node: &Expression = all[i];
            proof {
                assert(deref_seq(all@)[i as int] == *node);
                assert(ns[i as int] == *node);
                assert(ns.take(i + 1) =~= ns.take(i as int).push(ns[i as int]));
            }
            match node {
                Expression::Column(name) => {
                    if !contains_path(&out, name) {
                        let ghost pre_out = out@;
                        out.push(name);
                        assert forall|p: Seq<Seq<char>>| #[trigger] has_col(
                            ns.take(i + 1),
                            p,
                        ) implies exists|m: int| 0 <= m < out@.len() && #[trigger] out@[m]@
                            == p by {
                            lemma_has_col_push(ns.take(i as int), ns[i as int], p);
                            if has_col(ns.take(i as int), p) {
                                let m = choose|m: int| 0 <= m < pre_out.len() && #[trigger] pre_out[m]@
                                    == p;
                                assert(out@[m]@ == p);
                            } else {
                                assert(out@[out@.len() - 1]@ == p);
                            }
                        }
                        assert forall|m: int| 0 <= m < out@.len() implies has_col(
                            ns.take(i + 1),
                            #[trigger] out@[m]@,
                        ) by {
                            lemma_has_col_push(ns.take(i as int), ns[i as int], out@[m]@);
                        }
                    } else {
                        assert forall|p: Seq<Seq<char>>| #[trigger] has_col(
                            ns.take(i + 1),
                            p,
                        ) implies exists|m: int| 0 <= m < out@.len() && #[trigger] out@[m]@
                            == p by {
                            lemma_has_col_push(ns.take(i as int), ns[i as int], p);
                            if !has_col(ns.take(i as int), p) {
                                assert(is_column_with(ns[i as int], p));
                                assert(p == name@);
                            }
                        }
                        assert forall|m: int| 0 <= m < out@.len() implies has_col(
                            ns.take(i + 1),
                            #[trigger] out@[m]@,
                        ) by {
                            lemma_has_col_push(ns.take(i as int), ns[i as int], out@[m]@);
                        }
                    }
                },
                _ => {
                    proof {
                        assert(!(ns[i as int] matches Expression::Column(_)));
                        assert forall|p: Seq<Seq<char>>| #[trigger] has_col(ns.take(i + 1), p)
                            <==> has_col(ns.take(i as int), p) by {
                            lemma_has_col_push(ns.take(i as int), ns[i as int], p);
                        }
                    }
                },
            }
            i += 1;
        }
        proof {
            assert(ns.take(n as int) =~= ns);
            assert forall|m: int| 0 <= m < out@.len() implies spec_references(*self).contains(
                #[trigger] out@[m]@,
            ) by {
                lemma_references_nodes(*self, out@[m]@);
            }
            assert forall|p: Seq<Seq<char>>| #[trigger] spec_references(*self).contains(
                p,
            ) implies exists|m: int| 0 <= m < out@.len() && #[trigger] out@[m]@ == p by {
                lemma_references_nodes(*self, p);
            }
        }
        out
    }

    /// Wraps a scalar into a literal expression.
    pub fn literal(value: Scalar) -> (r: Expression)
        ensures
            r == Expression::Literal(value),
    {
        Expression::Literal(value)
    }

    /// Builds an explicitly typed null literal.
    pub fn null_literal(data_type: DataType) -> (r: Expression)
        ensures
            r == Expression::Literal(Scalar::Null(data_type)),
    {
        Expression::Literal(Scalar::Null(data_type))
    }

    /// Builds a column reference from an ordered sequence of path
    /// segments.
    pub fn column(field_names: Vec<String>) -> (r: Expression)
        ensures
            r matches Expression::Column(c) && c@ == field_names@.map_values(|s: String| s@),
    {
        Expression::Column(ColumnName::new(field_names))
    }

    /// Builds a struct expression from an ordered sequence of
    /// expressions; the order is positional and semantically
    /// significant.
    pub fn struct_from(exprs: Vec<Expression>) -> (r: Expression)
        ensures
            r == Expression::Struct(exprs),
    {
        Expression::Struct(exprs)
    }

    /// Builds the unary expression `op expr`.
    pub fn unary(op: UnaryOperator, expr: Expression) -> (r: Expression)
        ensures
            r matches Expression::UnaryOperation { op: o, expr: e } && o == op && e == expr,
    {
        Expression::UnaryOperation { op, expr: Box::new(expr) }
    }

    /// Builds the binary expression `lhs op rhs`.
    pub fn binary(op: BinaryOperator, lhs: Expression, rhs: Expression) -> (r: Expression)
        ensures
            r matches Expression::BinaryOperation { op: o, left, right } && o == op && left == lhs
                && right == rhs,
    {
        Expression::BinaryOperation { op, left: Box::new(lhs), right: Box::new(rhs) }
    }

    /// Builds the variadic expression `op(exprs...)`.
    pub fn variadic(op: VariadicOperator, exprs: Vec<Expression>) -> (r: Expression)
        ensures
            r == (Expression::VariadicOperation { op, exprs }),
    {
        Expression::VariadicOperation { op, exprs }
    }

    /// Builds the conjunction `AND(exprs...)`.
    pub fn and_from(exprs: Vec<Expression>) -> (r: Expression)
        ensures
            r == (Expression::VariadicOperation { op: VariadicOperator::And, exprs }),
    {
        Expression::variadic(VariadicOperator::And, exprs)
    }

    /// Builds the disjunction `OR(exprs...)`.
    pub fn or_from(exprs: Vec<Expression>) -> (r: Expression)
        ensures
            r == (Expression::VariadicOperation { op: VariadicOperator::Or, exprs }),
    {
        Expression::variadic(VariadicOperator::Or, exprs)
    }

    /// Builds the expression `self IS NULL`.
    pub fn is_null(self) -> (r: Expression)
        ensures
            r matches Expression::UnaryOperation { op, expr } && op == UnaryOperator::IsNull
                && expr == self,
    {
        Expression::unary(UnaryOperator::IsNull, self)
    }

    /// Builds the expression `NOT (self IS NULL)`.
    pub fn is_not_null(self) -> (r: Expression)
        ensures
            r matches Expression::UnaryOperation { op, expr } && op == UnaryOperator::Not && (
            *expr matches Expression::UnaryOperation { op: op2, expr: inner } && op2
                == UnaryOperator::IsNull && inner == self),
    {
        Expression::unary(UnaryOperator::Not, Expression::unary(UnaryOperator::IsNull, self))
    }

    /// Builds the comparison `self = other`.
    pub fn eq(self, other: Expression) -> (r: Expression)
        ensures
            r matches Expression::BinaryOperation { op, left, right } && op
                == BinaryOperator::Equal && left == self && right == other,
    {
        Expression::binary(BinaryOperator::Equal, self, other)
    }

    /// Builds the comparison `self != other`.
    pub fn ne(self, other: Expression) -> (r: Expression)
        ensures
            r matches Expression::BinaryOperation { op, left, right } && op
                == BinaryOperator::NotEqual && left == self && right == other,
    {
        Expression::binary(BinaryOperator::NotEqual, self, other)
    }

    /// Builds the comparison `self <= other`.
    pub fn le(self, other: Expression) -> (r: Expression)
        ensures
            r matches Expression::BinaryOperation { op, left, right } && op
                == BinaryOperator::LessThanOrEqual && left == self && right == other,
    {
        Expression::binary(BinaryOperator::LessThanOrEqual, self, other)
    }

    /// Builds the comparison `self < other`.
    pub fn lt(self, other: Expression) -> (r: Expression)
        ensures
            r matches Expression::BinaryOperation { op, left, right } && op
                == BinaryOperator::LessThan && left == self && right == other,
    {
        Expression::binary(BinaryOperator::LessThan, self, other)
    }

    /// Builds the comparison `self >= other`.
    pub fn ge(self, other: Expression) -> (r: Expression)
        ensures
            r matches Expression::BinaryOperation { op, left, right } && op
                == BinaryOperator::GreaterThanOrEqual && left == self && right == other,
    {
        Expression::binary(BinaryOperator::GreaterThanOrEqual, self, other)
    }

    /// Builds the comparison `self > other`.
    pub fn gt(self, other: Expression) -> (r: Expression)
        ensures
            r matches Expression::BinaryOperation { op, left, right } && op
                == BinaryOperator::GreaterThan && left == self && right == other,
    {
        Expression::binary(BinaryOperator::GreaterThan, self, other)
    }

    /// Builds the comparison `self >= other`; an alias of `ge`.
    pub fn gt_eq(self, other: Expression) -> (r: Expression)
        ensures
            r matches Expression::BinaryOperation { op, left, right } && op
                == BinaryOperator::GreaterThanOrEqual && left == self && right == other,
    {
        Expression::binary(BinaryOperator::GreaterThanOrEqual, self, other)
    }

    /// Builds the comparison `self <= other`; an alias of `le`.
    pub fn lt_eq(self, other: Expression) -> (r: Expression)
        ensures
            r matches Expression::BinaryOperation { op, left, right } && op
                == BinaryOperator::LessThanOrEqual && left == self && right == other,
    {
        Expression::binary(BinaryOperator::LessThanOrEqual, self, other)
    }

    /// Builds the conjunction `AND(self, other)`.
    pub fn and(self, other: Expression) -> (r: Expression)
        ensures
            r matches Expression::VariadicOperation { op, exprs } && op == VariadicOperator::And
                && exprs@ == seq![self, other],
    {
        let operands = vec![self, other];
        Expression::and_from(operands)
    }

    /// Builds the disjunction `OR(self, other)`.
    pub fn or(self, other: Expression) -> (r: Expression)
        ensures
            r matches Expression::VariadicOperation { op, exprs } && op == VariadicOperator::Or
                && exprs@ == seq![self, other],
    {
        let operands = vec![self, other];
        Expression::or_from(operands)
    }

    /// Wraps the tree in a shareable reference-counted handle, for
    /// callers that need to hold one tree from multiple owners without
    /// copying it. Sharing is read-only: the tree is immutable.
    pub fn into_ref(self) -> (r: ExpressionRef)
        ensures
            r == self,
    {
        std::sync::Arc::new(self)
    }

    /// Builds the null-aware comparison `DISTINCT(self, other)`.
    pub fn distinct(self, other: Expression) -> (r: Expression)
        ensures
            r matches Expression::BinaryOperation { op, left, right } && op
                == BinaryOperator::Distinct && left == self && right == other,
    {
        Expression::binary(BinaryOperator::Distinct, self, other)
    }
}

} // verus!
