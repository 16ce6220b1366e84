use vstd::prelude::*;

use crate::error::GlispError;
use crate::gnode::{fits_i64, math_value, Gnode, MathOp, NodeType};
use crate::semantics::{eval_at, evaluation, rendering};
use crate::text::decimal_of;

verus! {

/// The number of operands that a node of the given kind takes.
pub open spec fn arity(kind: NodeType) -> nat {
    match kind {
        NodeType::N(_) => 0,
        NodeType::Math(_) => 2,
        NodeType::Cmp(_) => 2,
        NodeType::Cond => 3,
    }
}

/// A literal evaluates to its value and renders as its decimal text, minus sign included.
pub proof fn law_literal(g: Seq<Gnode>, id: usize, v: i64)
    requires
        id < g.len(),
        g[id as int].node_type == NodeType::N(v),
    ensures
        evaluation(g, id) == Ok::<i64, GlispError>(v),
        rendering(g, id) == Ok::<Seq<char>, GlispError>(decimal_of(v as int)),
{
    assert(!Seq::<usize>::empty().contains(id));
}

/// An arithmetic node over two literals `a` and `b`, with `b` nonzero, evaluates to the
/// operator's exact result (division truncating toward zero) whenever that result fits in
/// 64 bits, and reports an overflow otherwise.
pub proof fn law_arithmetic(
    g: Seq<Gnode>,
    id: usize,
    op: MathOp,
    left: usize,
    right: usize,
    a: i64,
    b: i64,
)
    requires
        id < g.len(),
        left < g.len(),
        right < g.len(),
        g[id as int].node_type == NodeType::Math(op),
        g[id as int].children@ == seq![left, right],
        g[left as int].node_type == NodeType::N(a),
        g[right as int].node_type == NodeType::N(b),
        b != 0,
    ensures
        evaluation(g, id) == if fits_i64(math_value(op, a as int, b as int)) {
            Ok::<i64, GlispError>(math_value(op, a as int, b as int) as i64)
        } else {
            Err::<i64, GlispError>(GlispError::Overflow)
        },
{
    let path = Seq::<usize>::empty().push(id);
    assert(!Seq::<usize>::empty().contains(id));
    assert(!path.contains(left)) by {
        if path.contains(left) {
            assert(path[0] == id);
        }
    }
    assert(!path.contains(right)) by {
        if path.contains(right) {
            assert(path[0] == id);
        }
    }
    assert(eval_at(g, left, path) == Ok::<i64, GlispError>(a));
    assert(eval_at(g, right, path) == Ok::<i64, GlispError>(b));
}

/// An arithmetic division whose right operand is the literal zero reports a division by
/// zero, whatever its left operand.
pub proof fn law_divide_by_zero(g: Seq<Gnode>, id: usize, left: usize, right: usize, a: i64)
    requires
        id < g.len(),
        left < g.len(),
        right < g.len(),
        g[id as int].node_type == NodeType::Math(MathOp::Div),
        g[id as int].children@ == seq![left, right],
        g[left as int].node_type == NodeType::N(a),
        g[right as int].node_type == NodeType::N(0),
    ensures
        evaluation(g, id) == Err::<i64, GlispError>(GlispError::DivisionByZero),
{
    let path = Seq::<usize>::empty().push(id);
    assert(!Seq::<usize>::empty().contains(id));
    assert(!path.contains(left)) by {
        if path.contains(left) {
            assert(path[0] == id);
        }
    }
    assert(!path.contains(right)) by {
        if path.contains(right) {
            assert(path[0] == id);
        }
    }
    assert(eval_at(g, left, path) == Ok::<i64, GlispError>(a));
    assert(eval_at(g, right, path) == Ok::<i64, GlispError>(0));
}

/// A comparison node that evaluates at all evaluates to `0` or `1`, whatever its operator
/// and operands.
pub proof fn law_comparison_is_boolean(g: Seq<Gnode>, id: usize)
    requires
        id < g.len(),
        g[id as int].node_type is Cmp,
    ensures
        evaluation(g, id) is Ok ==> evaluation(g, id)->Ok_0 == 0 || evaluation(g, id)->Ok_0 == 1,
{
    assert(!Seq::<usize>::empty().contains(id));
}

/// An operator or conditional node whose operand count differs from its kind's arity
/// fails with an arity error, both when evaluated and when rendered.
pub proof fn law_arity_mismatch(g: Seq<Gnode>, id: usize)
    requires
        id < g.len(),
        !(g[id as int].node_type is N),
        g[id as int].children@.len() != arity(g[id as int].node_type),
    ensures
        evaluation(g, id) == Err::<i64, GlispError>(GlispError::Arity),
        rendering(g, id) == Err::<Seq<char>, GlispError>(GlispError::Arity),
{
    assert(!Seq::<usize>::empty().contains(id));
}

/// An identity that the store never handed out fails with a lookup error, both when
/// evaluated and when rendered.
pub proof fn law_unknown_identity(g: Seq<Gnode>, id: usize)
    requires
        id >= g.len(),
    ensures
        evaluation(g, id) == Err::<i64, GlispError>(GlispError::Lookup),
        rendering(g, id) == Err::<Seq<char>, GlispError>(GlispError::Lookup),
{
}

/// A conditional evaluates its condition, then only the branch it selects: with a nonzero
/// condition its value is that of the then-branch, whatever the else-branch would give,
/// and with a zero condition that of the else-branch, whatever the then-branch would give.
pub proof fn law_conditional_short_circuit(
    g: Seq<Gnode>,
    id: usize,
    cond: usize,
    then_branch: usize,
    else_branch: usize,
)
    requires
        id < g.len(),
        g[id as int].node_type == NodeType::Cond,
        g[id as int].children@ == seq![cond, then_branch, else_branch],
        eval_at(g, cond, seq![id]) is Ok,
    ensures
        eval_at(g, cond, seq![id])->Ok_0 != 0 ==> evaluation(g, id) == eval_at(
            g,
            then_branch,
            seq![id],
        ),
        eval_at(g, cond, seq![id])->Ok_0 == 0 ==> evaluation(g, id) == eval_at(
            g,
            else_branch,
            seq![id],
        ),
{
    assert(!Seq::<usize>::empty().contains(id));
    assert(Seq::<usize>::empty().push(id) == seq![id]);
}

} // verus!
