use vstd::prelude::*;

use crate::error::GlispError;
use crate::gnode::{cmp_holds, cmp_symbol, math_result, math_symbol, Gnode, NodeType};
use crate::text::decimal_of;

verus! {

/// How many of the identities `0..n` are not on `path`: the room left for the path to grow.
pub open spec fn off_path(n: nat, path: Seq<usize>) -> nat
    decreases n,
{
    if n == 0 {
        0
    } else {
        off_path((n - 1) as nat, path) + if path.contains((n - 1) as usize) {
            0nat
        } else {
            1nat
        }
    }
}

/// Putting one more identity on a path never adds room, and putting a stored identity that
/// is not yet on it takes some away.
pub proof fn lemma_off_path_push(n: nat, path: Seq<usize>, id: usize)
    ensures
        off_path(n, path.push(id)) <= off_path(n, path),
        (id as int) < n && !path.contains(id) ==> off_path(n, path.push(id)) < off_path(n, path),
    decreases n,
{
    if n > 0 {
        lemma_off_path_push((n - 1) as nat, path, id);
        let k = (n - 1) as usize;
        if path.contains(k) {
            let j = choose|j: int| 0 <= j < path.len() && path[j] == k;
            assert(path.push(id)[j] == k);
        }
        assert(path.push(id)[path.len() as int] == id);
    }
}

/// The value of the node `id` of the graph `g`, reached with the nodes of `path` still
/// being evaluated.
pub open spec fn eval_at(g: Seq<Gnode>, id: usize, path: Seq<usize>) -> Result<i64, GlispError>
    decreases off_path(g.len(), path), 0nat,
{
    if id >= g.len() {
        Err(GlispError::Lookup)
    } else if path.contains(id) {
        Err(GlispError::Cycle)
    } else {
        proof {
            lemma_off_path_push(g.len(), path, id);
        }
        eval_node(g, g[id as int].node_type, g[id as int].children@, path.push(id))
    }
}

/// The value of a node of kind `kind` with operands `ops` in the graph `g`: operands are
/// evaluated left to right, and a conditional evaluates only the branch that it takes.
pub open spec fn eval_node(
    g: Seq<Gnode>,
    kind: NodeType,
    ops: Seq<usize>,
    path: Seq<usize>,
) -> Result<i64, GlispError>
    decreases off_path(g.len(), path), 1nat,
{
    match kind {
        NodeType::N(v) => Ok(v),
        NodeType::Math(op) => {
            if ops.len() != 2 {
                Err(GlispError::Arity)
            } else {
                match eval_at(g, ops[0], path) {
                    Err(e) => Err(e),
                    Ok(a) => match eval_at(g, ops[1], path) {
                        Err(e) => Err(e),
                        Ok(b) => math_result(op, a, b),
                    },
                }
            }
        },
        NodeType::Cmp(op) => {
            if ops.len() != 2 {
                Err(GlispError::Arity)
            } else {
                match eval_at(g, ops[0], path) {
                    Err(e) => Err(e),
                    Ok(a) => match eval_at(g, ops[1], path) {
                        Err(e) => Err(e),
                        Ok(b) => Ok(if cmp_holds(op, a as int, b as int) { 1i64 } else { 0i64 }),
                    },
                }
            }
        },
        NodeType::Cond => {
            if ops.len() != 3 {
                Err(GlispError::Arity)
            } else {
                match eval_at(g, ops[0], path) {
                    Err(e) => Err(e),
                    Ok(c) => if c != 0 {
                        eval_at(g, ops[1], path)
                    } else {
                        eval_at(g, ops[2], path)
                    },
                }
            }
        },
    }
}

/// The value of the node `id` of the graph `g`.
pub open spec fn evaluation(g: Seq<Gnode>, id: usize) -> Result<i64, GlispError> {
    eval_at(g, id, Seq::empty())
}

/// `(head left right)`, the text of a binary node.
pub open spec fn binary_text(head: Seq<char>, left: Seq<char>, right: Seq<char>) -> Seq<char> {
    seq!['('] + head + seq![' '] + left + seq![' '] + right + seq![')']
}

/// `(? cond then else)`, the text of a conditional.
pub open spec fn cond_text(c: Seq<char>, t: Seq<char>, e: Seq<char>) -> Seq<char> {
    seq!['(', '?', ' '] + c + seq![' '] + t + seq![' '] + e + seq![')']
}

/// The canonical text of the node `id` of the graph `g`, reached with the nodes of `path`
/// still being rendered.
pub open spec fn render_at(g: Seq<Gnode>, id: usize, path: Seq<usize>) -> Result<
    Seq<char>,
    GlispError,
>
    decreases off_path(g.len(), path), 0nat,
{
    if id >= g.len() {
        Err(GlispError::Lookup)
    } else if path.contains(id) {
        Err(GlispError::Cycle)
    } else {
        proof {
            lemma_off_path_push(g.len(), path, id);
        }
        render_node(g, g[id as int].node_type, g[id as int].children@, path.push(id))
    }
}

/// The canonical text of a node of kind `kind` with operands `ops` in the graph `g`:
/// operands are rendered left to right, both branches of a conditional included.
pub open spec fn render_node(
    g: Seq<Gnode>,
    kind: NodeType,
    ops: Seq<usize>,
    path: Seq<usize>,
) -> Result<Seq<char>, GlispError>
    decreases off_path(g.len(), path), 1nat,
{
    match kind {
        NodeType::N(v) => Ok(decimal_of(v as int)),
        NodeType::Math(op) => {
            if ops.len() != 2 {
                Err(GlispError::Arity)
            } else {
                match render_at(g, ops[0], path) {
                    Err(e) => Err(e),
                    Ok(l) => match render_at(g, ops[1], path) {
                        Err(e) => Err(e),
                        Ok(r) => Ok(binary_text(math_symbol(op), l, r)),
                    },
                }
            }
        },
        NodeType::Cmp(op) => {
            if ops.len() != 2 {
                Err(GlispError::Arity)
            } else {
                match render_at(g, ops[0], path) {
                    Err(e) => Err(e),
                    Ok(l) => match render_at(g, ops[1], path) {
                        Err(e) => Err(e),
                        Ok(r) => Ok(binary_text(cmp_symbol(op), l, r)),
                    },
                }
            }
        },
        NodeType::Cond => {
            if ops.len() != 3 {
                Err(GlispError::Arity)
            } else {
                match render_at(g, ops[0], path) {
                    Err(e) => Err(e),
                    Ok(c) => match render_at(g, ops[1], path) {
                        Err(e) => Err(e),
                        Ok(t) => match render_at(g, ops[2], path) {
                            Err(e) => Err(e),
                            Ok(e) => Ok(cond_text(c, t, e)),
                        },
                    },
                }
            }
        },
    }
}

/// The canonical text of the node `id` of the graph `g`.
pub open spec fn rendering(g: Seq<Gnode>, id: usize) -> Result<Seq<char>, GlispError> {
    render_at(g, id, Seq::empty())
}

/// The text of a rendering outcome, for comparison with a rendering.
pub open spec fn text_result(r: Result<String, GlispError>) -> Result<Seq<char>, GlispError> {
    match r {
        Ok(s) => Ok(s@),
        Err(e) => Err(e),
    }
}

} // verus!
