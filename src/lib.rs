use vstd::prelude::*;
use vstd::string::*;

pub mod error;
pub mod gnode;
pub mod laws;
pub mod semantics;
pub mod text;
pub mod to_lisp;

pub use error::GlispError;
pub use gnode::{CmpOp, Gnode, MathOp, NodeType};
pub use to_lisp::ToLisp;

use semantics::{
    binary_text, cond_text, eval_at, eval_node, evaluation, lemma_off_path_push, off_path,
    render_at, render_node, rendering, text_result,
};
use text::append_decimal;

verus! {

/// The node store: owns every node, hands out identities `0, 1, 2, ...` in order of
/// creation and keeps each node's operand list.
pub struct Glisp {
    nodes: Vec<Gnode>,
}

impl View for Glisp {
    type V = Seq<Gnode>;

    /// The nodes, indexed by identity.
    closed spec fn view(&self) -> Seq<Gnode> {
        self.nodes@
    }
}

/// Whether `id` is on `path`.
fn on_path(path: &Vec<usize>, id: usize) -> (r: bool)
    ensures
        r == path@.contains(id),
{
    let mut i: usize = 0;
    while i < path.len()
        invariant
            i <= path@.len(),
            forall|j: int| 0 <= j < i ==> path@[j] != id,
        decreases path@.len() - i,
    {
        if path[i] == id {
            return true;
        }
        i = i + 1;
    }
    false
}

/// `(head left right)`.
fn binary_string(head: &str, left: &str, right: &str) -> (s: String)
    ensures
        s@ == binary_text(head@, left@, right@),
{
    proof {
        reveal_strlit("(");
        reveal_strlit(" ");
        reveal_strlit(")");
    }
    let mut s = String::from_str("(");
    s.append(head);
    s.append(" ");
    s.append(left);
    s.append(" ");
    s.append(right);
    s.append(")");
    s
}

/// `(? cond then else)`.
fn cond_string(c: &str, t: &str, e: &str) -> (s: String)
    ensures
        s@ == cond_text(c@, t@, e@),
{
    proof {
        reveal_strlit("(? ");
        reveal_strlit(" ");
        reveal_strlit(")");
    }
    let mut s = String::from_str("(? ");
    s.append(c);
    s.append(" ");
    s.append(t);
    s.append(" ");
    s.append(e);
    s.append(")");
    s
}

impl Glisp {
    /// Each stored node carries its own index as identity.
    pub open spec fn wf(&self) -> bool {
        forall|i: int| 0 <= i < self@.len() ==> #[trigger] self@[i].id == i
    }

    /// An empty store.
    pub fn new() -> (r: Glisp)
        ensures
            r.wf(),
            r@ == Seq::<Gnode>::empty(),
    {
        Glisp { nodes: Vec::new() }
    }

    /// The number of nodes created so far, which is also the next identity.
    pub fn len(&self) -> (r: usize)
        ensures
            r == self@.len(),
    {
        self.nodes.len()
    }

    /// Creates a node of the given kind with no operands and returns its identity, the
    /// next unused one.
    pub fn add_node(&mut self, node_type: NodeType) -> (id: usize)
        requires
            old(self).wf(),
        ensures
            final(self).wf(),
            id == old(self)@.len(),
            final(self)@.len() == old(self)@.len() + 1,
            final(self)@.take(id as int) == old(self)@,
            final(self)@[id as int].id == id,
            final(self)@[id as int].node_type == node_type,
            final(self)@[id as int].children@ == Seq::<usize>::empty(),
    {
        let id = self.nodes.len();
        self.nodes.push(Gnode::new(id, node_type));
        proof {
            assert(self@.take(id as int) =~= old(self)@);
        }
        id
    }

    /// Appends `to`, in order, to the operand list of `from`. Repeated links add up and
    /// nothing is deduplicated; operands that name no node are accepted here and only
    /// fail when they are evaluated or rendered.
    pub fn add_link(&mut self, from: usize, to: &[usize]) -> (r: Result<(), GlispError>)
        requires
            old(self).wf(),
        ensures
            final(self).wf(),
            r is Err <==> from >= old(self)@.len(),
            r is Err ==> r == Err::<(), GlispError>(GlispError::Lookup) && final(self)@ == old(
                self,
            )@,
            r is Ok ==> final(self)@.len() == old(self)@.len(),
            r is Ok ==> final(self)@[from as int].id == old(self)@[from as int].id,
            r is Ok ==> final(self)@[from as int].node_type == old(self)@[from as int].node_type,
            r is Ok ==> final(self)@[from as int].children@ == old(self)@[from as int].children@
                + to@,
            r is Ok ==> forall|i: int|
                0 <= i < old(self)@.len() && i != from ==> #[trigger] final(self)@[i] == old(
                    self,
                )@[i],
    {
        if from >= self.nodes.len() {
            return Err(GlispError::Lookup);
        }
        self.nodes[from].add_links(to);
        Ok(())
    }

    /// The kind of the node `id`.
    pub fn get_kind(&self, id: usize) -> (r: Result<NodeType, GlispError>)
        ensures
            id < self@.len() ==> r == Ok::<NodeType, GlispError>(self@[id as int].node_type),
            id >= self@.len() ==> r == Err::<NodeType, GlispError>(GlispError::Lookup),
    {
        if id >= self.nodes.len() {
            return Err(GlispError::Lookup);
        }
        Ok(self.nodes[id].node_type)
    }

    /// The operand list of the node `id`.
    pub fn get_operands(&self, id: usize) -> (r: Result<Vec<usize>, GlispError>)
        ensures
            id < self@.len() ==> r is Ok && r->Ok_0@ == self@[id as int].children@,
            id >= self@.len() ==> r == Err::<Vec<usize>, GlispError>(GlispError::Lookup),
    {
        if id >= self.nodes.len() {
            return Err(GlispError::Lookup);
        }
        let children = &self.nodes[id].children;
        let mut out: Vec<usize> = Vec::new();
        let mut i: usize = 0;
        while i < children.len()
            invariant
                i <= children@.len(),
                out@ == children@.take(i as int),
            decreases children@.len() - i,
        {
            out.push(children[i]);
            i = i + 1;
            proof {
                assert(children@.take(i as int) =~= children@.take(i - 1).push(children@[i - 1]));
            }
        }
        proof {
            assert(children@.take(children@.len() as int) =~= children@);
        }
        Ok(out)
    }

    /// Evaluates the node `id`: literals give their value, operators apply to their
    /// operands evaluated left to right, and a conditional evaluates its condition and then
    /// only the branch that it selects. Shared nodes are evaluated once per reference.
    pub fn evaluate(&self, id: usize) -> (r: Result<i64, GlispError>)
        ensures
            r == evaluation(self@, id),
    {
        let mut path: Vec<usize> = Vec::new();
        self.eval_rec(id, &mut path)
    }

    /// Renders the node `id` as canonical prefix text: a literal as its decimal text,
    /// `(op left right)` for an operator and `(? cond then else)` for a conditional.
    pub fn render(&self, id: usize) -> (r: Result<String, GlispError>)
        ensures
            text_result(r) == rendering(self@, id),
    {
        let mut path: Vec<usize> = Vec::new();
        self.render_rec(id, &mut path)
    }

    /// Evaluates the node `id` while the nodes of `path` are still being evaluated.
    fn eval_rec(&self, id: usize, path: &mut Vec<usize>) -> (r: Result<i64, GlispError>)
        ensures
            r == eval_at(self@, id, old(path)@),
            final(path)@ == old(path)@,
        decreases off_path(self@.len(), old(path)@), 0nat,
    {
        if id >= self.nodes.len() {
            return Err(GlispError::Lookup);
        }
        if on_path(path, id) {
            return Err(GlispError::Cycle);
        }
        proof {
            lemma_off_path_push(self@.len(), path@, id);
        }
        path.push(id);
        let node = &self.nodes[id];
        let r = self.eval_kind(node.node_type, &node.children, path);
        path.pop();
        proof {
            assert(path@ =~= old(path)@);
        }
        r
    }

    /// Evaluates a node of kind `kind` with operands `ops` while the nodes of `path` are
    /// still being evaluated.
    pub(crate) fn eval_kind(&self, kind: NodeType, ops: &Vec<usize>, path: &mut Vec<usize>) -> (r:
        Result<i64, GlispError>)
        ensures
            r == eval_node(self@, kind, ops@, old(path)@),
            final(path)@ == old(path)@,
        decreases off_path(self@.len(), old(path)@), 1nat,
    {
        match kind {
            NodeType::N(v) => Ok(v),
            NodeType::Math(op) => {
                if ops.len() != 2 {
                    return Err(GlispError::Arity);
                }
                let a = match self.eval_rec(ops[0], path) {
                    Ok(a) => a,
                    Err(e) => return Err(e),
                };
                let b = match self.eval_rec(ops[1], path) {
                    Ok(b) => b,
                    Err(e) => return Err(e),
                };
                op.apply(a, b)
            },
            NodeType::Cmp(op) => {
                if ops.len() != 2 {
                    return Err(GlispError::Arity);
                }
                let a = match self.eval_rec(ops[0], path) {
                    Ok(a) => a,
                    Err(e) => return Err(e),
                };
                let b = match self.eval_rec(ops[1], path) {
                    Ok(b) => b,
                    Err(e) => return Err(e),
                };
                if op.holds(a, b) {
                    Ok(1)
                } else {
                    Ok(0)
                }
            },
            NodeType::Cond => {
                if ops.len() != 3 {
                    return Err(GlispError::Arity);
                }
                let c = match self.eval_rec(ops[0], path) {
                    Ok(c) => c,
                    Err(e) => return Err(e),
                };
                if c != 0 {
                    self.eval_rec(ops[1], path)
                } else {
                    self.eval_rec(ops[2], path)
                }
            },
        }
    }

    /// Renders the node `id` while the nodes of `path` are still being rendered.
    fn render_rec(&self, id: usize, path: &mut Vec<usize>) -> (r: Result<String, GlispError>)
        ensures
            text_result(r) == render_at(self@, id, old(path)@),
            final(path)@ == old(path)@,
        decreases off_path(self@.len(), old(path)@), 0nat,
    {
        if id >= self.nodes.len() {
            return Err(GlispError::Lookup);
        }
        if on_path(path, id) {
            return Err(GlispError::Cycle);
        }
        proof {
            lemma_off_path_push(self@.len(), path@, id);
        }
        path.push(id);
        let node = &self.nodes[id];
        let r = self.render_kind(node.node_type, &node.children, path);
        path.pop();
        proof {
            assert(path@ =~= old(path)@);
        }
        r
    }

    /// Renders a node of kind `kind` with operands `ops` while the nodes of `path` are
    /// still being rendered.
    pub(crate) fn render_kind(&self, kind: NodeType, ops: &Vec<usize>, path: &mut Vec<usize>) -> (r:
        Result<String, GlispError>)
        ensures
            text_result(r) == render_node(self@, kind, ops@, old(path)@),
            final(path)@ == old(path)@,
        decreases off_path(self@.len(), old(path)@), 1nat,
    {
        match kind {
            NodeType::N(v) => {
                let mut s = String::new();
                append_decimal(&mut s, v);
                proof {
                    assert(s@ =~= text::decimal_of(v as int));
                }
                Ok(s)
            },
            NodeType::Math(op) => {
                if ops.len() != 2 {
                    return Err(GlispError::Arity);
                }
                let l = match self.render_rec(ops[0], path) {
                    Ok(l) => l,
                    Err(e) => return Err(e),
                };
                let r = match self.render_rec(ops[1], path) {
                    Ok(r) => r,
                    Err(e) => return Err(e),
                };
                let head = op.to_string();
                Ok(binary_string(head.as_str(), l.as_str(), r.as_str()))
            },
            NodeType::Cmp(op) => {
                if ops.len() != 2 {
                    return Err(GlispError::Arity);
                }
                let l = match self.render_rec(ops[0], path) {
                    Ok(l) => l,
                    Err(e) => return Err(e),
                };
                let r = match self.render_rec(ops[1], path) {
                    Ok(r) => r,
                    Err(e) => return Err(e),
                };
                let head = op.to_string();
                Ok(binary_string(head.as_str(), l.as_str(), r.as_str()))
            },
            NodeType::Cond => {
                if ops.len() != 3 {
                    return Err(GlispError::Arity);
                }
                let c = match self.render_rec(ops[0], path) {
                    Ok(c) => c,
                    Err(e) => return Err(e),
                };
                let t = match self.render_rec(ops[1], path) {
                    Ok(t) => t,
                    Err(e) => return Err(e),
                };
                let e = match self.render_rec(ops[2], path) {
                    Ok(e) => e,
                    Err(err) => return Err(err),
                };
                Ok(cond_string(c.as_str(), t.as_str(), e.as_str()))
            },
        }
    }
}

} // verus!
