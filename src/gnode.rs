use vstd::prelude::*;
use vstd::string::*;
use vstd::math::abs;

use crate::error::GlispError;
use crate::semantics::{eval_node, render_node, text_result};
use crate::Glisp;

verus! {

/// The four arithmetic operators.
#[derive(Debug, Clone, Copy, PartialEq, Eq, Hash, Structural)]
pub enum MathOp {
    Add,
    Sub,
    Mul,
    Div,
}

/// The six comparison operators.
#[derive(Debug, Clone, Copy, PartialEq, Eq, Hash, Structural)]
pub enum CmpOp {
    Lt,
    Le,
    Eq,
    Ge,
    Gt,
    Ne,
}

/// The symbol that stands for an arithmetic operator in rendered text.
pub open spec fn math_symbol(op: MathOp) -> Seq<char> {
    match op {
        MathOp::Add => seq!['+'],
        MathOp::Sub => seq!['-'],
        MathOp::Mul => seq!['*'],
        MathOp::Div => seq!['/'],
    }
}

/// The symbol that stands for a comparison operator in rendered text.
pub open spec fn cmp_symbol(op: CmpOp) -> Seq<char> {
    match op {
        CmpOp::Lt => seq!['<'],
        CmpOp::Le => seq!['<', '='],
        CmpOp::Eq => seq!['=', '='],
        CmpOp::Ge => seq!['>', '='],
        CmpOp::Gt => seq!['>'],
        CmpOp::Ne => seq!['!', '='],
    }
}

impl MathOp {
    /// The operator's symbol: `+`, `-`, `*` or `/`.
    pub fn to_string(&self) -> (r: String)
        ensures
            r@ == math_symbol(*self),
    {
        proof {
            reveal_strlit("+");
            reveal_strlit("-");
            reveal_strlit("*");
            reveal_strlit("/");
        }
        match self {
            MathOp::Add => String::from_str("+"),
            MathOp::Sub => String::from_str("-"),
            MathOp::Mul => String::from_str("*"),
            MathOp::Div => String::from_str("/"),
        }
    }
}

impl CmpOp {
    /// The operator's symbol: `<`, `<=`, `==`, `>=`, `>` or `!=`.
    pub fn to_string(&self) -> (r: String)
        ensures
            r@ == cmp_symbol(*self),
    {
        proof {
            reveal_strlit("<");
            reveal_strlit("<=");
            reveal_strlit("==");
            reveal_strlit(">=");
            reveal_strlit(">");
            reveal_strlit("!=");
        }
        match self {
            CmpOp::Lt => String::from_str("<"),
            CmpOp::Le => String::from_str("<="),
            CmpOp::Eq => String::from_str("=="),
            CmpOp::Ge => String::from_str(">="),
            CmpOp::Gt => String::from_str(">"),
            CmpOp::Ne => String::from_str("!="),
        }
    }
}

/// The kind of a node: a literal, an operator application or a conditional.
#[derive(Debug, Clone, Copy, PartialEq, Eq, Hash, Structural)]
pub enum NodeType {
    /// A 64-bit signed literal; takes no operands.
    N(i64),
    /// An arithmetic operator; takes a left and a right operand.
    Math(MathOp),
    /// A comparison; takes a left and a right operand and yields `1` or `0`.
    Cmp(CmpOp),
    /// A conditional; takes a condition, a then-branch and an else-branch.
    Cond,
}

/// A node of the graph: its identity, its kind and the identities of its operands.
#[derive(Debug)]
pub struct Gnode {
    pub id: usize,
    pub node_type: NodeType,
    pub children: Vec<usize>,
}

/// Whether an integer fits in an `i64`.
pub open spec fn fits_i64(x: int) -> bool {
    i64::MIN <= x <= i64::MAX
}

/// Integer division that rounds toward zero; `b` is nonzero.
pub open spec fn trunc_div(a: int, b: int) -> int {
    let q = abs(a) as int / abs(b) as int;
    if (a < 0) == (b < 0) {
        q
    } else {
        -q
    }
}

/// The exact mathematical value of an arithmetic operator applied to two integers.
pub open spec fn math_value(op: MathOp, a: int, b: int) -> int {
    match op {
        MathOp::Add => a + b,
        MathOp::Sub => a - b,
        MathOp::Mul => a * b,
        MathOp::Div => trunc_div(a, b),
    }
}

/// The outcome of an arithmetic operator on two `i64` values: the exact value when it
/// fits, a division-by-zero error for a zero divisor, and an overflow error otherwise.
pub open spec fn math_result(op: MathOp, a: i64, b: i64) -> Result<i64, GlispError> {
    if op == MathOp::Div && b == 0 {
        Err(GlispError::DivisionByZero)
    } else if fits_i64(math_value(op, a as int, b as int)) {
        Ok(math_value(op, a as int, b as int) as i64)
    } else {
        Err(GlispError::Overflow)
    }
}

/// Whether a comparison holds between two integers.
pub open spec fn cmp_holds(op: CmpOp, a: int, b: int) -> bool {
    match op {
        CmpOp::Lt => a < b,
        CmpOp::Le => a <= b,
        CmpOp::Eq => a == b,
        CmpOp::Ge => a >= b,
        CmpOp::Gt => a > b,
        CmpOp::Ne => a != b,
    }
}

impl MathOp {
    /// Applies the operator, reporting a zero divisor and any overflow.
    pub fn apply(&self, a: i64, b: i64) -> (r: Result<i64, GlispError>)
        ensures
            r == math_result(*self, a, b),
    {
        let checked = match self {
            MathOp::Add => a.checked_add(b),
            MathOp::Sub => a.checked_sub(b),
            MathOp::Mul => a.checked_mul(b),
            MathOp::Div => {
                if b == 0 {
                    return Err(GlispError::DivisionByZero);
                }
                a.checked_div(b)
            },
        };
        match checked {
            Some(v) => Ok(v),
            None => Err(GlispError::Overflow),
        }
    }
}

impl CmpOp {
    /// Whether the comparison holds between `a` and `b`.
    pub fn holds(&self, a: i64, b: i64) -> (r: bool)
        ensures
            r == cmp_holds(*self, a as int, b as int),
    {
        match self {
            CmpOp::Lt => a < b,
            CmpOp::Le => a <= b,
            CmpOp::Eq => a == b,
            CmpOp::Ge => a >= b,
            CmpOp::Gt => a > b,
            CmpOp::Ne => a != b,
        }
    }
}

impl Gnode {
    /// A node with the given identity and kind, and no operands yet.
    pub fn new(id: usize, node_type: NodeType) -> (r: Gnode)
        ensures
            r.id == id,
            r.node_type == node_type,
            r.children@ == Seq::<usize>::empty(),
    {
        Gnode { id, node_type, children: Vec::new() }
    }

    /// Appends the given identities, in order, to the operand list.
    pub fn add_links(&mut self, to: &[usize])
        ensures
            final(self).id == old(self).id,
            final(self).node_type == old(self).node_type,
            final(self).children@ == old(self).children@ + to@,
    {
        let mut i: usize = 0;
        while i < to.len()
            invariant
                i <= to@.len(),
                self.id == old(self).id,
                self.node_type == old(self).node_type,
                self.children@ == old(self).children@ + to@.subrange(0, i as int),
            decreases to@.len() - i,
        {
            self.children.push(to[i]);
            i = i + 1;
            proof {
                assert(to@.subrange(0, i as int) == to@.subrange(0, i - 1) + seq![to@[i - 1]]);
            }
        }
        proof {
            assert(to@.subrange(0, to@.len() as int) == to@);
        }
    }

    /// Evaluates this node's kind over its own operands, which are looked up in `store`.
    pub fn evaluate(&self, store: &Glisp) -> (r: Result<i64, GlispError>)
        ensures
            r == eval_node(store@, self.node_type, self.children@, Seq::empty()),
    {
        let mut path: Vec<usize> = Vec::new();
        store.eval_kind(self.node_type, &self.children, &mut path)
    }

    /// Renders this node's kind over its own operands, which are looked up in `store`.
    pub fn to_lisp(&self, store: &Glisp) -> (r: Result<String, GlispError>)
        ensures
            text_result(r) == render_node(store@, self.node_type, self.children@, Seq::empty()),
    {
        let mut path: Vec<usize> = Vec::new();
        store.render_kind(self.node_type, &self.children, &mut path)
    }
}

} // verus!
