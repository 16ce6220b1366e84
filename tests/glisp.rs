use glisp::gnode::{CmpOp, Gnode, MathOp, NodeType};
use glisp::to_lisp::to_lisp;
use glisp::{Glisp, GlispError, ToLisp};

fn binary(g: &mut Glisp, kind: NodeType, a: i64, b: i64) -> usize {
    let l = g.add_node(NodeType::N(a));
    let r = g.add_node(NodeType::N(b));
    let n = g.add_node(kind);
    g.add_link(n, &[l, r]).unwrap();
    n
}

fn eval_math(op: MathOp, a: i64, b: i64) -> Result<i64, GlispError> {
    let mut g = Glisp::new();
    let n = binary(&mut g, NodeType::Math(op), a, b);
    g.evaluate(n)
}

fn eval_cmp(op: CmpOp, a: i64, b: i64) -> Result<i64, GlispError> {
    let mut g = Glisp::new();
    let n = binary(&mut g, NodeType::Cmp(op), a, b);
    g.evaluate(n)
}

#[test]
fn literal_evaluates_and_renders_as_itself() {
    let mut g = Glisp::new();
    for v in [0i64, 7, 42, -1, -17, 1000000, i64::MAX, i64::MIN] {
        let n = g.add_node(NodeType::N(v));
        assert_eq!(g.evaluate(n), Ok(v));
        assert_eq!(g.render(n), Ok(v.to_string()));
    }
}

#[test]
fn literal_text_of_extremes() {
    let mut g = Glisp::new();
    let lo = g.add_node(NodeType::N(i64::MIN));
    let hi = g.add_node(NodeType::N(i64::MAX));
    assert_eq!(g.render(lo), Ok("-9223372036854775808".to_string()));
    assert_eq!(g.render(hi), Ok("9223372036854775807".to_string()));
}

#[test]
fn arithmetic_matches_integer_arithmetic() {
    assert_eq!(eval_math(MathOp::Add, 2, 3), Ok(5));
    assert_eq!(eval_math(MathOp::Sub, 2, 3), Ok(-1));
    assert_eq!(eval_math(MathOp::Mul, -4, 6), Ok(-24));
    assert_eq!(eval_math(MathOp::Div, 20, 5), Ok(4));
    for a in [-9i64, -7, -1, 0, 1, 7, 9] {
        for b in [-3i64, -2, -1, 1, 2, 3] {
            assert_eq!(eval_math(MathOp::Add, a, b), Ok(a + b));
            assert_eq!(eval_math(MathOp::Sub, a, b), Ok(a - b));
            assert_eq!(eval_math(MathOp::Mul, a, b), Ok(a * b));
            assert_eq!(eval_math(MathOp::Div, a, b), Ok(a / b));
        }
    }
}

#[test]
fn division_truncates_toward_zero() {
    assert_eq!(eval_math(MathOp::Div, -7, 2), Ok(-3));
    assert_eq!(eval_math(MathOp::Div, 7, -2), Ok(-3));
    assert_eq!(eval_math(MathOp::Div, -7, -2), Ok(3));
    assert_eq!(eval_math(MathOp::Div, 7, 2), Ok(3));
}

#[test]
fn division_by_zero_is_an_error() {
    for a in [0i64, 1, -1, 42, i64::MAX, i64::MIN] {
        assert_eq!(eval_math(MathOp::Div, a, 0), Err(GlispError::DivisionByZero));
    }
}

#[test]
fn overflow_is_an_error() {
    assert_eq!(eval_math(MathOp::Add, i64::MAX, 1), Err(GlispError::Overflow));
    assert_eq!(eval_math(MathOp::Sub, i64::MIN, 1), Err(GlispError::Overflow));
    assert_eq!(eval_math(MathOp::Mul, i64::MAX, 2), Err(GlispError::Overflow));
    assert_eq!(eval_math(MathOp::Div, i64::MIN, -1), Err(GlispError::Overflow));
    assert_eq!(eval_math(MathOp::Add, i64::MAX, 0), Ok(i64::MAX));
}

#[test]
fn comparisons_yield_zero_or_one() {
    let ops = [CmpOp::Lt, CmpOp::Le, CmpOp::Eq, CmpOp::Ge, CmpOp::Gt, CmpOp::Ne];
    for op in ops {
        for a in [-5i64, 0, 3, i64::MIN, i64::MAX] {
            for b in [-5i64, 0, 3, i64::MIN, i64::MAX] {
                let v = eval_cmp(op, a, b).unwrap();
                assert!(v == 0 || v == 1);
            }
        }
    }
}

#[test]
fn comparisons_follow_their_operators() {
    assert_eq!(eval_cmp(CmpOp::Lt, 1, 2), Ok(1));
    assert_eq!(eval_cmp(CmpOp::Lt, 2, 2), Ok(0));
    assert_eq!(eval_cmp(CmpOp::Le, 2, 2), Ok(1));
    assert_eq!(eval_cmp(CmpOp::Le, 3, 2), Ok(0));
    assert_eq!(eval_cmp(CmpOp::Eq, 4, 4), Ok(1));
    assert_eq!(eval_cmp(CmpOp::Eq, 4, 5), Ok(0));
    assert_eq!(eval_cmp(CmpOp::Ge, 2, 2), Ok(1));
    assert_eq!(eval_cmp(CmpOp::Ge, 1, 2), Ok(0));
    assert_eq!(eval_cmp(CmpOp::Gt, 10, 3), Ok(1));
    assert_eq!(eval_cmp(CmpOp::Gt, 3, 10), Ok(0));
    assert_eq!(eval_cmp(CmpOp::Ne, 1, 2), Ok(1));
    assert_eq!(eval_cmp(CmpOp::Ne, 2, 2), Ok(0));
}

#[test]
fn conditional_skips_the_branch_not_taken() {
    let mut g = Glisp::new();
    let bad = binary(&mut g, NodeType::Math(MathOp::Div), 1, 0);
    let one = g.add_node(NodeType::N(1));
    let zero = g.add_node(NodeType::N(0));
    let five = g.add_node(NodeType::N(5));
    let then_taken = g.add_node(NodeType::Cond);
    g.add_link(then_taken, &[one, five, bad]).unwrap();
    assert_eq!(g.evaluate(then_taken), Ok(5));
    let else_taken = g.add_node(NodeType::Cond);
    g.add_link(else_taken, &[zero, bad, five]).unwrap();
    assert_eq!(g.evaluate(else_taken), Ok(5));
    assert_eq!(g.evaluate(bad), Err(GlispError::DivisionByZero));
}

#[test]
fn render_descends_into_both_branches() {
    let mut g = Glisp::new();
    let bad = binary(&mut g, NodeType::Math(MathOp::Div), 1, 0);
    let one = g.add_node(NodeType::N(1));
    let five = g.add_node(NodeType::N(5));
    let c = g.add_node(NodeType::Cond);
    g.add_link(c, &[one, five, bad]).unwrap();
    assert_eq!(g.render(c), Ok("(? 1 5 (/ 1 0))".to_string()));
}

#[test]
fn render_of_a_sum() {
    let mut g = Glisp::new();
    let n = binary(&mut g, NodeType::Math(MathOp::Add), 2, 3);
    assert_eq!(g.render(n), Ok("(+ 2 3)".to_string()));
    assert_eq!(g.to_lisp(n), Ok("(+ 2 3)".to_string()));
    assert_eq!(to_lisp(&g, n), Ok("(+ 2 3)".to_string()));
}

#[test]
fn render_uses_every_operator_symbol() {
    let cases = [
        (NodeType::Math(MathOp::Add), "(+ -1 2)"),
        (NodeType::Math(MathOp::Sub), "(- -1 2)"),
        (NodeType::Math(MathOp::Mul), "(* -1 2)"),
        (NodeType::Math(MathOp::Div), "(/ -1 2)"),
        (NodeType::Cmp(CmpOp::Lt), "(< -1 2)"),
        (NodeType::Cmp(CmpOp::Le), "(<= -1 2)"),
        (NodeType::Cmp(CmpOp::Eq), "(== -1 2)"),
        (NodeType::Cmp(CmpOp::Ge), "(>= -1 2)"),
        (NodeType::Cmp(CmpOp::Gt), "(> -1 2)"),
        (NodeType::Cmp(CmpOp::Ne), "(!= -1 2)"),
    ];
    for (kind, text) in cases {
        let mut g = Glisp::new();
        let n = binary(&mut g, kind, -1, 2);
        assert_eq!(g.render(n), Ok(text.to_string()));
    }
}

#[test]
fn operator_symbols() {
    assert_eq!(MathOp::Add.to_string(), "+");
    assert_eq!(MathOp::Sub.to_string(), "-");
    assert_eq!(MathOp::Mul.to_string(), "*");
    assert_eq!(MathOp::Div.to_string(), "/");
    assert_eq!(CmpOp::Lt.to_string(), "<");
    assert_eq!(CmpOp::Le.to_string(), "<=");
    assert_eq!(CmpOp::Eq.to_string(), "==");
    assert_eq!(CmpOp::Ge.to_string(), ">=");
    assert_eq!(CmpOp::Gt.to_string(), ">");
    assert_eq!(CmpOp::Ne.to_string(), "!=");
}

#[test]
fn shared_node_is_evaluated_for_each_reference() {
    let mut g = Glisp::new();
    let s = g.add_node(NodeType::N(4));
    let sum = g.add_node(NodeType::Math(MathOp::Add));
    g.add_link(sum, &[s, s]).unwrap();
    assert_eq!(g.get_operands(sum), Ok(vec![s, s]));
    assert_eq!(g.evaluate(sum), Ok(8));
    assert_eq!(g.evaluate(sum), Ok(8));
    assert_eq!(g.render(sum), Ok("(+ 4 4)".to_string()));
}

#[test]
fn arity_violation_is_an_error() {
    let mut g = Glisp::new();
    let a = g.add_node(NodeType::N(1));
    let m = g.add_node(NodeType::Math(MathOp::Add));
    g.add_link(m, &[a]).unwrap();
    assert_eq!(g.evaluate(m), Err(GlispError::Arity));
    assert_eq!(g.render(m), Err(GlispError::Arity));
    let c = g.add_node(NodeType::Cmp(CmpOp::Lt));
    g.add_link(c, &[a, a, a]).unwrap();
    assert_eq!(g.evaluate(c), Err(GlispError::Arity));
    assert_eq!(g.render(c), Err(GlispError::Arity));
    let k = g.add_node(NodeType::Cond);
    g.add_link(k, &[a, a]).unwrap();
    assert_eq!(g.evaluate(k), Err(GlispError::Arity));
    assert_eq!(g.render(k), Err(GlispError::Arity));
    let empty = g.add_node(NodeType::Math(MathOp::Mul));
    assert_eq!(g.evaluate(empty), Err(GlispError::Arity));
}

#[test]
fn unknown_identity_is_a_lookup_error() {
    let mut g = Glisp::new();
    assert_eq!(g.get_kind(0), Err(GlispError::Lookup));
    assert_eq!(g.evaluate(0), Err(GlispError::Lookup));
    let n = g.add_node(NodeType::N(3));
    assert_eq!(g.get_kind(n), Ok(NodeType::N(3)));
    assert_eq!(g.get_kind(n + 1), Err(GlispError::Lookup));
    assert_eq!(g.evaluate(n + 1), Err(GlispError::Lookup));
    assert_eq!(g.render(n + 1), Err(GlispError::Lookup));
    assert_eq!(g.get_operands(n + 1), Err(GlispError::Lookup));
    assert_eq!(g.add_link(n + 1, &[n]), Err(GlispError::Lookup));
    assert_eq!(g.get_operands(n), Ok(vec![]));
}

#[test]
fn dangling_operand_fails_only_when_reached() {
    let mut g = Glisp::new();
    let a = g.add_node(NodeType::N(1));
    let m = g.add_node(NodeType::Math(MathOp::Add));
    assert_eq!(g.add_link(m, &[a, 99]), Ok(()));
    assert_eq!(g.evaluate(m), Err(GlispError::Lookup));
    assert_eq!(g.render(m), Err(GlispError::Lookup));
}

#[test]
fn end_to_end_conditional() {
    let mut g = Glisp::new();
    let ten = g.add_node(NodeType::N(10));
    let three = g.add_node(NodeType::N(3));
    let gt = g.add_node(NodeType::Cmp(CmpOp::Gt));
    g.add_link(gt, &[ten, three]).unwrap();
    let two = g.add_node(NodeType::N(2));
    let five = g.add_node(NodeType::N(5));
    let mul = g.add_node(NodeType::Math(MathOp::Mul));
    g.add_link(mul, &[two, five]).unwrap();
    let zero = g.add_node(NodeType::N(0));
    let cond = g.add_node(NodeType::Cond);
    g.add_link(cond, &[gt, mul, zero]).unwrap();
    assert_eq!(g.render(cond), Ok("(? (> 10 3) (* 2 5) 0)".to_string()));
    assert_eq!(g.evaluate(cond), Ok(10));
}

#[test]
fn identities_count_up_from_zero() {
    let mut g = Glisp::new();
    assert_eq!(g.len(), 0);
    assert_eq!(g.add_node(NodeType::N(9)), 0);
    assert_eq!(g.add_node(NodeType::Cond), 1);
    assert_eq!(g.add_node(NodeType::Math(MathOp::Sub)), 2);
    assert_eq!(g.len(), 3);
    assert_eq!(g.get_kind(1), Ok(NodeType::Cond));
}

#[test]
fn links_accumulate_without_deduplication() {
    let mut g = Glisp::new();
    let a = g.add_node(NodeType::N(6));
    let b = g.add_node(NodeType::N(2));
    let m = g.add_node(NodeType::Math(MathOp::Sub));
    g.add_link(m, &[a]).unwrap();
    assert_eq!(g.get_operands(m), Ok(vec![a]));
    g.add_link(m, &[b]).unwrap();
    assert_eq!(g.get_operands(m), Ok(vec![a, b]));
    assert_eq!(g.evaluate(m), Ok(4));
    g.add_link(m, &[b]).unwrap();
    assert_eq!(g.get_operands(m), Ok(vec![a, b, b]));
    assert_eq!(g.evaluate(m), Err(GlispError::Arity));
}

#[test]
fn cycle_is_reported() {
    let mut g = Glisp::new();
    let one = g.add_node(NodeType::N(1));
    let m = g.add_node(NodeType::Math(MathOp::Add));
    g.add_link(m, &[one, m]).unwrap();
    assert_eq!(g.evaluate(m), Err(GlispError::Cycle));
    assert_eq!(g.render(m), Err(GlispError::Cycle));
    let p = g.add_node(NodeType::Math(MathOp::Add));
    let q = g.add_node(NodeType::Math(MathOp::Add));
    g.add_link(p, &[one, q]).unwrap();
    g.add_link(q, &[p, one]).unwrap();
    assert_eq!(g.evaluate(p), Err(GlispError::Cycle));
    assert_eq!(g.render(q), Err(GlispError::Cycle));
}

#[test]
fn deep_shared_chain_is_no_cycle() {
    let mut g = Glisp::new();
    let mut cur = g.add_node(NodeType::N(1));
    for _ in 0..20 {
        let next = g.add_node(NodeType::Math(MathOp::Add));
        g.add_link(next, &[cur, cur]).unwrap();
        cur = next;
    }
    assert_eq!(g.evaluate(cur), Ok(1 << 20));
}

#[test]
fn detached_node_evaluates_over_the_store() {
    let mut g = Glisp::new();
    let a = g.add_node(NodeType::N(7));
    let b = g.add_node(NodeType::N(5));
    let mut n = Gnode::new(100, NodeType::Math(MathOp::Sub));
    assert_eq!(n.id, 100);
    assert!(n.children.is_empty());
    n.add_links(&[a]);
    assert_eq!(n.evaluate(&g), Err(GlispError::Arity));
    n.add_links(&[b]);
    assert_eq!(n.children, vec![a, b]);
    assert_eq!(n.evaluate(&g), Ok(2));
    assert_eq!(n.to_lisp(&g), Ok("(- 7 5)".to_string()));
    let lit = Gnode::new(0, NodeType::N(-12));
    assert_eq!(lit.evaluate(&g), Ok(-12));
    assert_eq!(lit.to_lisp(&g), Ok("-12".to_string()));
}
