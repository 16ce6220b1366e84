use vstd::prelude::*;

use crate::error::GlispError;
use crate::semantics::{rendering, text_result};
use crate::Glisp;

verus! {

/// Something that renders the nodes it holds as canonical prefix text.
pub trait ToLisp {
    /// The text of `node`, or the error that rendering it meets.
    spec fn lisp(&self, node: usize) -> Result<Seq<char>, GlispError>;

    /// Renders `node`.
    fn to_lisp(&self, node: usize) -> (r: Result<String, GlispError>)
        ensures
            text_result(r) == self.lisp(node),
    ;
}

/// Renders `node` of `x`.
pub fn to_lisp<T: ToLisp>(x: &T, node: usize) -> (r: Result<String, GlispError>)
    ensures
        text_result(r) == x.lisp(node),
{
    x.to_lisp(node)
}

impl ToLisp for Glisp {
    open spec fn lisp(&self, node: usize) -> Result<Seq<char>, GlispError> {
        rendering(self@, node)
    }

    fn to_lisp(&self, node: usize) -> (r: Result<String, GlispError>) {
        self.render(node)
    }
}

} // verus!
