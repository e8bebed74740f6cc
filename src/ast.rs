//! The expression tree the rule walks.
//!
//! Only the node kinds that the rule tells apart have variants of their own;
//! every other kind is an `Other` node that keeps its sub-expressions, so a
//! walk still reaches whatever is nested inside it.

use vstd::prelude::*;

verus! {

/// A source location: the byte offsets where a node starts and ends.
#[derive(Clone, Copy, Debug, PartialEq, Eq, Structural)]
pub struct Span {
    pub lo: u32,
    pub hi: u32,
}

/// An expression node.
pub enum Expr {
    /// An optional chain such as `a?.b` or `a?.()`; `base` is the member
    /// access or call that the chain wraps.
    OptChain { span: Span, base: Box<Expr> },
    /// A member access `obj.prop` or `obj[prop]`.
    Member { span: Span, obj: Box<Expr>, prop: Box<Expr> },
    /// A call `callee(args)`.
    Call { span: Span, callee: Box<Expr>, args: Vec<Expr> },
    /// A parenthesized expression `(expr)`.
    Paren { span: Span, expr: Box<Expr> },
    /// A non-null assertion `expr!`.
    NonNull { span: Span, expr: Box<Expr> },
    /// Any other expression or statement, with its sub-expressions in
    /// source order.
    Other { span: Span, children: Vec<Expr> },
}

/// A module: its top-level statements, in source order.
pub struct Module {
    pub body: Vec<Expr>,
}

impl Expr {
    /// Whether this node is itself an optional chain; nothing is unwrapped.
    pub fn is_opt_chain(&self) -> (r: bool)
        ensures
            r == (*self is OptChain),
    {
        match self {
            Expr::OptChain { .. } => true,
            _ => false,
        }
    }
}

} // verus!
