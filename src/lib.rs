//! A lint rule that flags non-null assertions applied to the result of an
//! optional-chain expression, together with the expression tree it walks and
//! the diagnostic sink it reports into.

pub mod ast;
pub mod diagnostics;
pub mod no_non_null_asserted_optional_chain;

pub use ast::{Expr, Module, Span};
pub use diagnostics::{Context, Diagnostic};
pub use no_non_null_asserted_optional_chain::{
    NoNonNullAssertedOptionalChain, NoNonNullAssertedOptionalChainVisitor, CODE, MESSAGE,
};
