//! The rule `no-non-null-asserted-optional-chain`.
//!
//! An optional chain evaluates to `undefined` as soon as a link of it is
//! absent, so asserting with `!` that its result is non-null defeats it. The
//! rule reports every non-null assertion whose operand is an optional chain,
//! or a member access or call made directly on one; parentheses around the
//! operand do not hide it.

use vstd::prelude::*;
use crate::ast::{Expr, Module, Span};
use crate::diagnostics::Context;

verus! {

/// The code the rule's diagnostics carry.
pub const CODE: &'static str = "no-non-null-asserted-optional-chain";

/// The text of the rule's diagnostics.
pub const MESSAGE: &'static str = "Optional chain expressions can return undefined by design - using a non-null assertion is unsafe and wrong.";

/// The diagnostic that the rule records at `span`.
pub open spec fn diagnostic_at(span: Span) -> (Span, Seq<char>, Seq<char>) {
    (span, CODE@, MESSAGE@)
}

/// The diagnostics recorded at `spans`, one each, in order.
pub open spec fn diagnostics_of(spans: Seq<Span>) -> Seq<(Span, Seq<char>, Seq<char>)> {
    spans.map_values(|s: Span| diagnostic_at(s))
}

/// `n` copies of `span`.
pub open spec fn repeat_span(span: Span, n: nat) -> Seq<Span> {
    Seq::new(n, |i: int| span)
}

/// 1 when `e` is itself an optional chain, else 0.
pub open spec fn chain_count(e: Expr) -> nat {
    if e is OptChain {
        1
    } else {
        0
    }
}

/// How many diagnostics the shape of the operand `e` of an assertion raises:
/// one when the object of a member access, or the callee of a call, is an
/// optional chain; through parentheses, the whole check again on what they
/// enclose.
pub open spec fn shape_reports(e: Expr) -> nat
    decreases e, 0nat,
{
    match e {
        Expr::Member { obj, .. } => chain_count(*obj),
        Expr::Call { callee, .. } => chain_count(*callee),
        Expr::Paren { expr, .. } => assertion_reports(*expr),
        _ => 0,
    }
}

/// How many diagnostics an assertion `e!` raises at its own span: those of
/// the shape of `e`, and one more when `e` is itself an optional chain.
pub open spec fn assertion_reports(e: Expr) -> nat
    decreases e, 1nat,
{
    shape_reports(e) + chain_count(e)
}

/// The spans the rule reports in the tree `e`, in the order of a walk that
/// visits each node before its sub-expressions, left to right.
pub open spec fn expr_reports(e: Expr) -> Seq<Span>
    decreases e,
{
    match e {
        Expr::OptChain { base, .. } => expr_reports(*base),
        Expr::Member { obj, prop, .. } => expr_reports(*obj) + expr_reports(*prop),
        Expr::Call { callee, args, .. } => expr_reports(*callee) + list_reports(args@),
        Expr::Paren { expr, .. } => expr_reports(*expr),
        Expr::NonNull { span, expr } => repeat_span(span, assertion_reports(*expr)) + expr_reports(
            *expr,
        ),
        Expr::Other { children, .. } => list_reports(children@),
    }
}

/// The spans the rule reports in the trees `es`, one tree after another.
pub open spec fn list_reports(es: Seq<Expr>) -> Seq<Span>
    decreases es,
{
    if es.len() == 0 {
        Seq::empty()
    } else {
        list_reports(es.drop_last()) + expr_reports(es.last())
    }
}

/// The diagnostics the rule records for a module.
pub open spec fn module_diagnostics(m: Module) -> Seq<(Span, Seq<char>, Seq<char>)> {
    diagnostics_of(list_reports(m.body@))
}

/// Whether `e` holds a non-null assertion anywhere in it.
pub open spec fn has_assertion(e: Expr) -> bool
    decreases e,
{
    match e {
        Expr::OptChain { base, .. } => has_assertion(*base),
        Expr::Member { obj, prop, .. } => has_assertion(*obj) || has_assertion(*prop),
        Expr::Call { callee, args, .. } => has_assertion(*callee) || list_has_assertion(args@),
        Expr::Paren { expr, .. } => has_assertion(*expr),
        Expr::NonNull { .. } => true,
        Expr::Other { children, .. } => list_has_assertion(children@),
    }
}

/// Whether any of the trees `es` holds a non-null assertion.
pub open spec fn list_has_assertion(es: Seq<Expr>) -> bool
    decreases es,
{
    if es.len() == 0 {
        false
    } else {
        list_has_assertion(es.drop_last()) || has_assertion(es.last())
    }
}

/// Whether the operand `e` of an assertion comes straight from an optional
/// chain: it is one, it is a member access or a call made on one, or it
/// is such an expression in parentheses.
pub open spec fn wraps_opt_chain(e: Expr) -> bool
    decreases e,
{
    match e {
        Expr::OptChain { .. } => true,
        Expr::Member { obj, .. } => *obj is OptChain,
        Expr::Call { callee, .. } => *callee is OptChain,
        Expr::Paren { expr, .. } => wraps_opt_chain(*expr),
        _ => false,
    }
}

proof fn lemma_diagnostics_of_concat(a: Seq<Span>, b: Seq<Span>)
    ensures
        diagnostics_of(a + b) == diagnostics_of(a) + diagnostics_of(b),
{
    assert(diagnostics_of(a + b) =~= diagnostics_of(a) + diagnostics_of(b));
}


/// An assertion raises exactly one diagnostic when its operand comes
/// straight from an optional chain, and none otherwise.
pub proof fn lemma_assertion_reports(e: Expr)
    ensures
        assertion_reports(e) == (if wraps_opt_chain(e) {
            1nat
        } else {
            0nat
        }),
    decreases e,
{
    if let Expr::Paren { expr, .. } = e {
        lemma_assertion_reports(*expr);
    }
}

/// An assertion on an optional chain (`a?.b!`) raises exactly one
/// diagnostic, at the assertion's span, besides those of its operand.
pub proof fn law_asserted_chain(span: Span, e: Expr)
    requires
        e is OptChain,
    ensures
        expr_reports(Expr::NonNull { span, expr: Box::new(e) }) == seq![span] + expr_reports(e),
{
    assert(repeat_span(span, 1) =~= seq![span]);
}

/// An assertion on a member access whose object is an optional chain
/// raises a diagnostic at the assertion's span.
pub proof fn law_asserted_member_of_chain(span: Span, member_span: Span, obj: Expr, prop: Expr)
    requires
        obj is OptChain,
    ensures
        ({
            let e = Expr::Member { span: member_span, obj: Box::new(obj), prop: Box::new(prop) };
            expr_reports(Expr::NonNull { span, expr: Box::new(e) }) == seq![span] + expr_reports(e)
        }),
{
    assert(repeat_span(span, 1) =~= seq![span]);
}

/// An assertion on a call whose callee is an optional chain raises a
/// diagnostic at the assertion's span.
pub proof fn law_asserted_call_of_chain(span: Span, call_span: Span, callee: Expr, args: Vec<Expr>)
    requires
        callee is OptChain,
    ensures
        ({
            let e = Expr::Call { span: call_span, callee: Box::new(callee), args };
            expr_reports(Expr::NonNull { span, expr: Box::new(e) }) == seq![span] + expr_reports(e)
        }),
{
    assert(repeat_span(span, 1) =~= seq![span]);
}

/// An assertion on a parenthesized optional chain (`(a?.b)!`) raises a
/// diagnostic at the assertion's span.
pub proof fn law_asserted_paren_chain(span: Span, paren_span: Span, inner: Expr)
    requires
        inner is OptChain,
    ensures
        ({
            let e = Expr::Paren { span: paren_span, expr: Box::new(inner) };
            expr_reports(Expr::NonNull { span, expr: Box::new(e) }) == seq![span] + expr_reports(e)
        }),
{
    let e = Expr::Paren { span: paren_span, expr: Box::new(inner) };
    assert(assertion_reports(inner) == 1);
    assert(assertion_reports(e) == 1);
    assert(repeat_span(span, 1) =~= seq![span]);
}

/// An assertion whose operand does not come from an optional chain, such
/// as a plain member access or a plain call, raises nothing of its own.
pub proof fn law_assertion_without_chain(span: Span, e: Expr)
    requires
        !wraps_opt_chain(e),
    ensures
        expr_reports(Expr::NonNull { span, expr: Box::new(e) }) == expr_reports(e),
{
    lemma_assertion_reports(e);
    assert(repeat_span(span, 0) + expr_reports(e) =~= expr_reports(e));
}

/// A tree without non-null assertions, optional chains in it or not, gets
/// no diagnostic.
pub proof fn law_no_assertion_no_report(e: Expr)
    requires
        !has_assertion(e),
    ensures
        expr_reports(e) == Seq::<Span>::empty(),
    decreases e, 1nat,
{
    match e {
        Expr::OptChain { base, .. } => law_no_assertion_no_report(*base),
        Expr::Member { obj, prop, .. } => {
            law_no_assertion_no_report(*obj);
            law_no_assertion_no_report(*prop);
            assert(expr_reports(e) =~= Seq::<Span>::empty());
        },
        Expr::Call { callee, args, .. } => {
            law_no_assertion_no_report(*callee);
            law_no_assertion_in_list(args@);
            assert(expr_reports(e) =~= Seq::<Span>::empty());
        },
        Expr::Paren { expr, .. } => law_no_assertion_no_report(*expr),
        Expr::NonNull { .. } => {},
        Expr::Other { children, .. } => law_no_assertion_in_list(children@),
    }
}

/// Trees without non-null assertions get no diagnostic.
pub proof fn law_no_assertion_in_list(es: Seq<Expr>)
    requires
        !list_has_assertion(es),
    ensures
        list_reports(es) == Seq::<Span>::empty(),
    decreases es, 0nat,
{
    if es.len() > 0 {
        law_no_assertion_in_list(es.drop_last());
        law_no_assertion_no_report(es.last());
        assert(list_reports(es) =~= Seq::<Span>::empty());
    }
}

/// Two walks of one module, each into a sink of its own that starts empty,
/// leave the two sinks holding the same diagnostics: what a walk reports
/// depends on the tree alone.
pub proof fn law_walks_agree(
    m: Module,
    first: Seq<(Span, Seq<char>, Seq<char>)>,
    second: Seq<(Span, Seq<char>, Seq<char>)>,
)
    requires
        first == Seq::<(Span, Seq<char>, Seq<char>)>::empty() + module_diagnostics(m),
        second == Seq::<(Span, Seq<char>, Seq<char>)>::empty() + module_diagnostics(m),
    ensures
        first == second,
        first == module_diagnostics(m),
{
    assert(first =~= module_diagnostics(m));
}

/// The rule: its code, and a lint run over one module.
#[derive(Clone, Copy, Debug, PartialEq, Eq, Structural)]
pub struct NoNonNullAssertedOptionalChain;

impl NoNonNullAssertedOptionalChain {
    /// A fresh instance of the rule; it has no options.
    pub fn new() -> (r: Box<Self>)
        ensures
            *r == NoNonNullAssertedOptionalChain,
    {
        Box::new(NoNonNullAssertedOptionalChain)
    }

    /// The rule's code.
    pub fn code(&self) -> (r: &'static str)
        ensures
            r@ == CODE@,
    {
        CODE
    }

    /// Walks `module` with a fresh visitor and records what it reports in
    /// `context`, after the diagnostics already there.
    pub fn lint_module(&self, context: &mut Context, module: &Module)
        ensures
            final(context)@ == old(context)@ + module_diagnostics(*module),
    {
        let mut visitor = NoNonNullAssertedOptionalChainVisitor::new(Context::new());
        std::mem::swap(&mut visitor.context, context);
        visitor.visit_module(module);
        std::mem::swap(&mut visitor.context, context);
    }
}

/// Walks a tree and reports into the context it owns.
pub struct NoNonNullAssertedOptionalChainVisitor {
    pub context: Context,
}

impl NoNonNullAssertedOptionalChainVisitor {
    /// A visitor that reports into `context`.
    pub fn new(context: Context) -> (r: Self)
        ensures
            r.context@ == context@,
    {
        Self { context }
    }

    fn add_diagnostic(&mut self, span: Span)
        ensures
            final(self).context@ == old(self).context@.push(diagnostic_at(span)),
    {
        self.context.add_diagnostic(span, CODE, MESSAGE);
    }

    fn check_expr_for_nested_optional_assert(&mut self, span: Span, expr: &Expr)
        ensures
            final(self).context@ == old(self).context@ + diagnostics_of(
                repeat_span(span, chain_count(*expr)),
            ),
    {
        if expr.is_opt_chain() {
            self.add_diagnostic(span);
            assert(diagnostics_of(repeat_span(span, 1)) =~= seq![diagnostic_at(span)]);
        } else {
            assert(diagnostics_of(repeat_span(span, 0)) =~= Seq::empty());
        }
    }

    /// Handles one non-null assertion `expr!` found at `span`: records the
    /// diagnostics it raises, all at `span`.
    pub fn visit_ts_non_null_expr(&mut self, span: Span, expr: &Expr)
        ensures
            final(self).context@ == old(self).context@ + diagnostics_of(
                repeat_span(span, assertion_reports(*expr)),
            ),
        decreases expr,
    {
        let ghost start = self.context@;
        match expr {
            Expr::Member { obj, .. } => self.check_expr_for_nested_optional_assert(span, obj),
            Expr::Call { callee, .. } => self.check_expr_for_nested_optional_assert(span, callee),
            Expr::Paren { expr: inner, .. } => self.visit_ts_non_null_expr(span, inner),
            _ => {},
        }
        let ghost by_shape = shape_reports(*expr);
        assert(self.context@ =~= start + diagnostics_of(repeat_span(span, by_shape)));
        self.check_expr_for_nested_optional_assert(span, expr);
        proof {
            let n = assertion_reports(*expr);
            assert(repeat_span(span, n) =~= repeat_span(span, by_shape) + repeat_span(
                span,
                chain_count(*expr),
            ));
            lemma_diagnostics_of_concat(
                repeat_span(span, by_shape),
                repeat_span(span, chain_count(*expr)),
            );
            assert(self.context@ =~= start + diagnostics_of(repeat_span(span, n)));
        }
    }

    /// Walks the tree `e`, handling each non-null assertion in it before
    /// the sub-expressions of that assertion.
    pub fn visit_expr(&mut self, e: &Expr)
        ensures
            final(self).context@ == old(self).context@ + diagnostics_of(expr_reports(*e)),
        decreases e,
    {
        let ghost start = self.context@;
        match e {
            Expr::OptChain { base, .. } => self.visit_expr(base),
            Expr::Member { obj, prop, .. } => {
                self.visit_expr(obj);
                self.visit_expr(prop);
                proof {
                    lemma_diagnostics_of_concat(expr_reports(**obj), expr_reports(**prop));
                    assert(self.context@ =~= start + diagnostics_of(expr_reports(*e)));
                }
            },
            Expr::Call { callee, args, .. } => {
                self.visit_expr(callee);
                self.visit_exprs(args);
                proof {
                    lemma_diagnostics_of_concat(expr_reports(**callee), list_reports(args@));
                    assert(self.context@ =~= start + diagnostics_of(expr_reports(*e)));
                }
            },
            Expr::Paren { expr, .. } => self.visit_expr(expr),
            Expr::NonNull { span, expr } => {
                self.visit_ts_non_null_expr(*span, expr);
                self.visit_expr(expr);
                proof {
                    lemma_diagnostics_of_concat(
                        repeat_span(*span, assertion_reports(**expr)),
                        expr_reports(**expr),
                    );
                    assert(self.context@ =~= start + diagnostics_of(expr_reports(*e)));
                }
            },
            Expr::Other { children, .. } => self.visit_exprs(children),
        }
    }

    fn visit_exprs(&mut self, es: &Vec<Expr>)
        ensures
            final(self).context@ == old(self).context@ + diagnostics_of(list_reports(es@)),
        decreases es,
    {
        let ghost start = self.context@;
        let mut i: usize = 0;
        assert(es@.take(0) =~= Seq::<Expr>::empty());
        assert(self.context@ =~= start + diagnostics_of(list_reports(es@.take(0))));
        while i < es.len()
            invariant
                i <= es.len(),
                self.context@ == start + diagnostics_of(list_reports(es@.take(i as int))),
            decreases es.len() - i,
        {
            proof {
                vstd::std_specs::vec::axiom_vec_index_decreases(*es, i as int);
            }
            self.visit_expr(&es[i]);
            proof {
                let next = es@.take(i + 1);
                assert(next.drop_last() =~= es@.take(i as int));
                assert(next.last() == es@[i as int]);
                lemma_diagnostics_of_concat(
                    list_reports(es@.take(i as int)),
                    expr_reports(es@[i as int]),
                );
                assert(self.context@ =~= start + diagnostics_of(list_reports(next)));
            }
            i = i + 1;
        }
        assert(es@.take(es.len() as int) =~= es@);
    }

    /// Walks every top-level statement of `m`, in order.
    pub fn visit_module(&mut self, m: &Module)
        ensures
            final(self).context@ == old(self).context@ + module_diagnostics(*m),
    {
        self.visit_exprs(&m.body);
    }
}

} // verus!
