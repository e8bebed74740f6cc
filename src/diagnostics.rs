//! The sink that a rule reports into.

use vstd::prelude::*;
use crate::ast::Span;

verus! {

broadcast use vstd::string::to_string_from_display_ensures_for_str;

/// One finding: where it is, which rule raised it, and what it says.
pub struct Diagnostic {
    pub span: Span,
    pub code: String,
    pub message: String,
}

impl View for Diagnostic {
    type V = (Span, Seq<char>, Seq<char>);

    open spec fn view(&self) -> (Span, Seq<char>, Seq<char>) {
        (self.span, self.code@, self.message@)
    }
}

/// Collects the diagnostics of one lint run, in the order they were added.
pub struct Context {
    pub diagnostics: Vec<Diagnostic>,
}

impl View for Context {
    type V = Seq<(Span, Seq<char>, Seq<char>)>;

    open spec fn view(&self) -> Seq<(Span, Seq<char>, Seq<char>)> {
        self.diagnostics@.map_values(|d: Diagnostic| d@)
    }
}

impl Context {
    /// A sink that holds no diagnostics yet.
    pub fn new() -> (r: Context)
        ensures
            r@ == Seq::<(Span, Seq<char>, Seq<char>)>::empty(),
    {
        let r = Context { diagnostics: Vec::new() };
        assert(r@ =~= Seq::<(Span, Seq<char>, Seq<char>)>::empty());
        r
    }

    /// Records one diagnostic after those already held.
    pub fn add_diagnostic(&mut self, span: Span, code: &str, message: &str)
        ensures
            final(self)@ == old(self)@.push((span, code@, message@)),
    {
        let d = Diagnostic { span, code: code.to_string(), message: message.to_string() };
        self.diagnostics.push(d);
        assert(self@ =~= old(self)@.push((span, code@, message@)));
    }

    /// How many diagnostics have been recorded.
    pub fn len(&self) -> (r: usize)
        ensures
            r == self@.len(),
    {
        self.diagnostics.len()
    }
}

} // verus!
