//! The shared diagnostic context: an append-only collection of error
//! reports, threaded by mutable reference through every conversion call of
//! one invocation.

use vstd::prelude::*;

verus! {

/// Why the override resolver rejected a node's directive.
#[derive(Clone, Copy, Debug, PartialEq, Eq, Structural)]
pub enum DiagKind {
    /// The directive's argument is not a legal target path.
    MalformedOverride,
    /// More than one override directive stands on the same node.
    ConflictingOverride,
}

/// One error report, tied to the identity of the original syntax node it
/// was found on, so that it can later be rendered at that node's location.
#[derive(Clone, Copy, Debug, PartialEq, Eq, Structural)]
pub struct Diagnostic {
    /// Identity of the original syntax node the error was found on.
    pub node: u64,
    /// What went wrong there.
    pub kind: DiagKind,
}

/// The diagnostic context.  Diagnostics are added, never removed or
/// reordered: every operation only pushes onto the end of the collection.
pub struct Ctxt {
    diagnostics: Vec<Diagnostic>,
}

impl View for Ctxt {
    type V = Seq<Diagnostic>;

    closed spec fn view(&self) -> Seq<Diagnostic> {
        self.diagnostics@
    }
}

impl Ctxt {
    /// A fresh context with no diagnostics.
    pub fn new() -> (c: Ctxt)
        ensures
            c@ == Seq::<Diagnostic>::empty(),
    {
        Ctxt { diagnostics: Vec::new() }
    }

    /// Record one diagnostic of kind `kind` at the node `node`; everything
    /// recorded before stays in place.
    pub fn error(&mut self, node: u64, kind: DiagKind)
        ensures
            final(self)@ == old(self)@.push(Diagnostic { node, kind }),
    {
        self.diagnostics.push(Diagnostic { node, kind });
    }

    /// How many diagnostics have been recorded so far.
    pub fn len(&self) -> (n: usize)
        ensures
            n == self@.len(),
    {
        self.diagnostics.len()
    }

    /// Whether no diagnostic has been recorded yet.
    pub fn is_empty(&self) -> (r: bool)
        ensures
            r == (self@.len() == 0),
    {
        self.diagnostics.len() == 0
    }

    /// The `i`-th diagnostic, in the order the diagnostics were recorded.
    pub fn get(&self, i: usize) -> (d: Diagnostic)
        requires
            i < self@.len(),
        ensures
            d == self@[i as int],
    {
        self.diagnostics[i]
    }
}

} // verus!
