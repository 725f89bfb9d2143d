//! The trace context: the per-execution-context state the tracers share.
//!
//! It holds the recursion depth of the traced invocations currently on
//! the stack, the process-wide resolved toggle, and the trace log.  One
//! context exists per independent parse; concurrent parses each thread
//! their own, so depth is never shared mutable state.
//!
//! Depth follows a scoped acquire/release discipline: entering a traced
//! invocation pushes a guard, and exactly one guard is popped when it
//! returns, on every exit path.  Depth is the number of guards held, so
//! it can never be negative.

use vstd::prelude::*;

use crate::event::TraceEvent;
use crate::toggle::Toggle;

verus! {

/// The witness of one entered, not yet returned, traced invocation.
pub struct DepthGuard {}

/// The state one execution context threads through its traced parsers.
pub struct TraceContext {
    pub guards: Vec<DepthGuard>,
    pub toggle: Toggle,
    pub log: Vec<TraceEvent>,
}

impl TraceContext {
    /// The current recursion depth: the number of traced invocations
    /// entered and not yet returned.  Never negative, by construction.
    pub open spec fn depth(&self) -> nat {
        self.guards@.len()
    }

    /// A fresh context at depth zero with an empty log.
    pub fn new(toggle: Toggle) -> (c: TraceContext)
        ensures
            c.depth() == 0,
            c.toggle == toggle,
            c.log@ == Seq::<TraceEvent>::empty(),
    {
        TraceContext { guards: Vec::new(), toggle, log: Vec::new() }
    }

    /// The depth as observed before any pending increment of the
    /// current invocation.
    pub fn current(&self) -> (d: usize)
        ensures
            d == self.depth(),
    {
        self.guards.len()
    }

    /// Acquires a depth scope: one more invocation is active.
    pub fn enter(&mut self)
        ensures
            final(self).depth() == old(self).depth() + 1,
            final(self).toggle == old(self).toggle,
            final(self).log == old(self).log,
    {
        self.guards.push(DepthGuard {});
    }

    /// Releases a depth scope: the invocation it was acquired for has
    /// returned.
    pub fn exit(&mut self)
        requires
            old(self).depth() > 0,
        ensures
            final(self).depth() == old(self).depth() - 1,
            final(self).toggle == old(self).toggle,
            final(self).log == old(self).log,
    {
        self.guards.pop();
    }

    /// Appends one event to the trace log.
    pub fn emit(&mut self, ev: TraceEvent)
        ensures
            final(self).log@ == old(self).log@.push(ev),
            final(self).depth() == old(self).depth(),
            final(self).toggle == old(self).toggle,
    {
        self.log.push(ev);
    }
}

} // verus!
