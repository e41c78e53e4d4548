//! A model of the global mutual-exclusion guard that protects every shared
//! peripheral handle.
//!
//! On the target hardware the guard is interrupt masking: a critical section
//! begins by disabling interrupt delivery and ends by restoring it. The model
//! records every acquisition and release in a ghost trace and admits an
//! acquisition only while the guard is free, so critical sections are strictly
//! non-reentrant. [`lemma_critical_sections_disjoint`] states the law that
//! follows: two critical sections never overlap, so no two execution contexts
//! ever observe a mutable borrow of a guarded value at the same time.

use vstd::prelude::*;

verus! {

/// One recorded action on the global critical-section guard.
#[derive(Clone, Copy, PartialEq, Eq, Structural, Debug)]
pub enum GuardEvent {
    /// Interrupt delivery was masked: a critical section begins.
    Acquire,
    /// Interrupt delivery was restored: the critical section ends.
    Release,
}

/// Number of acquisitions minus releases over a trace of guard events.
pub open spec fn depth(trace: Seq<GuardEvent>) -> int
    decreases trace.len(),
{
    if trace.len() == 0 {
        0
    } else if trace.last() is Acquire {
        depth(trace.drop_last()) + 1
    } else {
        depth(trace.drop_last()) - 1
    }
}

/// A trace is well formed when every prefix keeps the guard depth at 0 or 1:
/// the guard is never acquired while held and never released while free.
pub open spec fn wf_trace(trace: Seq<GuardEvent>) -> bool {
    forall|i: int| 0 <= i <= trace.len() ==> 0 <= #[trigger] depth(trace.subrange(0, i)) <= 1
}

/// Appending an event that respects the current depth keeps a trace well formed.
proof fn lemma_wf_extend(trace: Seq<GuardEvent>, e: GuardEvent)
    requires
        wf_trace(trace),
        e is Acquire ==> depth(trace) == 0,
        e is Release ==> depth(trace) == 1,
    ensures
        wf_trace(trace.push(e)),
        depth(trace.push(e)) == depth(trace) + (if e is Acquire {
            1int
        } else {
            -1int
        }),
{
    let t2 = trace.push(e);
    assert(t2.drop_last() =~= trace);
    assert forall|i: int| 0 <= i <= t2.len() implies 0 <= #[trigger] depth(
        t2.subrange(0, i),
    ) <= 1 by {
        if i <= trace.len() {
            assert(t2.subrange(0, i) =~= trace.subrange(0, i));
            assert(0 <= depth(trace.subrange(0, i)) <= 1);
        } else {
            assert(t2.subrange(0, i) =~= t2);
        }
    }
}

/// The depth of a prefix changes by one at each event, up for an acquisition
/// and down for a release.
proof fn lemma_depth_step(trace: Seq<GuardEvent>, i: int)
    requires
        0 <= i < trace.len(),
    ensures
        depth(trace.subrange(0, i + 1)) == depth(trace.subrange(0, i)) + (if trace[i] is Acquire {
            1int
        } else {
            -1int
        }),
{
    let p = trace.subrange(0, i + 1);
    assert(p.drop_last() =~= trace.subrange(0, i));
    assert(p.last() == trace[i]);
}

/// Law: critical sections never overlap. In a well-formed trace, between any
/// two acquisitions there is a release, so the section opened by the first
/// acquisition has ended before the second begins. Every mutable view of a
/// guarded value lives inside one such section, so no two mutable views are
/// ever live at once.
pub proof fn lemma_critical_sections_disjoint(trace: Seq<GuardEvent>, i: int, j: int)
    requires
        wf_trace(trace),
        0 <= i < j < trace.len(),
        trace[i] is Acquire,
        trace[j] is Acquire,
    ensures
        exists|k: int| i < k < j && trace[k] is Release,
{
    // The acquisition at j steps the depth up, and well-formedness bounds both
    // sides, so the depth just before j is 0.
    lemma_depth_step(trace, j);
    assert(0 <= depth(trace.subrange(0, j)) <= 1);
    assert(0 <= depth(trace.subrange(0, j + 1)) <= 1);
    assert(depth(trace.subrange(0, j)) == 0);
    // The event before j must step the depth down to 0: a release.
    lemma_depth_step(trace, j - 1);
    assert(0 <= depth(trace.subrange(0, j - 1)) <= 1);
    assert(trace[j - 1] is Release);
    // It is not the acquisition at i, so it lies strictly between i and j.
    assert(i < j - 1 < j && trace[j - 1] is Release);
}

/// The global mutual-exclusion guard.
///
/// Initialization and every interrupt entry point share one such guard. Its
/// acquisitions are recorded in a ghost trace; acquiring demands that the
/// guard is free, which keeps the trace well formed.
pub struct InterruptGuard {
    held: bool,
    trace: Ghost<Seq<GuardEvent>>,
}

impl InterruptGuard {
    /// The recorded trace of guard events.
    pub closed spec fn trace(&self) -> Seq<GuardEvent> {
        self.trace@
    }

    /// Whether the guard is currently held.
    pub closed spec fn is_held(&self) -> bool {
        self.held
    }

    /// The recorded trace is well formed and agrees with the held flag.
    pub closed spec fn wf(&self) -> bool {
        &&& wf_trace(self.trace@)
        &&& self.held == (depth(self.trace@) == 1)
    }

    /// A fresh guard: free, with an empty trace.
    pub fn new() -> (g: Self)
        ensures
            g.wf(),
            !g.is_held(),
            g.trace() == Seq::<GuardEvent>::empty(),
    {
        InterruptGuard { held: false, trace: Ghost(Seq::empty()) }
    }

    /// Enter the critical section. Non-reentrant: the guard must be free.
    pub fn acquire(&mut self)
        requires
            old(self).wf(),
            !old(self).is_held(),
        ensures
            final(self).wf(),
            final(self).is_held(),
            final(self).trace() == old(self).trace().push(GuardEvent::Acquire),
    {
        proof {
            assert(self.trace@.subrange(0, self.trace@.len() as int) =~= self.trace@);
            lemma_wf_extend(self.trace@, GuardEvent::Acquire);
        }
        self.held = true;
        self.trace = Ghost(self.trace@.push(GuardEvent::Acquire));
    }

    /// Leave the critical section. The guard must be held.
    pub fn release(&mut self)
        requires
            old(self).wf(),
            old(self).is_held(),
        ensures
            final(self).wf(),
            !final(self).is_held(),
            final(self).trace() == old(self).trace().push(GuardEvent::Release),
    {
        proof {
            assert(self.trace@.subrange(0, self.trace@.len() as int) =~= self.trace@);
            lemma_wf_extend(self.trace@, GuardEvent::Release);
        }
        self.held = false;
        self.trace = Ghost(self.trace@.push(GuardEvent::Release));
    }

    /// Whether the guard is currently held, as a run-time query.
    pub fn holds(&self) -> (r: bool)
        ensures
            r == self.is_held(),
    {
        self.held
    }
}

} // verus!
