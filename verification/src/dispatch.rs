//! The phase discipline of a synchronous compute dispatch: a command buffer
//! is recorded, submitted to the device queue, a fence signal is requested
//! and flushed, and control returns to the caller only after the fence has
//! signaled.

use vstd::prelude::*;

verus! {

/// The phase a compute dispatch is in.
#[derive(Clone, Copy, PartialEq, Eq, Structural, Debug)]
pub enum DispatchPhase {
    /// The caller-supplied operation produced a command buffer.
    Recorded,
    /// The command buffer was submitted to the device queue, with a fence
    /// signal requested and flushed.
    Submitted,
    /// The fence has signaled: the submitted work completed on the device.
    FenceSignaled,
    /// Control was returned to the caller.
    Completed,
}

/// Position of a phase in the dispatch order.
pub open spec fn phase_index(p: DispatchPhase) -> int {
    match p {
        DispatchPhase::Recorded => 0,
        DispatchPhase::Submitted => 1,
        DispatchPhase::FenceSignaled => 2,
        DispatchPhase::Completed => 3,
    }
}

/// One legal step of a dispatch: phases advance one at a time, in order.
pub open spec fn dispatch_step(a: DispatchPhase, b: DispatchPhase) -> bool {
    phase_index(b) == phase_index(a) + 1
}

/// A legal dispatch history: it starts with a recorded command buffer and
/// every later phase follows its predecessor by one legal step.
pub open spec fn valid_dispatch_trace(t: Seq<DispatchPhase>) -> bool {
    &&& t.len() > 0
    &&& t[0] == DispatchPhase::Recorded
    &&& forall|i: int| 0 <= i < t.len() - 1 ==> dispatch_step(t[i], #[trigger] t[i + 1])
}

/// In a legal dispatch history every phase sits at the position its order
/// gives it.
pub proof fn lemma_trace_phase_positions(t: Seq<DispatchPhase>, i: int)
    requires
        valid_dispatch_trace(t),
        0 <= i < t.len(),
    ensures
        phase_index(t[i]) == i,
    decreases i,
{
    if i > 0 {
        lemma_trace_phase_positions(t, i - 1);
        assert(dispatch_step(t[i - 1], t[(i - 1) + 1]));
    }
}

/// Control returns to the caller only after the fence signals: every legal
/// dispatch history that ends with control returned passed through the
/// fence-signaled phase strictly before its end.
pub proof fn lemma_completion_after_fence_signal(t: Seq<DispatchPhase>)
    requires
        valid_dispatch_trace(t),
        t.last() == DispatchPhase::Completed,
    ensures
        t.len() == 4,
        t[2] == DispatchPhase::FenceSignaled,
        exists|i: int| 0 <= i < t.len() - 1 && t[i] == DispatchPhase::FenceSignaled,
{
    lemma_trace_phase_positions(t, t.len() - 1);
    lemma_trace_phase_positions(t, 2);
    assert(t[2] == DispatchPhase::FenceSignaled);
}

/// One synchronous compute dispatch, tracking its phase and, as ghost state,
/// the history of phases it went through. The caller drives the transitions
/// as the driver acknowledges each step; the transition contracts make
/// returning before the fence signal unrepresentable.
pub struct ComputeDispatch {
    /// The phase the dispatch is in now.
    pub phase: DispatchPhase,
    /// Every phase the dispatch has been in, in order, ending with `phase`.
    pub history: Ghost<Seq<DispatchPhase>>,
}

impl ComputeDispatch {
    /// The dispatch's invariant: its history is a legal dispatch trace that
    /// ends in the current phase.
    pub open spec fn well_formed(self) -> bool {
        &&& valid_dispatch_trace(self.history@)
        &&& self.history@.last() == self.phase
    }

    /// Begins a dispatch: the caller-supplied operation returned a command
    /// buffer bound to the engine's state.
    pub fn record() -> (r: Self)
        ensures
            r.well_formed(),
            r.phase == DispatchPhase::Recorded,
            r.history@ =~= seq![DispatchPhase::Recorded],
    {
        let ghost h: Seq<DispatchPhase> = seq![DispatchPhase::Recorded];
        ComputeDispatch { phase: DispatchPhase::Recorded, history: Ghost(h) }
    }

    /// The command buffer was executed on the device queue and the fence
    /// signal was requested and flushed.
    pub fn submit(&mut self)
        requires
            old(self).well_formed(),
            old(self).phase == DispatchPhase::Recorded,
        ensures
            final(self).well_formed(),
            final(self).phase == DispatchPhase::Submitted,
            final(self).history@ =~= old(self).history@.push(DispatchPhase::Submitted),
    {
        let ghost h = self.history@;
        self.phase = DispatchPhase::Submitted;
        self.history = Ghost(h.push(DispatchPhase::Submitted));
    }

    /// The unbounded fence wait returned: the device finished the submitted
    /// work.
    pub fn fence_signaled(&mut self)
        requires
            old(self).well_formed(),
            old(self).phase == DispatchPhase::Submitted,
        ensures
            final(self).well_formed(),
            final(self).phase == DispatchPhase::FenceSignaled,
            final(self).history@ =~= old(self).history@.push(DispatchPhase::FenceSignaled),
    {
        let ghost h = self.history@;
        self.phase = DispatchPhase::FenceSignaled;
        self.history = Ghost(h.push(DispatchPhase::FenceSignaled));
    }

    /// Returns control to the caller. Only a dispatch whose fence has
    /// already signaled can complete.
    pub fn complete(&mut self)
        requires
            old(self).well_formed(),
            old(self).phase == DispatchPhase::FenceSignaled,
        ensures
            final(self).well_formed(),
            final(self).phase == DispatchPhase::Completed,
            final(self).history@ =~= old(self).history@.push(DispatchPhase::Completed),
    {
        let ghost h = self.history@;
        self.phase = DispatchPhase::Completed;
        self.history = Ghost(h.push(DispatchPhase::Completed));
    }
}

} // verus!
