//! The protocol that orders command submission against GPU completion.
//!
//! Each frame records commands, submits them, signals the fence with a fresh
//! value and may reuse the command allocator only once the fence has reached
//! that value. The caller performs the actions and reports what happened.
use vstd::prelude::*;

verus! {

/// Where the current frame stands.
#[derive(Clone, Copy, Debug, PartialEq, Eq, Structural)]
pub enum FramePhase {
    /// Commands may be recorded into the list.
    Recording,
    /// The fence has been signaled with this value; completion is unknown.
    Signaled(u64),
    /// A completion event for this value has been armed and is awaited.
    Waiting(u64),
}

/// What the caller reports.
#[derive(Clone, Copy, Debug, PartialEq, Eq, Structural)]
pub enum FenceEvent {
    /// The command list was closed and handed to the queue.
    Submitted,
    /// The fence reported this completed value.
    CompletedValue(u64),
    /// The armed completion event fired.
    EventFired,
}

/// What the caller is to do next.
#[derive(Clone, Copy, Debug, PartialEq, Eq, Structural)]
pub enum FenceAction {
    /// Signal the fence from the queue with this value, then read its
    /// completed value.
    Signal(u64),
    /// Arm a completion event for this value and block until it fires.
    WaitFor(u64),
    /// All submitted work is done: reset the allocator and the command list.
    Reset,
    /// The fence values are used up; nothing more can be submitted.
    Exhausted,
    /// The event does not belong to the current phase; nothing changed.
    Ignored,
}

/// The CPU side of a fence shared with one command queue.
#[derive(Clone, Copy, Debug, PartialEq, Eq, Structural)]
pub struct FrameFence {
    /// The last value the queue was asked to signal.
    pub signaled: u64,
    /// The largest value the fence is known to have reached.
    pub completed: u64,
    pub phase: FramePhase,
}

impl FrameFence {
    /// While recording, all signaled work has completed; while a frame is in
    /// flight, the value it awaits is the last one signaled.
    pub open spec fn wf(&self) -> bool {
        match self.phase {
            FramePhase::Recording => self.completed >= self.signaled,
            FramePhase::Signaled(v) => v == self.signaled,
            FramePhase::Waiting(v) => v == self.signaled,
        }
    }

    /// The state and the action that follow an event.
    pub open spec fn next(self, e: FenceEvent) -> (FrameFence, FenceAction) {
        match (self.phase, e) {
            (FramePhase::Recording, FenceEvent::Submitted) => {
                if self.signaled < u64::MAX {
                    let v = (self.signaled + 1) as u64;
                    (FrameFence { signaled: v, phase: FramePhase::Signaled(v), ..self }, FenceAction::Signal(v))
                } else {
                    (self, FenceAction::Exhausted)
                }
            },
            (FramePhase::Signaled(v), FenceEvent::CompletedValue(c)) => {
                let done = if c > self.completed { c } else { self.completed };
                if c >= v {
                    (FrameFence { completed: done, phase: FramePhase::Recording, ..self }, FenceAction::Reset)
                } else {
                    (FrameFence { completed: done, phase: FramePhase::Waiting(v), ..self }, FenceAction::WaitFor(v))
                }
            },
            (FramePhase::Waiting(v), FenceEvent::EventFired) => {
                let done = if v > self.completed { v } else { self.completed };
                (FrameFence { completed: done, phase: FramePhase::Recording, ..self }, FenceAction::Reset)
            },
            _ => (self, FenceAction::Ignored),
        }
    }

    /// A fence created with `initial` as its value, ready to record.
    pub fn new(initial: u64) -> (r: FrameFence)
        ensures
            r == (FrameFence { signaled: initial, completed: initial, phase: FramePhase::Recording }),
            r.wf(),
    {
        FrameFence { signaled: initial, completed: initial, phase: FramePhase::Recording }
    }

    /// Whether commands may be recorded now.
    pub fn is_recording(&self) -> (r: bool)
        ensures
            r == (self.phase == FramePhase::Recording),
    {
        match self.phase {
            FramePhase::Recording => true,
            _ => false,
        }
    }

    /// Takes in what happened and says what to do next.
    pub fn step(&mut self, e: FenceEvent) -> (r: FenceAction)
        ensures
            (*final(self), r) == old(self).next(e),
            old(self).wf() ==> final(self).wf(),
            old(self).wf() && r == FenceAction::Reset ==> final(self).completed >= final(self).signaled,
            r matches FenceAction::Signal(v) ==> v == old(self).signaled + 1 && v == final(self).signaled,
            final(self).completed >= old(self).completed,
            final(self).signaled >= old(self).signaled,
    {
        match (self.phase, e) {
            (FramePhase::Recording, FenceEvent::Submitted) => {
                if self.signaled < u64::MAX {
                    let v = self.signaled + 1;
                    self.signaled = v;
                    self.phase = FramePhase::Signaled(v);
                    FenceAction::Signal(v)
                } else {
                    FenceAction::Exhausted
                }
            },
            (FramePhase::Signaled(v), FenceEvent::CompletedValue(c)) => {
                if c > self.completed {
                    self.completed = c;
                }
                if c >= v {
                    self.phase = FramePhase::Recording;
                    FenceAction::Reset
                } else {
                    self.phase = FramePhase::Waiting(v);
                    FenceAction::WaitFor(v)
                }
            },
            (FramePhase::Waiting(v), FenceEvent::EventFired) => {
                if v > self.completed {
                    self.completed = v;
                }
                self.phase = FramePhase::Recording;
                FenceAction::Reset
            },
            _ => FenceAction::Ignored,
        }
    }
}

/// The state after handing `events` to `s` one after another.
pub open spec fn run(s: FrameFence, events: Seq<FenceEvent>) -> FrameFence
    decreases events.len(),
{
    if events.len() == 0 {
        s
    } else {
        run(s, events.drop_last()).next(events.last()).0
    }
}

/// The action answered to the `i`-th of `events`, starting from `s`.
pub open spec fn action_at(s: FrameFence, events: Seq<FenceEvent>, i: int) -> FenceAction {
    run(s, events.take(i)).next(events[i]).1
}

proof fn lemma_next(s: FrameFence, e: FenceEvent)
    ensures
        s.wf() ==> s.next(e).0.wf(),
        s.wf() && s.next(e).1 == FenceAction::Reset ==> s.next(e).0.completed >= s.next(e).0.signaled,
        s.next(e).1 matches FenceAction::Signal(v) ==> v == s.next(e).0.signaled && v > s.signaled,
        s.next(e).0.signaled >= s.signaled,
{
}

proof fn lemma_run_take(s: FrameFence, events: Seq<FenceEvent>, i: int)
    requires
        0 <= i < events.len(),
    ensures
        run(s, events.take(i + 1)) == run(s, events.take(i)).next(events[i]).0,
{
    assert(events.take(i + 1).drop_last() =~= events.take(i));
}

proof fn lemma_run_wf(s: FrameFence, events: Seq<FenceEvent>)
    requires
        s.wf(),
    ensures
        run(s, events).wf(),
    decreases events.len(),
{
    if events.len() > 0 {
        lemma_run_wf(s, events.drop_last());
        lemma_next(run(s, events.drop_last()), events.last());
    }
}

proof fn lemma_run_signaled_grows(s: FrameFence, events: Seq<FenceEvent>, i: int, j: int)
    requires
        0 <= i <= j <= events.len(),
    ensures
        run(s, events.take(i)).signaled <= run(s, events.take(j)).signaled,
    decreases j - i,
{
    if i < j {
        lemma_run_signaled_grows(s, events, i, j - 1);
        lemma_run_take(s, events, j - 1);
        lemma_next(run(s, events.take(j - 1)), events[j - 1]);
    }
}

/// Whatever events arrive, the allocator is reset only once the fence has
/// reached every value that was signaled before.
pub proof fn lemma_reset_only_after_completion(s: FrameFence, events: Seq<FenceEvent>, i: int)
    requires
        s.wf(),
        0 <= i < events.len(),
        action_at(s, events, i) == FenceAction::Reset,
    ensures
        run(s, events.take(i + 1)).completed >= run(s, events.take(i + 1)).signaled,
{
    lemma_run_wf(s, events.take(i));
    lemma_next(run(s, events.take(i)), events[i]);
    lemma_run_take(s, events, i);
}

/// Whatever events arrive, each value the fence is signaled with is larger
/// than every value signaled before it.
pub proof fn lemma_signal_values_increase(s: FrameFence, events: Seq<FenceEvent>, i: int, j: int)
    requires
        0 <= i < j < events.len(),
        action_at(s, events, i) is Signal,
        action_at(s, events, j) is Signal,
    ensures
        action_at(s, events, i)->Signal_0 < action_at(s, events, j)->Signal_0,
{
    lemma_next(run(s, events.take(i)), events[i]);
    lemma_run_take(s, events, i);
    lemma_run_signaled_grows(s, events, i + 1, j);
    lemma_next(run(s, events.take(j)), events[j]);
}

} // verus!
