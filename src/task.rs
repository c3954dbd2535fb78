use vstd::prelude::*;
use crate::action::ActionKind;

verus! {

/// Milliseconds between two looks at a task that is being awaited.
pub const POLL_INTERVAL_MS: u64 = 1000;

/// What a waiter does next.
#[derive(PartialEq, Eq, Structural, Clone, Copy, Debug)]
pub enum WaitStep {
    /// The awaited task has finished, or there is nothing to await.
    Done,
    /// Suspend for this many milliseconds, then look again.
    Sleep(u64),
}

/// The step a waiter takes after observing whether its task has finished.
pub open spec fn wait_step_spec(finished: bool) -> WaitStep {
    if finished {
        WaitStep::Done
    } else {
        WaitStep::Sleep(POLL_INTERVAL_MS)
    }
}

/// Polling decision: stop once the task is finished, else sleep one interval.
pub fn wait_step(finished: bool) -> (r: WaitStep)
    ensures
        r == wait_step_spec(finished),
{
    if finished {
        WaitStep::Done
    } else {
        WaitStep::Sleep(POLL_INTERVAL_MS)
    }
}

/// One spawned lifecycle operation: its action, the identity of the spawn,
/// and whether it has finished.
pub struct ObjTask {
    pub kind: ActionKind,
    pub id: u64,
    pub finished: bool,
}

impl ObjTask {
    /// A handle for the spawn `id`, which has just started running.
    pub fn new(kind: ActionKind, id: u64) -> (r: ObjTask)
        ensures
            r == (ObjTask { kind, id, finished: false }),
    {
        ObjTask { kind, id, finished: false }
    }

    pub fn is_finished(&self) -> (r: bool)
        ensures
            r == self.finished,
    {
        self.finished
    }

    /// The next step of a wait on this handle.
    pub fn wait(&self) -> (r: WaitStep)
        ensures
            r == wait_step_spec(self.finished),
    {
        wait_step(self.finished)
    }

    /// An equal copy of this handle: it names the same spawn.
    pub fn duplicate(&self) -> (r: ObjTask)
        ensures
            r == *self,
    {
        ObjTask { kind: self.kind.duplicate(), id: self.id, finished: self.finished }
    }
}

} // verus!
