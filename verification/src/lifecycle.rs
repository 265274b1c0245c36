use vstd::prelude::*;

verus! {

/// The teardown-relevant state of a tailer handle: whether it still owns the
/// spawned child process. The front end keeps this beside the process handle
/// itself and consults it on every teardown path.
pub struct ProcessOwnership {
    /// Whether the child process is still owned and must be reclaimed.
    pub held: bool,
}

/// The state a teardown step leaves behind: ownership is cleared whatever it
/// was before.
pub open spec fn after_release(o: ProcessOwnership) -> ProcessOwnership {
    ProcessOwnership { held: false }
}

/// Whether a teardown step from state `o` must issue a kill.
pub open spec fn must_kill(o: ProcessOwnership) -> bool {
    o.held
}

impl ProcessOwnership {
    /// A fresh handle owns its child process.
    pub fn new() -> (o: Self)
        ensures
            o.held,
    {
        ProcessOwnership { held: true }
    }

    /// Decide one teardown step: the caller must kill and reap the child
    /// exactly when it was still owned, and ownership is cleared so that
    /// repeated teardown attempts are no-ops.
    pub fn release(&mut self) -> (kill: bool)
        ensures
            *final(self) == after_release(*old(self)),
            kill == must_kill(*old(self)),
    {
        let kill = self.held;
        self.held = false;
        kill
    }
}

/// Cleanup runs at most once: whatever state a teardown step starts from,
/// the state it leaves behind demands no further kill.
pub proof fn lemma_release_runs_once(o: ProcessOwnership)
    ensures
        !must_kill(after_release(o)),
{
}

} // verus!
