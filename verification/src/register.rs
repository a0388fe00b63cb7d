//! The process-wide snapshot register the UI layer pushes timer state into.
//!
//! The register is a passive cache: it never derives or mutates fields on its
//! own, it only replaces the whole snapshot on a push and hands out whole
//! copies on a read. A ghost history of every pushed snapshot backs the
//! guarantee that a read can never mix fields from two different pushes.

use vstd::prelude::*;

use crate::status::TimerStatus;

verus! {

/// Shared timer state: the last snapshot the UI layer pushed, together with
/// a ghost record of every snapshot ever held. The embedding program shares
/// one value of this type between its update path and the bus service under
/// one short-held lock; each locked section calls exactly one method here.
pub struct SharedTimerState {
    status: TimerStatus,
    history: Ghost<Seq<TimerStatus>>,
}

impl SharedTimerState {
    /// The snapshot the register currently holds.
    pub closed spec fn current(self) -> TimerStatus {
        self.status
    }

    /// Every snapshot the register has held, oldest first. The built-in
    /// default counts as held from construction on.
    pub closed spec fn pushed(self) -> Seq<TimerStatus> {
        self.history@
    }

    /// The register always holds exactly the last snapshot of its history,
    /// and the history starts with the built-in default.
    pub open spec fn wf(self) -> bool {
        &&& self.pushed().len() > 0
        &&& self.pushed()[0] == TimerStatus::default_spec()
        &&& self.current() == self.pushed().last()
    }

    /// A fresh register holds the built-in default snapshot.
    pub fn new() -> (s: Self)
        ensures
            s.wf(),
            s.current() == TimerStatus::default_spec(),
            s.pushed() =~= seq![TimerStatus::default_spec()],
    {
        let ghost h: Seq<TimerStatus> = seq![TimerStatus::default_spec()];
        SharedTimerState { status: TimerStatus::default(), history: Ghost(h) }
    }

    /// Replaces the stored snapshot wholesale: last writer wins, no merge.
    pub fn update(
        &mut self,
        mode: crate::status::TimerMode,
        time_left: u32,
        is_active: bool,
        sessions_completed: u32,
    )
        ensures
            final(self).current() == (TimerStatus { mode, time_left, is_active, sessions_completed }),
            final(self).pushed() =~= old(self).pushed().push(final(self).current()),
            old(self).wf() ==> final(self).wf(),
    {
        let snapshot = TimerStatus { mode, time_left, is_active, sessions_completed };
        self.status = snapshot;
        proof {
            self.history@ = self.history@.push(snapshot);
        }
    }

    /// Returns a whole, consistent copy of the current snapshot.
    pub fn read(&self) -> (r: TimerStatus)
        ensures
            r == self.current(),
    {
        self.status
    }
}

/// Every read returns, in its entirety, a snapshot that was previously
/// pushed (the built-in default counts as pushed at construction): the
/// current snapshot is always an element of the push history, so no read
/// can observe fields mixed from two different pushes.
pub proof fn lemma_read_returns_pushed(s: SharedTimerState)
    requires
        s.wf(),
    ensures
        exists|i: int| 0 <= i < s.pushed().len() && s.pushed()[i] == s.current(),
{
    assert(s.pushed()[s.pushed().len() - 1] == s.current());
}

} // verus!
