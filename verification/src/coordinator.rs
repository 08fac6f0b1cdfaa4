//! Single-flight arbitration between the gesture path and the GUI path.
//!
//! After a successful arming gesture, two decision sources race to the
//! same coordinator: the confirm-gesture thread and the GUI dialog.
//! The shell serialises their calls under one mutex; each call is one
//! of the transitions below.  Whichever transition runs first on a
//! free coordinator wins the race and is the only one allowed to act;
//! every later transition observes the coordinator busy and does
//! nothing.  The busy flag stays set until [`BackupCoordinator::reset`]
//! is called explicitly: one decision is permitted per arming event,
//! and re-arming is an explicit, deliberate transition rather than an
//! accidental side effect of finishing a pass.

use vstd::prelude::*;

use crate::dialog::Choice;

verus! {

/// Whether an acquisition attempt on a coordinator with the given busy
/// flag wins the race.
pub open spec fn acquire_wins(busy: bool) -> bool {
    !busy
}

/// The busy flag after any acquisition attempt: always set.
pub open spec fn acquire_next(busy: bool) -> bool {
    true
}

/// The arbitration gate shared by the two decision paths.
pub struct BackupCoordinator {
    busy: bool,
}

impl BackupCoordinator {
    /// The coordinator's state: true once some path has claimed the
    /// decision for the current arming event.
    pub closed spec fn busy(&self) -> bool {
        self.busy
    }

    /// A fresh coordinator, created once per arming event.
    pub fn new() -> (c: BackupCoordinator)
        ensures
            !c.busy(),
    {
        BackupCoordinator { busy: false }
    }

    /// Whether some path has already claimed the decision.  The
    /// confirm gesture polls this as its cooperative cancellation
    /// flag.
    pub fn is_busy(&self) -> (r: bool)
        ensures
            r == self.busy(),
    {
        self.busy
    }

    /// Claim the right to run the backup pass.  Returns true exactly
    /// when this call won the race; the caller then runs the pass.
    /// A losing caller must perform no file work at all.
    pub fn run_if_free(&mut self) -> (won: bool)
        ensures
            won == acquire_wins(old(self).busy()),
            final(self).busy() == acquire_next(old(self).busy()),
    {
        let won = !self.busy;
        self.busy = true;
        won
    }

    /// Permit another decision: the explicit re-arming transition.
    pub fn reset(&mut self)
        ensures
            !final(self).busy(),
    {
        self.busy = false;
    }
}

/// Claim the decision without running a pass: the aborting path's
/// transition.  Returns true exactly when this call won the race and
/// the abort took effect.
pub fn abort_backup(coordinator: &mut BackupCoordinator) -> (aborted: bool)
    ensures
        aborted == acquire_wins(old(coordinator).busy()),
        final(coordinator).busy() == acquire_next(old(coordinator).busy()),
{
    let aborted = !coordinator.busy;
    coordinator.busy = true;
    aborted
}

/// Converge the GUI path's choice on the coordinator.  Returns true
/// exactly when the shell must now run a backup pass: the dialog
/// confirmed and this call won the race.  `No` claims the decision
/// without a pass; `CloseGui` reports that the gesture path already
/// decided and changes nothing.
pub fn resolve_choice(coordinator: &mut BackupCoordinator, choice: Choice) -> (run_pass: bool)
    ensures
        run_pass == (choice == Choice::Yes && acquire_wins(old(coordinator).busy())),
        final(coordinator).busy() == (old(coordinator).busy() || choice != Choice::CloseGui),
{
    match choice {
        Choice::Yes => coordinator.run_if_free(),
        Choice::No => {
            abort_backup(coordinator);
            false
        }
        Choice::CloseGui => false,
    }
}

/// Mutual exclusion of the two decision paths.
///
/// The mutex serialises two racing calls into some order; whatever
/// that order is, on a free coordinator the first call wins and the
/// second loses, so exactly one of the two acts.  Moreover no attempt
/// after any attempt can ever win again until an explicit reset.
pub proof fn lemma_single_flight()
    ensures
        acquire_wins(false),
        !acquire_wins(acquire_next(false)),
        forall|busy: bool| !acquire_wins(acquire_next(busy)),
{
}

} // verus!
