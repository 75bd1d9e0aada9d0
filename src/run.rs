use vstd::prelude::*;

verus! {

/// The phases of a migration run, in their fixed order.
#[derive(Debug, Clone, Copy, PartialEq, Eq, Structural)]
pub enum Phase {
    /// Checking the settings, the rename rule first; no call to a store yet.
    Configure,
    /// Listing the source keys.
    Enumerate,
    /// Creating the keys in the destination account.
    Provision,
    /// Attaching the created keys to the destination usage plan.
    Attach,
    /// Deleting the source keys, best effort.
    Delete,
    Finished,
    Failed,
}

/// The phase that follows `phase` once it ended, successfully or not, in a
/// run that attaches keys to a plan when `attach` holds and deletes the
/// source keys when `delete` holds. Every phase but deletion fails the run;
/// a deletion, whatever its replies, ends it.
pub open spec fn phase_after(phase: Phase, succeeded: bool, attach: bool, delete: bool) -> Phase {
    match phase {
        Phase::Configure => if succeeded {
            Phase::Enumerate
        } else {
            Phase::Failed
        },
        Phase::Enumerate => if succeeded {
            Phase::Provision
        } else {
            Phase::Failed
        },
        Phase::Provision => if !succeeded {
            Phase::Failed
        } else if attach {
            Phase::Attach
        } else if delete {
            Phase::Delete
        } else {
            Phase::Finished
        },
        Phase::Attach => if !succeeded {
            Phase::Failed
        } else if delete {
            Phase::Delete
        } else {
            Phase::Finished
        },
        Phase::Delete => Phase::Finished,
        Phase::Finished => Phase::Finished,
        Phase::Failed => Phase::Failed,
    }
}

/// The phase reached from `phase` after phases that ended as `results` tell.
pub open spec fn phase_after_all(phase: Phase, results: Seq<bool>, attach: bool, delete: bool) -> Phase
    decreases results.len(),
{
    if results.len() == 0 {
        phase
    } else {
        phase_after_all(phase_after(phase, results[0], attach, delete), results.drop_first(), attach, delete)
    }
}

/// Whether the phase makes calls to a store.
pub open spec fn calls_store(phase: Phase) -> bool {
    phase is Enumerate || phase is Provision || phase is Attach || phase is Delete
}

/// The phase that follows `phase`.
pub fn next_phase(phase: Phase, succeeded: bool, attach: bool, delete: bool) -> (r: Phase)
    ensures
        r == phase_after(phase, succeeded, attach, delete),
{
    match phase {
        Phase::Configure => if succeeded {
            Phase::Enumerate
        } else {
            Phase::Failed
        },
        Phase::Enumerate => if succeeded {
            Phase::Provision
        } else {
            Phase::Failed
        },
        Phase::Provision => if !succeeded {
            Phase::Failed
        } else if attach {
            Phase::Attach
        } else if delete {
            Phase::Delete
        } else {
            Phase::Finished
        },
        Phase::Attach => if !succeeded {
            Phase::Failed
        } else if delete {
            Phase::Delete
        } else {
            Phase::Finished
        },
        Phase::Delete => Phase::Finished,
        Phase::Finished => Phase::Finished,
        Phase::Failed => Phase::Failed,
    }
}

/// A failed run stays failed: after it no phase calls a store.
pub proof fn lemma_failed_run_stays_failed(results: Seq<bool>, attach: bool, delete: bool)
    ensures
        phase_after_all(Phase::Failed, results, attach, delete) == Phase::Failed,
    decreases results.len(),
{
    if results.len() > 0 {
        lemma_failed_run_stays_failed(results.drop_first(), attach, delete);
    }
}

/// When the settings are refused (an invalid rename pattern), the run fails
/// before any phase that calls a store, and never reaches one.
pub proof fn lemma_refused_settings_call_nothing(results: Seq<bool>, attach: bool, delete: bool)
    ensures
        phase_after(Phase::Configure, false, attach, delete) == Phase::Failed,
        !calls_store(phase_after_all(Phase::Failed, results, attach, delete)),
{
    lemma_failed_run_stays_failed(results, attach, delete);
}

/// When creating keys fails, the run fails and never reaches the attaching
/// or the deletion.
pub proof fn lemma_failed_provisioning_stops_run(results: Seq<bool>, attach: bool, delete: bool)
    ensures
        phase_after_all(phase_after(Phase::Provision, false, attach, delete), results, attach, delete)
            == Phase::Failed,
{
    lemma_failed_run_stays_failed(results, attach, delete);
}

} // verus!
