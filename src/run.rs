use vstd::prelude::*;

verus! {

/// The steps of one backup run. Detection of changes belongs to `Enumerate`,
/// which ends with the run's plan.
#[derive(Clone, Copy, Debug, PartialEq, Eq, Structural)]
pub enum RunStep {
    /// Collect and fingerprint the candidates, then plan the run.
    Enumerate,
    /// Rebuild the archive from the mirror's copies of the changed files.
    Rotate,
    /// Copy every candidate into the mirror.
    Mirror,
    /// Write the checksum store.
    PersistChecksums,
    /// Write the tracking record.
    PersistTracking,
    /// The run finished.
    Done,
    /// A step failed; nothing more is done.
    Failed,
}

/// The step after `step`: a failure ends the run; the archive is rotated only
/// when something changed; the mirror is updated before anything is persisted,
/// and the checksum store before the tracking record.
pub open spec fn next_step_spec(step: RunStep, succeeded: bool, changes: bool) -> RunStep {
    match step {
        RunStep::Done => RunStep::Done,
        RunStep::Failed => RunStep::Failed,
        _ => if !succeeded {
            RunStep::Failed
        } else {
            match step {
                RunStep::Enumerate => if changes {
                    RunStep::Rotate
                } else {
                    RunStep::Mirror
                },
                RunStep::Rotate => RunStep::Mirror,
                RunStep::Mirror => RunStep::PersistChecksums,
                RunStep::PersistChecksums => RunStep::PersistTracking,
                _ => RunStep::Done,
            }
        },
    }
}

/// The step that follows `step`, given whether it succeeded and whether the
/// run's plan found changes.
pub fn next_step(step: RunStep, succeeded: bool, changes: bool) -> (r: RunStep)
    ensures
        r == next_step_spec(step, succeeded, changes),
{
    match step {
        RunStep::Done => RunStep::Done,
        RunStep::Failed => RunStep::Failed,
        _ => {
            if !succeeded {
                RunStep::Failed
            } else {
                match step {
                    RunStep::Enumerate => if changes {
                        RunStep::Rotate
                    } else {
                        RunStep::Mirror
                    },
                    RunStep::Rotate => RunStep::Mirror,
                    RunStep::Mirror => RunStep::PersistChecksums,
                    RunStep::PersistChecksums => RunStep::PersistTracking,
                    _ => RunStep::Done,
                }
            }
        },
    }
}

} // verus!
