//! What the file system answered, and what follows from it.
//!
//! An asset that is not there is an ordinary answer and becomes control
//! flow. Every other failure of the file system ends the call it occurred
//! in.

use crate::error::ServiceError;
use crate::lifecycle::Presence;
use vstd::prelude::*;

verus! {

/// The answer to the question whether a file exists.
#[derive(Clone, Copy, Debug, PartialEq, Eq, Structural)]
pub enum Probe {
    Found,
    Absent,
    /// The file system failed with something other than "does not exist".
    Failed,
}

/// The answer to the removal of a file.
#[derive(Clone, Copy, Debug, PartialEq, Eq, Structural)]
pub enum Removal {
    Removed,
    /// The file was not there, or no longer there.
    AlreadyGone,
    /// The file system failed with something other than "does not exist".
    Failed,
}

/// What the probes of the three approval stages say of an asset: the
/// stages that hold it, unless a probe failed.
pub open spec fn observed(pending: Probe, unapproved: Probe, original: Probe) -> Result<
    Presence,
    ServiceError,
> {
    if pending == Probe::Failed || unapproved == Probe::Failed || original == Probe::Failed {
        Err(ServiceError::IOFailure)
    } else {
        Ok(
            Presence {
                pending: pending == Probe::Found,
                unapproved: unapproved == Probe::Found,
                original: original == Probe::Found,
            },
        )
    }
}

/// Gathers the probes of the three approval stages into the picture that
/// the lifecycle decides on. A failed probe fails the call.
pub fn observe(pending: Probe, unapproved: Probe, original: Probe) -> (r: Result<
    Presence,
    ServiceError,
>)
    ensures
        r == observed(pending, unapproved, original),
{
    match (pending, unapproved, original) {
        (Probe::Failed, _, _) => Err(ServiceError::IOFailure),
        (_, Probe::Failed, _) => Err(ServiceError::IOFailure),
        (_, _, Probe::Failed) => Err(ServiceError::IOFailure),
        _ => Ok(
            Presence {
                pending: pending == Probe::Found,
                unapproved: unapproved == Probe::Found,
                original: original == Probe::Found,
            },
        ),
    }
}

/// Locates an asset in one stage from the probe of its path: found or not,
/// unless the probe failed.
pub fn locate(probe: Probe) -> (r: Result<bool, ServiceError>)
    ensures
        r == match probe {
            Probe::Found => Ok::<bool, ServiceError>(true),
            Probe::Absent => Ok::<bool, ServiceError>(false),
            Probe::Failed => Err::<bool, ServiceError>(ServiceError::IOFailure),
        },
{
    match probe {
        Probe::Found => Ok(true),
        Probe::Absent => Ok(false),
        Probe::Failed => Err(ServiceError::IOFailure),
    }
}

/// Whether a run of removals went well: that a file was already gone is
/// tolerated, every other failure is not.
pub open spec fn all_settled(removals: Seq<Removal>) -> bool {
    forall|i: int| 0 <= i < removals.len() ==> removals[i] != Removal::Failed
}

/// Judges the removals of one action: the files of an asset in the stages,
/// or its cache entries. Nothing to remove is no error.
pub fn settle(removals: &Vec<Removal>) -> (r: Result<(), ServiceError>)
    ensures
        r == (if all_settled(removals@) {
            Ok::<(), ServiceError>(())
        } else {
            Err::<(), ServiceError>(ServiceError::IOFailure)
        }),
{
    let mut i: usize = 0;
    while i < removals.len()
        invariant
            i <= removals.len(),
            forall|k: int| 0 <= k < i ==> removals@[k] != Removal::Failed,
        decreases removals.len() - i,
    {
        if let Removal::Failed = removals[i] {
            return Err(ServiceError::IOFailure);
        }
        i += 1;
    }
    Ok(())
}

} // verus!
