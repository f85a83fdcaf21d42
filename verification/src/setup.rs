//! Startup decisions for claiming a local socket address: when a
//! leftover address file may be removed, and how bind and listen
//! failures classify. Setup failures are fatal — the caller must not
//! proceed to serving.
use vstd::prelude::*;

verus! {

/// A fatal startup failure; the process must report it and exit
/// without serving.
#[derive(PartialEq, Eq, Structural)]
pub enum SetupError {
    /// The address is claimed by a live listener (or could not be
    /// unclaimed), so this instance must not take it over.
    AddressInUse,
    /// Binding failed for another OS-level reason, with its code.
    Bind(i32),
    /// Listening failed, with its OS error code.
    Listen(i32),
}

/// What to do about the address file before binding.
#[derive(PartialEq, Eq, Structural)]
pub enum CleanupAction {
    /// No file is present; bind directly.
    NothingToRemove,
    /// A stale file from an earlier run is present; remove it, then
    /// bind.
    RemoveStaleFile,
}

/// The cleanup decision: a present file is stale — and removable —
/// only when no live listener holds the address; with a live listener
/// present, startup fails instead of taking the address over.
pub open spec fn cleanup_plan(file_present: bool, listener_alive: bool) -> Result<
    CleanupAction,
    SetupError,
> {
    if !file_present {
        Ok(CleanupAction::NothingToRemove)
    } else if listener_alive {
        Err(SetupError::AddressInUse)
    } else {
        Ok(CleanupAction::RemoveStaleFile)
    }
}

/// Decide how to treat the address before binding.
pub fn plan_cleanup(file_present: bool, listener_alive: bool) -> (r: Result<
    CleanupAction,
    SetupError,
>)
    ensures
        r == cleanup_plan(file_present, listener_alive),
{
    if !file_present {
        Ok(CleanupAction::NothingToRemove)
    } else if listener_alive {
        Err(SetupError::AddressInUse)
    } else {
        Ok(CleanupAction::RemoveStaleFile)
    }
}

/// The verdict on the bind and listen calls: a bind failure counts as
/// "address in use" only when the earlier removal failed and the OS
/// confirms the address is still claimed; any other bind failure is a
/// plain bind error, and a listen failure is its own case. Success is
/// owed exactly when both calls succeeded.
pub open spec fn setup_verdict_spec(
    removal_failed: bool,
    bind_errno: Option<i32>,
    bind_in_use: bool,
    listen_errno: Option<i32>,
) -> Result<(), SetupError> {
    match bind_errno {
        Some(e) => if removal_failed && bind_in_use {
            Err(SetupError::AddressInUse)
        } else {
            Err(SetupError::Bind(e))
        },
        None => match listen_errno {
            Some(e) => Err(SetupError::Listen(e)),
            None => Ok(()),
        },
    }
}

/// Classify the outcome of the bind-and-listen startup sequence.
pub fn setup_verdict(
    removal_failed: bool,
    bind_errno: Option<i32>,
    bind_in_use: bool,
    listen_errno: Option<i32>,
) -> (r: Result<(), SetupError>)
    ensures
        r == setup_verdict_spec(removal_failed, bind_errno, bind_in_use, listen_errno),
{
    match bind_errno {
        Some(e) => {
            if removal_failed && bind_in_use {
                Err(SetupError::AddressInUse)
            } else {
                Err(SetupError::Bind(e))
            }
        },
        None => {
            match listen_errno {
                Some(e) => Err(SetupError::Listen(e)),
                None => Ok(()),
            }
        },
    }
}

/// Law: a stale address file — present with no live listener — is
/// removed and startup proceeds; with a live listener present the
/// plan is the `AddressInUse` setup failure, so the process never
/// reaches serving.
pub proof fn lemma_stale_removed_live_refused()
    ensures
        cleanup_plan(true, false) == Ok::<CleanupAction, SetupError>(
            CleanupAction::RemoveStaleFile,
        ),
        cleanup_plan(true, true) == Err::<CleanupAction, SetupError>(SetupError::AddressInUse),
        cleanup_plan(false, false) == Ok::<CleanupAction, SetupError>(
            CleanupAction::NothingToRemove,
        ),
        forall|removal_failed: bool, in_use: bool|
            setup_verdict_spec(removal_failed, None, in_use, None) == Ok::<(), SetupError>(()),
{
}

} // verus!
