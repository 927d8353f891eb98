//! The recovery decision for acquiring a management session.
//!
//! A process embedding this library may already have initialized the
//! platform's object subsystem, possibly in a different concurrency mode
//! than the session layer asks for. Initializing it is platform I/O and
//! happens in the embedding application; the decision what to do with the
//! reported outcome is made here.

use vstd::prelude::*;

verus! {

/// Error code the platform reports when the calling thread already
/// initialized the object subsystem in a different concurrency mode.
pub const RPC_E_CHANGED_MODE: i32 = -2147417850;

/// What an initialization attempt of the object subsystem reported.
#[derive(Debug, Clone, Copy, PartialEq, Eq, Structural)]
pub enum ComInitOutcome {
    /// Initialization succeeded.
    Initialized,
    /// Initialization failed with this platform result code.
    HResult(i32),
    /// Initialization failed in some other way.
    OtherFailure,
}

/// What the session layer does next.
#[derive(Debug, Clone, Copy, PartialEq, Eq, Structural)]
pub enum ComInitAction {
    /// Use the freshly initialized subsystem.
    UseNew,
    /// Attach to the initialization that already exists: the subsystem was
    /// already set up in a different mode, which is recoverable.
    AttachExisting,
    /// Report the failure to the caller; no session can be acquired.
    Fail,
}

/// Decides how to proceed after an initialization attempt: a changed-mode
/// failure attaches to the existing initialization, every other failure is
/// fatal.
pub fn com_init_action(outcome: &ComInitOutcome) -> (r: ComInitAction)
    ensures
        match *outcome {
            ComInitOutcome::Initialized => r == ComInitAction::UseNew,
            ComInitOutcome::HResult(hres) => r == (if hres == RPC_E_CHANGED_MODE {
                ComInitAction::AttachExisting
            } else {
                ComInitAction::Fail
            }),
            ComInitOutcome::OtherFailure => r == ComInitAction::Fail,
        },
{
    match outcome {
        ComInitOutcome::Initialized => ComInitAction::UseNew,
        ComInitOutcome::HResult(hres) => {
            if *hres == RPC_E_CHANGED_MODE {
                ComInitAction::AttachExisting
            } else {
                ComInitAction::Fail
            }
        },
        ComInitOutcome::OtherFailure => ComInitAction::Fail,
    }
}

} // verus!
