//! Why a guest stopped running.

use vstd::prelude::*;

verus! {

/// The causes of an exception that a guest can be left for.
#[derive(Clone, Copy, Debug, PartialEq, Eq, Structural)]
pub enum SupervisorExceptionCause {
    /// Environment call from a guest's supervisor mode.
    EcallVsMode,
    /// A load missed the guest's second-stage translation.
    GuestLoadPageFault,
    /// A store or an atomic missed the guest's second-stage translation.
    GuestStoreAmoPageFault,
}

/// The reason for leaving a guest.
#[derive(Clone, Copy, Debug, PartialEq, Eq, Structural)]
pub enum GuestExit {
    /// The guest raised an exception.
    Exception(SupervisorExceptionCause),
}

} // verus!
