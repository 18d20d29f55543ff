//! Numeric identifiers fixed by the SBI wire format.

use vstd::prelude::*;

verus! {

/// Reply code of a call that succeeded. It is never the code of an error.
pub const SBI_SUCCESS: i64 = 0;

/// The call failed for a reason that the callee does not detail.
pub const SBI_ERR_FAILED: i64 = -1;

/// The extension or function is not implemented.
pub const SBI_ERR_NOT_SUPPORTED: i64 = -2;

/// An argument is out of range for the function.
pub const SBI_ERR_INVALID_PARAM: i64 = -3;

/// The caller may not make this call.
pub const SBI_ERR_DENIED: i64 = -4;

/// An address argument is not usable.
pub const SBI_ERR_INVALID_ADDRESS: i64 = -5;

/// The resource is already available.
pub const SBI_ERR_ALREADY_AVAILABLE: i64 = -6;

/// The resource was already started.
pub const SBI_ERR_ALREADY_STARTED: i64 = -7;

/// The resource was already stopped.
pub const SBI_ERR_ALREADY_STOPPED: i64 = -8;

/// Code that stands for every reply code this build has no name for.
pub const SBI_ERR_UNRECOGNIZED: i64 = i64::MIN;

/// Legacy console output, the one extension without a function selector.
pub const EXT_PUT_CHAR: u64 = 0x01;

/// The base extension.
pub const EXT_BASE: u64 = 0x10;

/// Hart state management ("HSM").
pub const EXT_HART_STATE: u64 = 0x48534D;

/// System reset ("SRST").
pub const EXT_RESET: u64 = 0x53525354;

/// Confidential virtual machines ("ATEE").
pub const EXT_TEE: u64 = 0x41544545;

/// Attestation evidence and measurements ("ATST").
pub const EXT_ATTESTATION: u64 = 0x41545354;

} // verus!
