//! Message layer of the RISC-V Supervisor Binary Interface (SBI).
//!
//! A call crosses the privilege boundary as eight argument registers `a0`..`a7`
//! and comes back as two reply registers. This crate turns typed descriptions
//! of calls into register values, turns register banks back into typed calls,
//! and interprets replies. Every function is proved against a model in which
//! a register bank is a `Seq<u64>`, and the laws that tie encoding to
//! decoding are proved beside the functions they speak of.
//!
//! `sregs` classifies the cause of a trap, for the loop that dispatches traps
//! to this layer.

pub mod attestation;
pub mod base;
pub mod consts;
pub mod error;
pub mod exit;
pub mod function;
pub mod message;
pub mod reset;
pub mod ret;
pub mod sregs;
pub mod state;
pub mod tee;

pub use crate::attestation::AttestationFunction;
pub use crate::base::BaseFunction;
pub use crate::consts::{
    EXT_ATTESTATION, EXT_BASE, EXT_HART_STATE, EXT_PUT_CHAR, EXT_RESET, EXT_TEE,
    SBI_ERR_ALREADY_AVAILABLE, SBI_ERR_ALREADY_STARTED, SBI_ERR_ALREADY_STOPPED, SBI_ERR_DENIED,
    SBI_ERR_FAILED, SBI_ERR_INVALID_ADDRESS, SBI_ERR_INVALID_PARAM, SBI_ERR_NOT_SUPPORTED,
    SBI_ERR_UNRECOGNIZED, SBI_SUCCESS,
};
pub use crate::error::Error;
pub use crate::exit::{GuestExit, SupervisorExceptionCause};
pub use crate::function::SbiFunction;
pub use crate::message::SbiMessage;
pub use crate::reset::{ResetFunction, ResetReason, ResetType};
pub use crate::ret::{SbiReturn, SbiReturnType};
pub use crate::sregs::{
    SCause, CAUSE_LOAD_GUEST_PAGE_FAULT, CAUSE_STORE_GUEST_PAGE_FAULT,
    CAUSE_VIRTUAL_SUPERVISOR_ECALL,
};
pub use crate::state::{HartState, StateFunction};
pub use crate::tee::TeeFunction;
