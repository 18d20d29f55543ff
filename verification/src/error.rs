//! The error kinds of the protocol and their reply codes.

use crate::consts::{
    SBI_ERR_ALREADY_AVAILABLE, SBI_ERR_ALREADY_STARTED, SBI_ERR_ALREADY_STOPPED, SBI_ERR_DENIED,
    SBI_ERR_FAILED, SBI_ERR_INVALID_ADDRESS, SBI_ERR_INVALID_PARAM, SBI_ERR_NOT_SUPPORTED,
    SBI_ERR_UNRECOGNIZED, SBI_SUCCESS,
};
use vstd::prelude::*;

verus! {

/// Why a call did not succeed.
#[derive(Clone, Copy, Debug, PartialEq, Eq, Structural)]
pub enum Error {
    /// The call failed and the callee gave no detail. The legacy reply
    /// convention knows no other failure.
    Failed,
    /// The extension or the function selector is not known.
    NotSupported,
    /// The function is known but an argument is outside its domain.
    InvalidParam,
    /// The caller may not make this call.
    Denied,
    /// An address argument is not usable.
    InvalidAddress,
    /// The resource is already available.
    AlreadyAvailable,
    /// The resource was already started.
    AlreadyStarted,
    /// The resource was already stopped.
    AlreadyStopped,
    /// The other side replied with a code that this build has no name for.
    Unrecognized,
}

impl Error {
    /// The reply code that stands for this kind on the wire.
    pub open spec fn spec_code(self) -> i64 {
        match self {
            Error::Failed => SBI_ERR_FAILED,
            Error::NotSupported => SBI_ERR_NOT_SUPPORTED,
            Error::InvalidParam => SBI_ERR_INVALID_PARAM,
            Error::Denied => SBI_ERR_DENIED,
            Error::InvalidAddress => SBI_ERR_INVALID_ADDRESS,
            Error::AlreadyAvailable => SBI_ERR_ALREADY_AVAILABLE,
            Error::AlreadyStarted => SBI_ERR_ALREADY_STARTED,
            Error::AlreadyStopped => SBI_ERR_ALREADY_STOPPED,
            Error::Unrecognized => SBI_ERR_UNRECOGNIZED,
        }
    }

    /// The kind that a reply code stands for. Codes without a kind of their
    /// own, the success code among them, fall to `Unrecognized`.
    pub open spec fn spec_from_code(code: i64) -> Error {
        if code == SBI_ERR_FAILED {
            Error::Failed
        } else if code == SBI_ERR_NOT_SUPPORTED {
            Error::NotSupported
        } else if code == SBI_ERR_INVALID_PARAM {
            Error::InvalidParam
        } else if code == SBI_ERR_DENIED {
            Error::Denied
        } else if code == SBI_ERR_INVALID_ADDRESS {
            Error::InvalidAddress
        } else if code == SBI_ERR_ALREADY_AVAILABLE {
            Error::AlreadyAvailable
        } else if code == SBI_ERR_ALREADY_STARTED {
            Error::AlreadyStarted
        } else if code == SBI_ERR_ALREADY_STOPPED {
            Error::AlreadyStopped
        } else {
            Error::Unrecognized
        }
    }

    /// Whether `code` is the reply code of one of the kinds.
    pub open spec fn is_code(code: i64) -> bool {
        SBI_ERR_ALREADY_STOPPED <= code <= SBI_ERR_FAILED || code == SBI_ERR_UNRECOGNIZED
    }

    /// Returns the reply code of this kind: negative, so never the success code.
    pub fn code(self) -> (c: i64)
        ensures
            c == self.spec_code(),
            c < SBI_SUCCESS,
    {
        match self {
            Error::Failed => SBI_ERR_FAILED,
            Error::NotSupported => SBI_ERR_NOT_SUPPORTED,
            Error::InvalidParam => SBI_ERR_INVALID_PARAM,
            Error::Denied => SBI_ERR_DENIED,
            Error::InvalidAddress => SBI_ERR_INVALID_ADDRESS,
            Error::AlreadyAvailable => SBI_ERR_ALREADY_AVAILABLE,
            Error::AlreadyStarted => SBI_ERR_ALREADY_STARTED,
            Error::AlreadyStopped => SBI_ERR_ALREADY_STOPPED,
            Error::Unrecognized => SBI_ERR_UNRECOGNIZED,
        }
    }

    /// Returns the kind that `code` stands for; defined for every `i64`.
    pub fn from_code(code: i64) -> (e: Error)
        ensures
            e == Error::spec_from_code(code),
    {
        if code == SBI_ERR_FAILED {
            Error::Failed
        } else if code == SBI_ERR_NOT_SUPPORTED {
            Error::NotSupported
        } else if code == SBI_ERR_INVALID_PARAM {
            Error::InvalidParam
        } else if code == SBI_ERR_DENIED {
            Error::Denied
        } else if code == SBI_ERR_INVALID_ADDRESS {
            Error::InvalidAddress
        } else if code == SBI_ERR_ALREADY_AVAILABLE {
            Error::AlreadyAvailable
        } else if code == SBI_ERR_ALREADY_STARTED {
            Error::AlreadyStarted
        } else if code == SBI_ERR_ALREADY_STOPPED {
            Error::AlreadyStopped
        } else {
            Error::Unrecognized
        }
    }

    /// Turning a kind into its reply code and the code back into a kind gives
    /// the kind one started with, and no kind has the success code.
    pub proof fn lemma_code_round_trip(e: Error)
        ensures
            Error::spec_from_code(e.spec_code()) == e,
            Error::is_code(e.spec_code()),
            e.spec_code() < SBI_SUCCESS,
    {
    }

    /// Turning a reply code into a kind and back gives the same code exactly
    /// for the codes that have a kind; every other code is lost to
    /// `Unrecognized`.
    pub proof fn lemma_from_code_lossy(code: i64)
        ensures
            Error::is_code(code) <==> Error::spec_from_code(code).spec_code() == code,
            !Error::is_code(code) ==> Error::spec_from_code(code) == Error::Unrecognized,
    {
    }
}

} // verus!
