//! The system reset extension.

use crate::error::Error;
use crate::function::SbiFunction;
use vstd::prelude::*;

verus! {

/// The types of reset a supervisor can request.
#[derive(Clone, Copy, Debug, PartialEq, Eq, Structural)]
pub enum ResetType {
    /// Powers down the system.
    Shutdown,
    /// Powers down, then reboots.
    ColdReset,
    /// Reboots, doesn't power down.
    WarmReset,
}

impl ResetType {
    /// The number that stands for this reset type in a register.
    pub open spec fn spec_code(self) -> u64 {
        match self {
            ResetType::Shutdown => 0,
            ResetType::ColdReset => 1,
            ResetType::WarmReset => 2,
        }
    }

    /// The reset type that a register value names, if it names one.
    pub open spec fn spec_from_reg(a0: u64) -> Result<ResetType, Error> {
        if a0 == 0 {
            Ok(ResetType::Shutdown)
        } else if a0 == 1 {
            Ok(ResetType::ColdReset)
        } else if a0 == 2 {
            Ok(ResetType::WarmReset)
        } else {
            Err(Error::InvalidParam)
        }
    }

    /// Returns the number that stands for this reset type in a register.
    pub fn code(self) -> (c: u64)
        ensures
            c == self.spec_code(),
    {
        match self {
            ResetType::Shutdown => 0,
            ResetType::ColdReset => 1,
            ResetType::WarmReset => 2,
        }
    }

    /// Creates a reset type from a register value, or returns an error if
    /// the value names none. No value is coerced to a default.
    pub fn from_reg(a0: u64) -> (r: Result<ResetType, Error>)
        ensures
            r == ResetType::spec_from_reg(a0),
            r is Ok <==> a0 <= 2,
            r is Err ==> r == Err::<ResetType, Error>(Error::InvalidParam),
    {
        match a0 {
            0 => Ok(ResetType::Shutdown),
            1 => Ok(ResetType::ColdReset),
            2 => Ok(ResetType::WarmReset),
            _ => Err(Error::InvalidParam),
        }
    }

    /// Every reset type is read back from its own number, and a register
    /// value that names a reset type is that type's number.
    pub proof fn lemma_code_round_trip(t: ResetType, a0: u64)
        ensures
            ResetType::spec_from_reg(t.spec_code()) == Ok::<ResetType, Error>(t),
            ResetType::spec_from_reg(a0) == Ok::<ResetType, Error>(t) ==> a0 == t.spec_code(),
    {
    }
}

/// Reasons why a supervisor requests a reset.
///
/// The two directions do not agree on a system failure: it is written to a
/// register as 1 and read from a register as 2. Until the wire format is
/// settled both are kept as they are, so a request that names a system
/// failure is not read back as it was written.
#[derive(Clone, Copy, Debug, PartialEq, Eq, Structural)]
pub enum ResetReason {
    /// Used for normal resets.
    NoReason,
    /// Used when the system has failed.
    SystemFailure,
}

impl ResetReason {
    /// The number that stands for this reason in a register.
    pub open spec fn spec_code(self) -> u64 {
        match self {
            ResetReason::NoReason => 0,
            ResetReason::SystemFailure => 1,
        }
    }

    /// The reason that a register value names, if it names one: 0 and 2 do.
    pub open spec fn spec_from_reg(a1: u64) -> Result<ResetReason, Error> {
        if a1 == 0 {
            Ok(ResetReason::NoReason)
        } else if a1 == 2 {
            Ok(ResetReason::SystemFailure)
        } else {
            Err(Error::InvalidParam)
        }
    }

    /// Returns the number that stands for this reason in a register.
    pub fn code(self) -> (c: u64)
        ensures
            c == self.spec_code(),
    {
        match self {
            ResetReason::NoReason => 0,
            ResetReason::SystemFailure => 1,
        }
    }

    /// Creates a reset reason from a register value, or returns an error if
    /// the value names none. No value is coerced to a default.
    pub fn from_reg(a1: u64) -> (r: Result<ResetReason, Error>)
        ensures
            r == ResetReason::spec_from_reg(a1),
            r is Ok <==> a1 == 0 || a1 == 2,
            r is Err ==> r == Err::<ResetReason, Error>(Error::InvalidParam),
    {
        match a1 {
            0 => Ok(ResetReason::NoReason),
            2 => Ok(ResetReason::SystemFailure),
            _ => Err(Error::InvalidParam),
        }
    }

    /// A reason is read back from its own number exactly when it is
    /// `NoReason`.
    pub proof fn lemma_code_round_trip(reason: ResetReason)
        ensures
            ResetReason::spec_from_reg(reason.spec_code()) == Ok::<ResetReason, Error>(reason)
                <==> reason == ResetReason::NoReason,
    {
    }
}

/// Functions for the Reset extension
///
/// A request is written with the reason in `a0` and the reset type in `a1`,
/// and read with the reset type in `a0` and the reason in `a1`. The two
/// directions are kept as they are; see `lemma_round_trip` for the requests
/// that are read back as written.
#[derive(Clone, Copy, Debug, PartialEq, Eq, Structural)]
pub enum ResetFunction {
    /// Performs a system reset.
    Reset {
        /// Determines the type of reset to perform.
        reset_type: ResetType,
        /// Represents the reason for system reset.
        reason: ResetReason,
    },
}

impl ResetFunction {
    /// The registers `a0`..`a6` of a call of this function.
    pub open spec fn spec_args(self) -> Seq<u64> {
        match self {
            ResetFunction::Reset { reset_type, reason } => seq![
                reason.spec_code(),
                reset_type.spec_code(),
                0,
                0,
                0,
                0,
                0,
            ],
        }
    }

    /// The request that a register bank holds: function 0 with a reset type
    /// in `a0` and a reason in `a1`.
    pub open spec fn spec_from_regs(regs: Seq<u64>) -> Result<ResetFunction, Error> {
        if regs[6] != 0 {
            Err(Error::NotSupported)
        } else {
            match (ResetType::spec_from_reg(regs[0]), ResetReason::spec_from_reg(regs[1])) {
                (Ok(reset_type), Ok(reason)) => Ok(ResetFunction::Reset { reset_type, reason }),
                _ => Err(Error::InvalidParam),
            }
        }
    }

    /// The request to shut the machine down for no particular reason.
    pub open spec fn spec_shutdown() -> ResetFunction {
        ResetFunction::Reset { reset_type: ResetType::Shutdown, reason: ResetReason::NoReason }
    }

    /// Creates an operation to shutdown the machine.
    pub fn shutdown() -> (f: ResetFunction)
        ensures
            f == ResetFunction::spec_shutdown(),
    {
        ResetFunction::Reset { reset_type: ResetType::Shutdown, reason: ResetReason::NoReason }
    }

    /// Attempts to parse `Self` from the passed in `a0-a7`.
    pub fn from_regs(args: &[u64]) -> (r: Result<ResetFunction, Error>)
        requires
            args@.len() >= 7,
        ensures
            r == ResetFunction::spec_from_regs(args@),
            args@[6] != 0 <==> r == Err::<ResetFunction, Error>(Error::NotSupported),
            args@[6] == 0 && (args@[0] > 2 || (args@[1] != 0 && args@[1] != 2)) <==> r == Err::<
                ResetFunction,
                Error,
            >(Error::InvalidParam),
    {
        match args[6] {
            0 => {
                let reset_type = match ResetType::from_reg(args[0]) {
                    Ok(t) => t,
                    Err(e) => {
                        return Err(e);
                    },
                };
                let reason = match ResetReason::from_reg(args[1]) {
                    Ok(reason) => reason,
                    Err(e) => {
                        return Err(e);
                    },
                };
                Ok(ResetFunction::Reset { reset_type, reason })
            },
            _ => Err(Error::NotSupported),
        }
    }

    /// A request is read back from its own registers exactly when it is the
    /// shutdown request: the reason is written where the reset type is read.
    pub proof fn lemma_round_trip(f: ResetFunction)
        ensures
            ResetFunction::spec_from_regs(f.spec_args()) == Ok::<ResetFunction, Error>(f) <==> f
                == ResetFunction::spec_shutdown(),
    {
    }
}

impl SbiFunction for ResetFunction {
    fn a0(&self) -> (r: u64)
        ensures
            r == self.spec_args()[0],
    {
        match self {
            ResetFunction::Reset { reset_type: _, reason } => reason.code(),
        }
    }

    fn a1(&self) -> (r: u64)
        ensures
            r == self.spec_args()[1],
    {
        match self {
            ResetFunction::Reset { reset_type, reason: _ } => reset_type.code(),
        }
    }
}

} // verus!
