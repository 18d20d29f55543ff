//! The hart state management extension.

use crate::error::Error;
use crate::function::SbiFunction;
use vstd::prelude::*;

verus! {

/// Functions of the hart state management extension.
#[derive(Clone, Copy, Debug, PartialEq, Eq, Structural)]
pub enum StateFunction {
    /// Starts the given hart.
    HartStart {
        /// a0 - hart id to start.
        hart_id: u64,
        /// a1 - address to start the hart.
        start_addr: u64,
        /// a2 - value to be set in a1 when starting the hart.
        opaque: u64,
    },
    /// Stops the current hart.
    HartStop,
    /// Returns the status of the given hart.
    HartStatus {
        /// a0 - ID of the hart to check.
        hart_id: u64,
    },
    /// Requests that the calling hart be suspended.
    HartSuspend {
        /// a0 - Specifies the type of suspend to initiate.
        suspend_type: u32,
        /// a1 - The address to jump to on resume.
        resume_addr: u64,
        /// a2 - An opaque value to load in a1 when resuming the hart.
        opaque: u64,
    },
}

/// Return value for the HartStatus SBI call.
#[derive(Clone, Copy, Debug, PartialEq, Eq, Structural)]
pub enum HartState {
    /// The hart is physically powered-up and executing normally.
    Started,
    /// The hart is not executing in supervisor-mode or any lower privilege mode.
    Stopped,
    /// Some other hart has requested to start, operation still in progress.
    StartPending,
    /// Some other hart has requested to stop, operation still in progress.
    StopPending,
    /// This hart is in a platform specific suspend (or low power) state.
    Suspended,
    /// The hart has requested to put itself in a platform specific low power state, in progress.
    SuspendPending,
    /// An interrupt or platform specific hardware event has caused the hart to resume normal
    /// execution. Resuming is ongoing.
    ResumePending,
}

impl HartState {
    /// The number that stands for this state in a register.
    pub open spec fn spec_code(self) -> u64 {
        match self {
            HartState::Started => 0,
            HartState::Stopped => 1,
            HartState::StartPending => 2,
            HartState::StopPending => 3,
            HartState::Suspended => 4,
            HartState::SuspendPending => 5,
            HartState::ResumePending => 6,
        }
    }

    /// The state that a register value names, if it names one.
    pub open spec fn spec_from_reg(value: u64) -> Result<HartState, Error> {
        if value == 0 {
            Ok(HartState::Started)
        } else if value == 1 {
            Ok(HartState::Stopped)
        } else if value == 2 {
            Ok(HartState::StartPending)
        } else if value == 3 {
            Ok(HartState::StopPending)
        } else if value == 4 {
            Ok(HartState::Suspended)
        } else if value == 5 {
            Ok(HartState::SuspendPending)
        } else if value == 6 {
            Ok(HartState::ResumePending)
        } else {
            Err(Error::InvalidParam)
        }
    }

    /// Returns the number that stands for this state in a register.
    pub fn code(self) -> (c: u64)
        ensures
            c == self.spec_code(),
    {
        match self {
            HartState::Started => 0,
            HartState::Stopped => 1,
            HartState::StartPending => 2,
            HartState::StopPending => 3,
            HartState::Suspended => 4,
            HartState::SuspendPending => 5,
            HartState::ResumePending => 6,
        }
    }

    /// Creates a hart state from a register value, or returns an error if
    /// the value names none. No value is coerced to a default.
    pub fn from_reg(value: u64) -> (r: Result<HartState, Error>)
        ensures
            r == HartState::spec_from_reg(value),
            r is Ok <==> value <= 6,
            r is Err ==> r == Err::<HartState, Error>(Error::InvalidParam),
    {
        match value {
            0 => Ok(HartState::Started),
            1 => Ok(HartState::Stopped),
            2 => Ok(HartState::StartPending),
            3 => Ok(HartState::StopPending),
            4 => Ok(HartState::Suspended),
            5 => Ok(HartState::SuspendPending),
            6 => Ok(HartState::ResumePending),
            _ => Err(Error::InvalidParam),
        }
    }

    /// Every state is read back from its own number, and a register value
    /// that names a state is that state's number.
    pub proof fn lemma_code_round_trip(state: HartState, value: u64)
        ensures
            HartState::spec_from_reg(state.spec_code()) == Ok::<HartState, Error>(state),
            HartState::spec_from_reg(value) == Ok::<HartState, Error>(state) ==> value
                == state.spec_code(),
    {
    }
}

impl StateFunction {
    /// The registers `a0`..`a6` of a call of this function.
    pub open spec fn spec_args(self) -> Seq<u64> {
        match self {
            StateFunction::HartStart { hart_id, start_addr, opaque } => seq![
                hart_id,
                start_addr,
                opaque,
                0,
                0,
                0,
                0,
            ],
            StateFunction::HartStop => seq![0, 0, 0, 0, 0, 0, 1],
            StateFunction::HartStatus { hart_id } => seq![hart_id, 0, 0, 0, 0, 0, 2],
            StateFunction::HartSuspend { suspend_type, resume_addr, opaque } => seq![
                suspend_type as u64,
                resume_addr,
                opaque,
                0,
                0,
                0,
                3,
            ],
        }
    }

    /// The function that a register bank selects in this extension, by `a6`.
    /// A suspend type is the low 32 bits of `a0`.
    pub open spec fn spec_from_regs(regs: Seq<u64>) -> Result<StateFunction, Error> {
        if regs[6] == 0 {
            Ok(StateFunction::HartStart { hart_id: regs[0], start_addr: regs[1], opaque: regs[2] })
        } else if regs[6] == 1 {
            Ok(StateFunction::HartStop)
        } else if regs[6] == 2 {
            Ok(StateFunction::HartStatus { hart_id: regs[0] })
        } else if regs[6] == 3 {
            Ok(
                StateFunction::HartSuspend {
                    suspend_type: (regs[0] % 0x1_0000_0000) as u32,
                    resume_addr: regs[1],
                    opaque: regs[2],
                },
            )
        } else {
            Err(Error::NotSupported)
        }
    }

    /// Attempts to parse `Self` from the passed in `a0-a7`.
    pub fn from_regs(args: &[u64]) -> (r: Result<StateFunction, Error>)
        requires
            args@.len() >= 7,
        ensures
            r == StateFunction::spec_from_regs(args@),
            r is Ok <==> args@[6] <= 3,
            r is Err ==> r == Err::<StateFunction, Error>(Error::NotSupported),
    {
        match args[6] {
            0 => Ok(
                StateFunction::HartStart { hart_id: args[0], start_addr: args[1], opaque: args[2] },
            ),
            1 => Ok(StateFunction::HartStop),
            2 => Ok(StateFunction::HartStatus { hart_id: args[0] }),
            3 => {
                let a0: u64 = args[0];
                let low: u64 = a0 & 0xffff_ffff;
                assert(low == a0 % 0x1_0000_0000) by (bit_vector)
                    requires
                        low == a0 & 0xffff_ffff,
                ;
                Ok(
                    StateFunction::HartSuspend {
                        suspend_type: low as u32,
                        resume_addr: args[1],
                        opaque: args[2],
                    },
                )
            },
            _ => Err(Error::NotSupported),
        }
    }
}

impl SbiFunction for StateFunction {
    fn a6(&self) -> (r: u64)
        ensures
            r == self.spec_args()[6],
    {
        match self {
            StateFunction::HartStart { .. } => 0,
            StateFunction::HartStop => 1,
            StateFunction::HartStatus { .. } => 2,
            StateFunction::HartSuspend { .. } => 3,
        }
    }

    fn a0(&self) -> (r: u64)
        ensures
            r == self.spec_args()[0],
    {
        match self {
            StateFunction::HartStart { hart_id, start_addr: _, opaque: _ } => *hart_id,
            StateFunction::HartStatus { hart_id } => *hart_id,
            StateFunction::HartSuspend { suspend_type, resume_addr: _, opaque: _ } => {
                *suspend_type as u64
            },
            _ => 0,
        }
    }

    fn a1(&self) -> (r: u64)
        ensures
            r == self.spec_args()[1],
    {
        match self {
            StateFunction::HartStart { hart_id: _, start_addr, opaque: _ } => *start_addr,
            StateFunction::HartSuspend { suspend_type: _, resume_addr, opaque: _ } => *resume_addr,
            _ => 0,
        }
    }

    fn a2(&self) -> (r: u64)
        ensures
            r == self.spec_args()[2],
    {
        match self {
            StateFunction::HartStart { hart_id: _, start_addr: _, opaque } => *opaque,
            StateFunction::HartSuspend { suspend_type: _, resume_addr: _, opaque } => *opaque,
            _ => 0,
        }
    }
}

} // verus!
