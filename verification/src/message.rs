//! The message: one call of one extension, and its register bank.

use crate::attestation::AttestationFunction;
use crate::base::BaseFunction;
use crate::consts::{
    EXT_ATTESTATION, EXT_BASE, EXT_HART_STATE, EXT_PUT_CHAR, EXT_RESET, EXT_TEE,
};
use crate::error::Error;
use crate::function::SbiFunction;
use crate::reset::ResetFunction;
use crate::ret::{SbiReturn, SbiReturnType};
use crate::state::StateFunction;
use crate::tee::TeeFunction;
use vstd::prelude::*;

verus! {

/// SBI Message used to invoke the specified SBI extension in the firmware.
#[derive(Clone, Copy, Debug, PartialEq, Eq, Structural)]
pub enum SbiMessage {
    /// The base SBI extension functions.
    Base(BaseFunction),
    /// The legacy PutChar extension.
    PutChar(u64),
    /// The extension for getting/setting the state of CPUs.
    HartState(StateFunction),
    /// Handles system reset.
    Reset(ResetFunction),
    /// Provides capabilities for starting confidential virtual machines.
    Tee(TeeFunction),
    /// The extension for getting attestation evidences and extending measurements.
    Attestation(AttestationFunction),
}

/// Whether `id` is the identifier of an extension that this crate knows.
pub open spec fn is_known_extension(id: u64) -> bool {
    id == EXT_PUT_CHAR || id == EXT_BASE || id == EXT_HART_STATE || id == EXT_RESET || id
        == EXT_TEE || id == EXT_ATTESTATION
}

/// Whether `function` selects a function of the known extension `extension`.
/// The legacy extension has no selector and the confidential-VM extension
/// judges its own, so neither turns a selector down.
pub open spec fn is_known_function(extension: u64, function: u64) -> bool {
    if extension == EXT_BASE {
        function <= 6
    } else if extension == EXT_HART_STATE {
        function <= 3
    } else if extension == EXT_RESET {
        function == 0
    } else if extension == EXT_ATTESTATION {
        function <= 1
    } else {
        extension == EXT_PUT_CHAR || extension == EXT_TEE
    }
}

impl SbiMessage {
    /// The identifier of the extension that this message calls.
    pub open spec fn spec_extension(self) -> u64 {
        match self {
            SbiMessage::Base(_) => EXT_BASE,
            SbiMessage::PutChar(_) => EXT_PUT_CHAR,
            SbiMessage::HartState(_) => EXT_HART_STATE,
            SbiMessage::Reset(_) => EXT_RESET,
            SbiMessage::Tee(_) => EXT_TEE,
            SbiMessage::Attestation(_) => EXT_ATTESTATION,
        }
    }

    /// The registers `a0`..`a6` of this message. The legacy extension has no
    /// function selector: its `a6` is zero and `a0` is the character.
    pub open spec fn spec_args(self) -> Seq<u64> {
        match self {
            SbiMessage::Base(f) => f.spec_args(),
            SbiMessage::PutChar(c) => seq![c, 0, 0, 0, 0, 0, 0],
            SbiMessage::HartState(f) => f.spec_args(),
            SbiMessage::Reset(f) => f.spec_args(),
            SbiMessage::Tee(f) => f.spec_args(),
            SbiMessage::Attestation(f) => f.spec_args(),
        }
    }

    /// The register bank `a0`..`a7` of this message: the seven registers of
    /// its function, then the extension.
    pub open spec fn spec_regs(self) -> Seq<u64> {
        self.spec_args().push(self.spec_extension())
    }

    /// The message that a register bank holds. `a7` selects the extension
    /// and the extension reads the rest.
    pub open spec fn spec_from_regs(regs: Seq<u64>) -> Result<SbiMessage, Error> {
        if regs[7] == EXT_PUT_CHAR {
            Ok(SbiMessage::PutChar(regs[0]))
        } else if regs[7] == EXT_BASE {
            match BaseFunction::spec_from_regs(regs) {
                Ok(f) => Ok(SbiMessage::Base(f)),
                Err(e) => Err(e),
            }
        } else if regs[7] == EXT_HART_STATE {
            match StateFunction::spec_from_regs(regs) {
                Ok(f) => Ok(SbiMessage::HartState(f)),
                Err(e) => Err(e),
            }
        } else if regs[7] == EXT_RESET {
            match ResetFunction::spec_from_regs(regs) {
                Ok(f) => Ok(SbiMessage::Reset(f)),
                Err(e) => Err(e),
            }
        } else if regs[7] == EXT_TEE {
            match TeeFunction::spec_from_regs(regs) {
                Ok(f) => Ok(SbiMessage::Tee(f)),
                Err(e) => Err(e),
            }
        } else if regs[7] == EXT_ATTESTATION {
            match AttestationFunction::spec_from_regs(regs) {
                Ok(f) => Ok(SbiMessage::Attestation(f)),
                Err(e) => Err(e),
            }
        } else {
            Err(Error::NotSupported)
        }
    }

    /// Whether a bank that selects the reset function holds a reset type or
    /// a reason that is none.
    pub open spec fn spec_bad_reset_param(regs: Seq<u64>) -> bool {
        regs[7] == EXT_RESET && regs[6] == 0 && (regs[0] > 2 || (regs[1] != 0 && regs[1] != 2))
    }

    /// The reply registers as this message reads them: one register under
    /// the legacy convention, a code and a value under the standard one.
    /// The convention goes with the extension, not with the reply.
    pub open spec fn spec_return_type(self, a0: u64, a1: u64) -> SbiReturnType {
        match self {
            SbiMessage::PutChar(_) => SbiReturnType::Legacy(a0),
            _ => SbiReturnType::Standard(SbiReturn::spec_from_regs(a0, a1)),
        }
    }

    /// Whether this message is read back from its own register bank. Of the
    /// reset requests only shutdown is.
    pub open spec fn spec_round_trips(self) -> bool {
        self matches SbiMessage::Reset(f) ==> f == ResetFunction::spec_shutdown()
    }

    /// Creates an SbiMessage struct from the given GPRs. Intended for use from the ECALL handler
    /// and passed the saved register state from the calling OS. A7 must contain a valid SBI
    /// extension and the other A* registers will be interpreted based on the extension A7 selects.
    pub fn from_regs(args: &[u64]) -> (r: Result<SbiMessage, Error>)
        requires
            args@.len() >= 8,
        ensures
            r == SbiMessage::spec_from_regs(args@),
            r == Err::<SbiMessage, Error>(Error::NotSupported) <==> !is_known_extension(args@[7])
                || !is_known_function(args@[7], args@[6]),
            r == Err::<SbiMessage, Error>(Error::InvalidParam) <==> SbiMessage::spec_bad_reset_param(
                args@,
            ),
            r is Ok <==> is_known_extension(args@[7]) && is_known_function(args@[7], args@[6])
                && !SbiMessage::spec_bad_reset_param(args@),
            r matches Ok(m) ==> m.spec_extension() == args@[7],
    {
        let ext: u64 = args[7];
        if ext == EXT_PUT_CHAR {
            Ok(SbiMessage::PutChar(args[0]))
        } else if ext == EXT_BASE {
            match BaseFunction::from_regs(args) {
                Ok(f) => Ok(SbiMessage::Base(f)),
                Err(e) => Err(e),
            }
        } else if ext == EXT_HART_STATE {
            match StateFunction::from_regs(args) {
                Ok(f) => Ok(SbiMessage::HartState(f)),
                Err(e) => Err(e),
            }
        } else if ext == EXT_RESET {
            match ResetFunction::from_regs(args) {
                Ok(f) => Ok(SbiMessage::Reset(f)),
                Err(e) => Err(e),
            }
        } else if ext == EXT_TEE {
            match TeeFunction::from_regs(args) {
                Ok(f) => Ok(SbiMessage::Tee(f)),
                Err(e) => Err(e),
            }
        } else if ext == EXT_ATTESTATION {
            match AttestationFunction::from_regs(args) {
                Ok(f) => Ok(SbiMessage::Attestation(f)),
                Err(e) => Err(e),
            }
        } else {
            Err(Error::NotSupported)
        }
    }

    /// Returns the register value for this `SbiMessage`.
    pub fn a7(&self) -> (r: u64)
        ensures
            r == self.spec_regs()[7],
            r == self.spec_extension(),
    {
        match self {
            SbiMessage::Base(_) => EXT_BASE,
            SbiMessage::PutChar(_) => EXT_PUT_CHAR,
            SbiMessage::HartState(_) => EXT_HART_STATE,
            SbiMessage::Reset(_) => EXT_RESET,
            SbiMessage::Tee(_) => EXT_TEE,
            SbiMessage::Attestation(_) => EXT_ATTESTATION,
        }
    }

    /// Returns the register value for this `SbiMessage`.
    pub fn a6(&self) -> (r: u64)
        ensures
            r == self.spec_regs()[6],
    {
        match self {
            SbiMessage::Base(f) => f.a6(),
            SbiMessage::HartState(f) => f.a6(),
            SbiMessage::PutChar(_) => 0,
            SbiMessage::Reset(f) => f.a6(),
            SbiMessage::Tee(f) => f.a6(),
            SbiMessage::Attestation(f) => f.a6(),
        }
    }

    /// Returns the register value for this `SbiMessage`.
    pub fn a5(&self) -> (r: u64)
        ensures
            r == self.spec_regs()[5],
    {
        match self {
            SbiMessage::Tee(f) => f.a5(),
            _ => 0,
        }
    }

    /// Returns the register value for this `SbiMessage`.
    pub fn a4(&self) -> (r: u64)
        ensures
            r == self.spec_regs()[4],
    {
        match self {
            SbiMessage::Tee(f) => f.a4(),
            _ => 0,
        }
    }

    /// Returns the register value for this `SbiMessage`.
    pub fn a3(&self) -> (r: u64)
        ensures
            r == self.spec_regs()[3],
    {
        match self {
            SbiMessage::Tee(f) => f.a3(),
            SbiMessage::Attestation(f) => f.a3(),
            _ => 0,
        }
    }

    /// Returns the register value for this `SbiMessage`.
    pub fn a2(&self) -> (r: u64)
        ensures
            r == self.spec_regs()[2],
    {
        match self {
            SbiMessage::HartState(f) => f.a2(),
            SbiMessage::Tee(f) => f.a2(),
            SbiMessage::Attestation(f) => f.a2(),
            _ => 0,
        }
    }

    /// Returns the register value for this `SbiMessage`.
    pub fn a1(&self) -> (r: u64)
        ensures
            r == self.spec_regs()[1],
    {
        match self {
            SbiMessage::Reset(f) => f.a1(),
            SbiMessage::HartState(f) => f.a1(),
            SbiMessage::Tee(f) => f.a1(),
            SbiMessage::Attestation(f) => f.a1(),
            _ => 0,
        }
    }

    /// Returns the register value for this `SbiMessage`.
    pub fn a0(&self) -> (r: u64)
        ensures
            r == self.spec_regs()[0],
    {
        match self {
            SbiMessage::Base(f) => f.a0(),
            SbiMessage::Reset(f) => f.a0(),
            SbiMessage::PutChar(c) => *c,
            SbiMessage::HartState(f) => f.a0(),
            SbiMessage::Tee(f) => f.a0(),
            SbiMessage::Attestation(f) => f.a0(),
        }
    }

    /// Returns the result returned in the SbiMessage. Intended for use after an SbiMessage has been
    /// handled by the firmware. Interprets the given registers based on the extension and function
    /// and returns the appropriate result.
    pub fn result(&self, a0: u64, a1: u64) -> (r: Result<u64, Error>)
        ensures
            r == self.spec_return_type(a0, a1).spec_result(),
            self is PutChar ==> r == (if a0 == 0 {
                Ok::<u64, Error>(0)
            } else {
                Err::<u64, Error>(Error::Failed)
            }),
            !(self is PutChar) ==> r == (if a0 == 0 {
                Ok::<u64, Error>(a1)
            } else {
                Err::<u64, Error>(Error::spec_from_code(SbiReturn::spec_signed(a0)))
            }),
    {
        let reply = match self {
            SbiMessage::PutChar(_) => SbiReturnType::Legacy(a0),
            _ => SbiReturnType::Standard(SbiReturn::from_regs(a0, a1)),
        };
        reply.result()
    }

    /// Decoding the register bank of a message gives the message back, for
    /// every message but the reset requests other than shutdown.
    pub proof fn lemma_round_trip(m: SbiMessage)
        requires
            m.spec_round_trips(),
        ensures
            m.spec_regs().len() == 8,
            SbiMessage::spec_from_regs(m.spec_regs()) == Ok::<SbiMessage, Error>(m),
    {
    }

    /// A reset request other than shutdown is not read back from its own
    /// register bank: decoding fails or gives another request.
    pub proof fn lemma_reset_not_read_back(m: SbiMessage)
        requires
            !m.spec_round_trips(),
        ensures
            SbiMessage::spec_from_regs(m.spec_regs()) != Ok::<SbiMessage, Error>(m),
    {
    }

    /// What decoding a bank comes to, whatever the bank holds: `NotSupported`
    /// exactly when the extension or its function selector is unknown,
    /// `InvalidParam` exactly when a reset request names no reset type or no
    /// reason, and else a message of the extension that `a7` names.
    pub proof fn lemma_decode_outcomes(regs: Seq<u64>)
        ensures
            SbiMessage::spec_from_regs(regs) == Err::<SbiMessage, Error>(Error::NotSupported)
                <==> !is_known_extension(regs[7]) || !is_known_function(regs[7], regs[6]),
            SbiMessage::spec_from_regs(regs) == Err::<SbiMessage, Error>(Error::InvalidParam)
                <==> SbiMessage::spec_bad_reset_param(regs),
            SbiMessage::spec_from_regs(regs) matches Ok(m) ==> m.spec_extension() == regs[7],
            SbiMessage::spec_from_regs(regs) matches Err(e) ==> e == Error::NotSupported || e
                == Error::InvalidParam,
    {
    }

    /// No two messages have the same register bank, and extensions differ
    /// exactly when their identifiers do.
    pub proof fn lemma_regs_injective(m1: SbiMessage, m2: SbiMessage)
        ensures
            m1.spec_regs() == m2.spec_regs() ==> m1 == m2,
            m1.spec_extension() == m2.spec_extension() <==> (m1 is Base <==> m2 is Base) && (m1
                is PutChar <==> m2 is PutChar) && (m1 is HartState <==> m2 is HartState) && (m1
                is Reset <==> m2 is Reset) && (m1 is Tee <==> m2 is Tee) && (m1 is Attestation
                <==> m2 is Attestation),
    {
        if m1.spec_regs() == m2.spec_regs() {
            // Equal banks agree register by register, and each field of a
            // message sits in a register of its own.
            let r1 = m1.spec_regs();
            let r2 = m2.spec_regs();
            assert(r1[7] == r2[7]);
            assert(r1[6] == r2[6]);
            assert(r1[0] == r2[0]);
            assert(r1[1] == r2[1]);
            assert(r1[2] == r2[2]);
            assert(r1[3] == r2[3]);
            assert(r1[4] == r2[4]);
            assert(r1[5] == r2[5]);
        }
    }
}

} // verus!
