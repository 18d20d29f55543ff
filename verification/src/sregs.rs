//! S-mode register definitions

use crate::exit::{GuestExit, SupervisorExceptionCause};
use vstd::prelude::*;

verus! {

/// Exception code of an environment call from a guest's supervisor mode.
pub const CAUSE_VIRTUAL_SUPERVISOR_ECALL: u8 = 10;

/// Exception code of a guest page fault on a load.
pub const CAUSE_LOAD_GUEST_PAGE_FAULT: u8 = 21;

/// Exception code of a guest page fault on a store or an atomic.
pub const CAUSE_STORE_GUEST_PAGE_FAULT: u8 = 23;

/// Wrapper of the reason for a trap.
pub struct SCause(pub u64);

impl Default for SCause {
    fn default() -> (cause: SCause)
        ensures
            cause.0 == 0,
    {
        SCause(0)
    }
}

impl SCause {
    /// Whether the top bit of the register is set: the trap is an interrupt.
    pub open spec fn spec_is_interrupt(self) -> bool {
        self.0 >= 0x8000_0000_0000_0000
    }

    /// The exception code: the low eight bits of the register.
    pub open spec fn spec_code(self) -> u8 {
        (self.0 % 256) as u8
    }

    /// The exit that this trap cause stands for. Interrupts are not told
    /// apart yet and give `Err(0)`; an exception code without an exit of its
    /// own is handed back as it is.
    pub open spec fn spec_into_exit(self) -> Result<GuestExit, u64> {
        if self.spec_is_interrupt() {
            Err(0)
        } else if self.spec_code() == CAUSE_VIRTUAL_SUPERVISOR_ECALL {
            Ok(GuestExit::Exception(SupervisorExceptionCause::EcallVsMode))
        } else if self.spec_code() == CAUSE_LOAD_GUEST_PAGE_FAULT {
            Ok(GuestExit::Exception(SupervisorExceptionCause::GuestLoadPageFault))
        } else if self.spec_code() == CAUSE_STORE_GUEST_PAGE_FAULT {
            Ok(GuestExit::Exception(SupervisorExceptionCause::GuestStoreAmoPageFault))
        } else {
            Err(self.spec_code() as u64)
        }
    }

    /// Returns the GuestExit or an Error with the unknown exit cause.
    pub fn into_exit(&self) -> (r: Result<GuestExit, u64>)
        ensures
            r == self.spec_into_exit(),
            r matches Err(code) ==> code < 256,
    {
        let bits: u64 = self.0;
        let top: u64 = bits & 0x8000_0000_0000_0000;
        let low: u64 = bits & 0xff;
        assert((top != 0) == (bits >= 0x8000_0000_0000_0000)) by (bit_vector)
            requires
                top == bits & 0x8000_0000_0000_0000,
        ;
        assert(low == bits % 256) by (bit_vector)
            requires
                low == bits & 0xff,
        ;
        if top != 0 {
            Err(0)
        } else {
            let cause: u8 = low as u8;
            if cause == CAUSE_VIRTUAL_SUPERVISOR_ECALL {
                Ok(GuestExit::Exception(SupervisorExceptionCause::EcallVsMode))
            } else if cause == CAUSE_LOAD_GUEST_PAGE_FAULT {
                Ok(GuestExit::Exception(SupervisorExceptionCause::GuestLoadPageFault))
            } else if cause == CAUSE_STORE_GUEST_PAGE_FAULT {
                Ok(GuestExit::Exception(SupervisorExceptionCause::GuestStoreAmoPageFault))
            } else {
                Err(cause as u64)
            }
        }
    }
}

} // verus!
