//! What a call returns: the two reply registers and their two readings.

use crate::consts::SBI_SUCCESS;
use crate::error::Error;
use vstd::prelude::*;
use vstd::std_specs::convert::FromSpecImpl;

verus! {

/// The values returned from an SBI function call.
#[derive(Clone, Copy, Debug, PartialEq, Eq, Structural)]
pub struct SbiReturn {
    /// The error code (0 for success).
    pub error_code: i64,
    /// The return value if the operation is successful.
    pub return_value: u64,
}

impl SbiReturn {
    /// The reply of a call that succeeded with `return_value`.
    pub open spec fn spec_success(return_value: u64) -> SbiReturn {
        SbiReturn { error_code: SBI_SUCCESS, return_value }
    }

    /// The reply that reports `error`. Its value register is zero.
    pub open spec fn spec_failure(error: Error) -> SbiReturn {
        SbiReturn { error_code: error.spec_code(), return_value: 0 }
    }

    /// The reply that reports an outcome.
    pub open spec fn spec_from_result(result: Result<u64, Error>) -> SbiReturn {
        match result {
            Ok(return_value) => SbiReturn::spec_success(return_value),
            Err(error) => SbiReturn::spec_failure(error),
        }
    }

    /// The outcome that this reply reports: the value if the code is the
    /// success code, else the kind that the code stands for.
    pub open spec fn spec_result(self) -> Result<u64, Error> {
        if self.error_code == SBI_SUCCESS {
            Ok(self.return_value)
        } else {
            Err(Error::spec_from_code(self.error_code))
        }
    }

    /// The signed number that the bits of a reply register stand for, in
    /// two's complement.
    pub open spec fn spec_signed(a0: u64) -> i64 {
        if a0 < 0x8000_0000_0000_0000 {
            a0 as i64
        } else {
            (a0 - 0x1_0000_0000_0000_0000) as i64
        }
    }

    /// The reply that the two reply registers hold: a signed code in `a0`
    /// and a value in `a1`.
    pub open spec fn spec_from_regs(a0: u64, a1: u64) -> SbiReturn {
        SbiReturn { error_code: SbiReturn::spec_signed(a0), return_value: a1 }
    }

    /// Reads the two reply registers as a signed code and a value.
    pub fn from_regs(a0: u64, a1: u64) -> (ret: SbiReturn)
        ensures
            ret == SbiReturn::spec_from_regs(a0, a1),
    {
        let code: i64 = if a0 < 0x8000_0000_0000_0000 {
            a0 as i64
        } else {
            let below: u64 = u64::MAX - a0;
            -(below as i64) - 1
        };
        SbiReturn { error_code: code, return_value: a1 }
    }

    /// Returns an `SbiReturn` that indicates success.
    pub fn success(return_value: u64) -> (ret: SbiReturn)
        ensures
            ret == SbiReturn::spec_success(return_value),
    {
        SbiReturn { error_code: SBI_SUCCESS, return_value }
    }

    /// An outcome that is written to the reply registers and read back is
    /// the outcome that was written.
    pub proof fn lemma_result_round_trip(result: Result<u64, Error>)
        ensures
            SbiReturn::spec_from_result(result).spec_result() == result,
    {
        if let Err(e) = result {
            Error::lemma_code_round_trip(e);
        }
    }
}

impl From<Result<u64, Error>> for SbiReturn {
    fn from(result: Result<u64, Error>) -> (ret: SbiReturn) {
        match result {
            Ok(rv) => SbiReturn::success(rv),
            Err(e) => SbiReturn { error_code: e.code(), return_value: 0 },
        }
    }
}

impl FromSpecImpl<Result<u64, Error>> for SbiReturn {
    open spec fn obeys_from_spec() -> bool {
        true
    }

    open spec fn from_spec(result: Result<u64, Error>) -> SbiReturn {
        SbiReturn::spec_from_result(result)
    }
}

impl From<Error> for SbiReturn {
    fn from(error: Error) -> (ret: SbiReturn) {
        SbiReturn { error_code: error.code(), return_value: 0 }
    }
}

impl FromSpecImpl<Error> for SbiReturn {
    open spec fn obeys_from_spec() -> bool {
        true
    }

    open spec fn from_spec(error: Error) -> SbiReturn {
        SbiReturn::spec_failure(error)
    }
}

impl From<SbiReturn> for Result<u64, Error> {
    fn from(ret: SbiReturn) -> (result: Result<u64, Error>) {
        if ret.error_code == SBI_SUCCESS {
            Ok(ret.return_value)
        } else {
            Err(Error::from_code(ret.error_code))
        }
    }
}

impl FromSpecImpl<SbiReturn> for Result<u64, Error> {
    open spec fn obeys_from_spec() -> bool {
        true
    }

    open spec fn from_spec(ret: SbiReturn) -> Result<u64, Error> {
        ret.spec_result()
    }
}

/// SBI return value conventions.
#[derive(Clone, Copy, Debug, PartialEq, Eq, Structural)]
pub enum SbiReturnType {
    /// Legacy (v0.1) extensions return a single value in A0, usually with the convention that 0
    /// is success and < 0 is an implementation defined error code.
    Legacy(u64),
    /// Modern extensions use the standard error code values enumerated above.
    Standard(SbiReturn),
}

impl SbiReturnType {
    /// The outcome that a reply reports under its convention. A legacy reply
    /// is a success without a value if its register is zero and else a
    /// failure of the one kind that the convention knows.
    pub open spec fn spec_result(self) -> Result<u64, Error> {
        match self {
            SbiReturnType::Legacy(a0) => if a0 == 0 {
                Ok(0)
            } else {
                Err(Error::Failed)
            },
            SbiReturnType::Standard(ret) => ret.spec_result(),
        }
    }

    /// Returns the outcome that this reply reports under its convention.
    pub fn result(&self) -> (r: Result<u64, Error>)
        ensures
            r == self.spec_result(),
    {
        match self {
            SbiReturnType::Legacy(a0) => {
                if *a0 == 0 {
                    Ok(0)
                } else {
                    Err(Error::Failed)
                }
            },
            SbiReturnType::Standard(ret) => {
                if ret.error_code == SBI_SUCCESS {
                    Ok(ret.return_value)
                } else {
                    Err(Error::from_code(ret.error_code))
                }
            },
        }
    }
}

} // verus!
