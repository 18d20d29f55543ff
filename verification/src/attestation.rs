//! The attestation extension: evidence and measurements.

use crate::error::Error;
use vstd::prelude::*;

verus! {

/// Functions provided by the attestation extension.
#[derive(Clone, Copy, Debug, PartialEq, Eq, Structural)]
pub enum AttestationFunction {
    /// Asks for attestation evidence for a certificate signing request.
    /// The caller passes the request and its length, and the buffer that
    /// receives the generated certificate.
    GetEvidence {
        /// a0 = CSR address
        csr_addr: u64,
        /// a1 = CSR length
        csr_len: u64,
        /// a2 = Generated Certificate address
        cert_addr: u64,
        /// a3 = Reserved length for the generated certificate address
        cert_len: u64,
    },
    /// Extends the measurement of the trusted computing base with one more
    /// entry.
    ExtendMeasurement {
        /// a0 = measurement address
        measurement_addr: u64,
        /// a1 = measurement length
        len: u64,
    },
}

impl AttestationFunction {
    /// The registers `a0`..`a6` of a call of this function.
    pub open spec fn spec_args(self) -> Seq<u64> {
        match self {
            AttestationFunction::GetEvidence { csr_addr, csr_len, cert_addr, cert_len } => seq![
                csr_addr,
                csr_len,
                cert_addr,
                cert_len,
                0,
                0,
                0,
            ],
            AttestationFunction::ExtendMeasurement { measurement_addr, len } => seq![
                measurement_addr,
                len,
                0,
                0,
                0,
                0,
                1,
            ],
        }
    }

    /// The function that a register bank selects in this extension, by `a6`.
    pub open spec fn spec_from_regs(regs: Seq<u64>) -> Result<AttestationFunction, Error> {
        if regs[6] == 0 {
            Ok(
                AttestationFunction::GetEvidence {
                    csr_addr: regs[0],
                    csr_len: regs[1],
                    cert_addr: regs[2],
                    cert_len: regs[3],
                },
            )
        } else if regs[6] == 1 {
            Ok(AttestationFunction::ExtendMeasurement { measurement_addr: regs[0], len: regs[1] })
        } else {
            Err(Error::NotSupported)
        }
    }

    /// Attempts to parse `Self` from the passed in `a0-a7`.
    pub fn from_regs(args: &[u64]) -> (r: Result<AttestationFunction, Error>)
        requires
            args@.len() >= 7,
        ensures
            r == AttestationFunction::spec_from_regs(args@),
            r is Ok <==> args@[6] <= 1,
            r is Err ==> r == Err::<AttestationFunction, Error>(Error::NotSupported),
    {
        match args[6] {
            0 => Ok(
                AttestationFunction::GetEvidence {
                    csr_addr: args[0],
                    csr_len: args[1],
                    cert_addr: args[2],
                    cert_len: args[3],
                },
            ),
            1 => Ok(
                AttestationFunction::ExtendMeasurement { measurement_addr: args[0], len: args[1] },
            ),
            _ => Err(Error::NotSupported),
        }
    }

    /// Returns the value for register `a6`, the function selector.
    pub fn a6(&self) -> (r: u64)
        ensures
            r == self.spec_args()[6],
    {
        match self {
            AttestationFunction::GetEvidence {
                csr_addr: _,
                csr_len: _,
                cert_addr: _,
                cert_len: _,
            } => 0,
            AttestationFunction::ExtendMeasurement { measurement_addr: _, len: _ } => 1,
        }
    }

    /// Returns the value for register `a3`.
    pub fn a3(&self) -> (r: u64)
        ensures
            r == self.spec_args()[3],
    {
        match self {
            AttestationFunction::GetEvidence {
                csr_addr: _,
                csr_len: _,
                cert_addr: _,
                cert_len,
            } => *cert_len,
            AttestationFunction::ExtendMeasurement { measurement_addr: _, len: _ } => 0,
        }
    }

    /// Returns the value for register `a2`.
    pub fn a2(&self) -> (r: u64)
        ensures
            r == self.spec_args()[2],
    {
        match self {
            AttestationFunction::GetEvidence {
                csr_addr: _,
                csr_len: _,
                cert_addr,
                cert_len: _,
            } => *cert_addr,
            AttestationFunction::ExtendMeasurement { measurement_addr: _, len: _ } => 0,
        }
    }

    /// Returns the value for register `a1`.
    pub fn a1(&self) -> (r: u64)
        ensures
            r == self.spec_args()[1],
    {
        match self {
            AttestationFunction::GetEvidence {
                csr_addr: _,
                csr_len,
                cert_addr: _,
                cert_len: _,
            } => *csr_len,
            AttestationFunction::ExtendMeasurement { measurement_addr: _, len } => *len,
        }
    }

    /// Returns the value for register `a0`.
    pub fn a0(&self) -> (r: u64)
        ensures
            r == self.spec_args()[0],
    {
        match self {
            AttestationFunction::GetEvidence {
                csr_addr,
                csr_len: _,
                cert_addr: _,
                cert_len: _,
            } => *csr_addr,
            AttestationFunction::ExtendMeasurement { measurement_addr, len: _ } => {
                *measurement_addr
            },
        }
    }
}

} // verus!
