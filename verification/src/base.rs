//! The base extension: what the implementation is and what it supports.

use crate::error::Error;
use crate::function::SbiFunction;
use vstd::prelude::*;

verus! {

/// Functions defined for the Base extension
#[derive(Clone, Copy, Debug, PartialEq, Eq, Structural)]
pub enum BaseFunction {
    /// Returns the implemented version of the SBI standard.
    GetSpecificationVersion,
    /// Returns the ID of the SBI implementation.
    GetImplementationID,
    /// Returns the version of this SBI implementation.
    GetImplementationVersion,
    /// Checks if the given SBI extension is supported.
    ProbeSbiExtension(u64),
    /// Returns the vendor that produced this machine(`mvendorid`).
    GetMachineVendorID,
    /// Returns the architecture implementation ID this machine(`marchid`).
    GetMachineArchitectureID,
    /// Returns the implementation ID of this machine(`mimpid`).
    GetMachineImplementationID,
}

impl BaseFunction {
    /// The registers `a0`..`a6` of a call of this function.
    pub open spec fn spec_args(self) -> Seq<u64> {
        match self {
            BaseFunction::GetSpecificationVersion => seq![0, 0, 0, 0, 0, 0, 0],
            BaseFunction::GetImplementationID => seq![0, 0, 0, 0, 0, 0, 1],
            BaseFunction::GetImplementationVersion => seq![0, 0, 0, 0, 0, 0, 2],
            BaseFunction::ProbeSbiExtension(ext) => seq![ext, 0, 0, 0, 0, 0, 3],
            BaseFunction::GetMachineVendorID => seq![0, 0, 0, 0, 0, 0, 4],
            BaseFunction::GetMachineArchitectureID => seq![0, 0, 0, 0, 0, 0, 5],
            BaseFunction::GetMachineImplementationID => seq![0, 0, 0, 0, 0, 0, 6],
        }
    }

    /// The function that a register bank selects in this extension, by `a6`.
    pub open spec fn spec_from_regs(regs: Seq<u64>) -> Result<BaseFunction, Error> {
        if regs[6] == 0 {
            Ok(BaseFunction::GetSpecificationVersion)
        } else if regs[6] == 1 {
            Ok(BaseFunction::GetImplementationID)
        } else if regs[6] == 2 {
            Ok(BaseFunction::GetImplementationVersion)
        } else if regs[6] == 3 {
            Ok(BaseFunction::ProbeSbiExtension(regs[0]))
        } else if regs[6] == 4 {
            Ok(BaseFunction::GetMachineVendorID)
        } else if regs[6] == 5 {
            Ok(BaseFunction::GetMachineArchitectureID)
        } else if regs[6] == 6 {
            Ok(BaseFunction::GetMachineImplementationID)
        } else {
            Err(Error::NotSupported)
        }
    }

    /// Attempts to parse `Self` from the passed in `a0-a7`.
    pub fn from_regs(args: &[u64]) -> (r: Result<BaseFunction, Error>)
        requires
            args@.len() >= 7,
        ensures
            r == BaseFunction::spec_from_regs(args@),
            r is Ok <==> args@[6] <= 6,
            r is Err ==> r == Err::<BaseFunction, Error>(Error::NotSupported),
    {
        match args[6] {
            0 => Ok(BaseFunction::GetSpecificationVersion),
            1 => Ok(BaseFunction::GetImplementationID),
            2 => Ok(BaseFunction::GetImplementationVersion),
            3 => Ok(BaseFunction::ProbeSbiExtension(args[0])),
            4 => Ok(BaseFunction::GetMachineVendorID),
            5 => Ok(BaseFunction::GetMachineArchitectureID),
            6 => Ok(BaseFunction::GetMachineImplementationID),
            _ => Err(Error::NotSupported),
        }
    }
}

impl SbiFunction for BaseFunction {
    fn a6(&self) -> (r: u64)
        ensures
            r == self.spec_args()[6],
    {
        match self {
            BaseFunction::GetSpecificationVersion => 0,
            BaseFunction::GetImplementationID => 1,
            BaseFunction::GetImplementationVersion => 2,
            BaseFunction::ProbeSbiExtension(_) => 3,
            BaseFunction::GetMachineVendorID => 4,
            BaseFunction::GetMachineArchitectureID => 5,
            BaseFunction::GetMachineImplementationID => 6,
        }
    }

    fn a0(&self) -> (r: u64)
        ensures
            r == self.spec_args()[0],
    {
        match self {
            BaseFunction::ProbeSbiExtension(ext) => *ext,
            _ => 0,
        }
    }
}

} // verus!
