//! The confidential-VM extension, carried at register level.

use crate::error::Error;
use crate::function::SbiFunction;
use vstd::prelude::*;

verus! {

/// A call into the extension for confidential virtual machines.
///
/// The operations of this extension belong to the module that serves them.
/// This layer carries such a call as the registers it is made of, the
/// function selector and six arguments, and neither accepts nor rejects a
/// selector: every bank that names the extension is a call.
#[derive(Clone, Copy, Debug, PartialEq, Eq, Structural)]
pub struct TeeFunction {
    /// a6 - the function selector.
    pub function_id: u64,
    /// a0 - first argument.
    pub arg0: u64,
    /// a1 - second argument.
    pub arg1: u64,
    /// a2 - third argument.
    pub arg2: u64,
    /// a3 - fourth argument.
    pub arg3: u64,
    /// a4 - fifth argument.
    pub arg4: u64,
    /// a5 - sixth argument.
    pub arg5: u64,
}

impl TeeFunction {
    /// The registers `a0`..`a6` of this call.
    pub open spec fn spec_args(self) -> Seq<u64> {
        seq![
            self.arg0,
            self.arg1,
            self.arg2,
            self.arg3,
            self.arg4,
            self.arg5,
            self.function_id,
        ]
    }

    /// The call that a register bank holds.
    pub open spec fn spec_from_regs(regs: Seq<u64>) -> Result<TeeFunction, Error> {
        Ok(
            TeeFunction {
                function_id: regs[6],
                arg0: regs[0],
                arg1: regs[1],
                arg2: regs[2],
                arg3: regs[3],
                arg4: regs[4],
                arg5: regs[5],
            },
        )
    }

    /// Attempts to parse `Self` from the passed in `a0-a7`.
    pub fn from_regs(args: &[u64]) -> (r: Result<TeeFunction, Error>)
        requires
            args@.len() >= 7,
        ensures
            r == TeeFunction::spec_from_regs(args@),
            r is Ok,
    {
        Ok(
            TeeFunction {
                function_id: args[6],
                arg0: args[0],
                arg1: args[1],
                arg2: args[2],
                arg3: args[3],
                arg4: args[4],
                arg5: args[5],
            },
        )
    }
}

impl SbiFunction for TeeFunction {
    fn a6(&self) -> (r: u64)
        ensures
            r == self.spec_args()[6],
    {
        self.function_id
    }

    fn a5(&self) -> (r: u64)
        ensures
            r == self.spec_args()[5],
    {
        self.arg5
    }

    fn a4(&self) -> (r: u64)
        ensures
            r == self.spec_args()[4],
    {
        self.arg4
    }

    fn a3(&self) -> (r: u64)
        ensures
            r == self.spec_args()[3],
    {
        self.arg3
    }

    fn a2(&self) -> (r: u64)
        ensures
            r == self.spec_args()[2],
    {
        self.arg2
    }

    fn a1(&self) -> (r: u64)
        ensures
            r == self.spec_args()[1],
    {
        self.arg1
    }

    fn a0(&self) -> (r: u64)
        ensures
            r == self.spec_args()[0],
    {
        self.arg0
    }
}

} // verus!
