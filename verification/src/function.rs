//! The interface that every extension's functions share.

use vstd::prelude::*;

verus! {

/// What a function of an extension puts into the registers of a call.
///
/// `a7` always holds the extension and is not the function's to fill. Of the
/// other seven registers a function overrides the ones it uses; a register
/// that it leaves alone is zero, so that the whole bank is determined by the
/// call.
pub trait SbiFunction {
    /// Returns the value for register `a6`, the function selector.
    fn a6(&self) -> (r: u64)
        default_ensures
            r == 0,
    {
        0
    }

    /// Returns the value for register `a5`.
    fn a5(&self) -> (r: u64)
        default_ensures
            r == 0,
    {
        0
    }

    /// Returns the value for register `a4`.
    fn a4(&self) -> (r: u64)
        default_ensures
            r == 0,
    {
        0
    }

    /// Returns the value for register `a3`.
    fn a3(&self) -> (r: u64)
        default_ensures
            r == 0,
    {
        0
    }

    /// Returns the value for register `a2`.
    fn a2(&self) -> (r: u64)
        default_ensures
            r == 0,
    {
        0
    }

    /// Returns the value for register `a1`.
    fn a1(&self) -> (r: u64)
        default_ensures
            r == 0,
    {
        0
    }

    /// Returns the value for register `a0`.
    fn a0(&self) -> (r: u64)
        default_ensures
            r == 0,
    {
        0
    }
}

} // verus!
