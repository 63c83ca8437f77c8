//! Traps: the execution-terminating conditions WebAssembly defines.

use vstd::prelude::*;

verus! {

/// A trap. It unwinds through the frame stack to the export caller.
#[derive(Debug, PartialEq, Eq)]
pub enum Trap {
    Unreachable,
    DivisionByZero,
    IntegerOverflow,
    InvalidConversionToInt,
    OutOfBoundsMemoryAccess,
    OutOfBoundsTableAccess,
    UninitializedElement,
    UndefinedElement,
    IndirectCallTypeMismatch,
    StackOverflow,
    HostFunctionError(String),
}

} // verus!
