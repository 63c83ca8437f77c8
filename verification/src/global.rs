//! Global instances: one value and a mutability flag.

use vstd::prelude::*;
use crate::value::WasmValue;

verus! {

/// A defined global variable.
pub struct DefinedGlobalInstance {
    value: WasmValue,
    mutable: bool,
}

impl DefinedGlobalInstance {
    /// The held value.
    pub closed spec fn spec_value(&self) -> WasmValue {
        self.value
    }

    /// Whether the global may be assigned.
    pub closed spec fn spec_mutable(&self) -> bool {
        self.mutable
    }

    /// Creates a global holding `value`.
    pub fn new(value: WasmValue, mutable: bool) -> (g: Self)
        ensures
            g.spec_value() == value,
            g.spec_mutable() == mutable,
    {
        DefinedGlobalInstance { value, mutable }
    }

    /// The held value.
    pub fn value(&self) -> (r: WasmValue)
        ensures
            r == self.spec_value(),
    {
        self.value
    }

    /// Whether the global may be assigned.
    pub fn is_mutable(&self) -> (r: bool)
        ensures
            r == self.spec_mutable(),
    {
        self.mutable
    }

    /// Replaces the held value; fails exactly on an immutable global,
    /// leaving it unchanged.
    pub fn set_value(&mut self, value: WasmValue) -> (r: Result<(), ()>)
        ensures
            final(self).spec_mutable() == old(self).spec_mutable(),
            match r {
                Ok(()) => old(self).spec_mutable() && final(self).spec_value() == value,
                Err(()) => !old(self).spec_mutable() && final(self).spec_value() == old(
                    self,
                ).spec_value(),
            },
    {
        if self.mutable {
            self.value = value;
            Ok(())
        } else {
            Err(())
        }
    }
}

} // verus!
