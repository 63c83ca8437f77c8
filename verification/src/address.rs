//! Typed handles into the store.
//!
//! Every addressable entity is a pair of a module index and an index local
//! to that module. Handles are copyable and are never reused while the
//! store that issued them is alive.

use vstd::prelude::*;

verus! {

/// Dense, monotonically assigned identifier of a loaded module.
#[derive(Copy, Clone, PartialEq, Eq, Structural, Debug, Hash)]
pub struct ModuleIndex(pub u32);

/// Handle of a function, relative to the index space of one module.
#[derive(Copy, Clone, PartialEq, Eq, Structural, Debug)]
pub struct FuncAddr(pub ModuleIndex, pub usize);

/// Handle of a linear memory, relative to the index space of one module.
#[derive(Copy, Clone, PartialEq, Eq, Structural, Debug)]
pub struct MemoryAddr(pub ModuleIndex, pub usize);

/// Handle of a table, relative to the index space of one module.
#[derive(Copy, Clone, PartialEq, Eq, Structural, Debug)]
pub struct TableAddr(pub ModuleIndex, pub usize);

/// Handle of a global, relative to the index space of one module.
#[derive(Copy, Clone, PartialEq, Eq, Structural, Debug)]
pub struct GlobalAddr(pub ModuleIndex, pub usize);

/// Index into the store's flat vector of function instances; the result of
/// resolving a `FuncAddr` through any import indirections.
#[derive(Copy, Clone, PartialEq, Eq, Structural, Debug)]
pub struct ExecutableFuncAddr(pub usize);

} // verus!
