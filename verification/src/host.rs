//! The host bridge: embedder-supplied functions callable from the executor.
//!
//! A host function body is a signature plus one capability: given the
//! arguments, a result buffer, and a context lending the calling module's
//! first linear memory, it succeeds or raises a trap. Nothing is assumed of
//! what an embedder's code does; the executor checks what comes back.

use vstd::prelude::*;
use crate::global::DefinedGlobalInstance;
use crate::memory::DefinedMemoryInstance;
use crate::table::DefinedTableInstance;
use crate::trap::Trap;
use crate::types::FuncType;
use crate::value::WasmValue;

verus! {

/// What a host function sees while it runs: the bytes of the calling
/// module's first defined memory (empty when the module has none). The
/// executor lends the storage and takes it back after the call.
pub struct HostContext {
    pub mem: Vec<u8>,
}

/// Embedder-supplied behavior: one call capability.
///
/// The store owns these callables, and the verifier rejects, as a cyclic
/// definition, any contract on them that speaks of the store; a store
/// handed over without a contract would void every guarantee the executor
/// keeps. The callable therefore works on the arguments, the result buffer
/// and the lent linear memory, and the executor checks what comes back.
pub trait HostCode {
    /// Runs the host function on `args`, writing its results into
    /// `results`, with `ctx` lending the caller's linear memory.
    fn call(
        &self,
        args: &Vec<WasmValue>,
        results: &mut Vec<WasmValue>,
        ctx: &mut HostContext,
    ) -> Result<(), Trap>;
}

/// An embedder-provided entity handed over at host-module registration.
pub enum HostValue {
    Func(HostFuncBody),
    Global(DefinedGlobalInstance),
    Mem(DefinedMemoryInstance),
    Table(DefinedTableInstance),
}

/// The kind of a host entity, as the word the errors use.
pub open spec fn spec_host_kind_name(v: &HostValue) -> Seq<char> {
    match v {
        HostValue::Func(_) => "function"@,
        HostValue::Global(_) => "global"@,
        HostValue::Mem(_) => "memory"@,
        HostValue::Table(_) => "table"@,
    }
}

impl HostValue {
    /// The kind of the entity, as a human-readable word.
    pub fn ty(&self) -> (r: &'static str)
        ensures
            r@ == spec_host_kind_name(self),
    {
        match self {
            HostValue::Func(_) => "function",
            HostValue::Global(_) => "global",
            HostValue::Mem(_) => "memory",
            HostValue::Table(_) => "table",
        }
    }
}

/// A host function: its signature and its behavior.
pub struct HostFuncBody {
    ty: FuncType,
    code: Box<dyn HostCode>,
}

impl HostFuncBody {
    /// The signature.
    pub closed spec fn spec_ty(&self) -> FuncType {
        self.ty
    }

    /// Creates a host function from a signature and a behavior.
    pub fn new(ty: FuncType, code: Box<dyn HostCode>) -> (r: Self)
        ensures
            r.spec_ty() == ty,
    {
        HostFuncBody { ty, code }
    }

    /// Runs the behavior. Nothing is assumed of an embedder's code: the
    /// caller must check what came back in `results`.
    pub fn call(
        &self,
        param: &Vec<WasmValue>,
        results: &mut Vec<WasmValue>,
        ctx: &mut HostContext,
    ) -> (r: Result<(), Trap>) {
        self.code.call(param, results, ctx)
    }

    /// The signature.
    pub fn ty(&self) -> (r: &FuncType)
        ensures
            r == &self.spec_ty(),
    {
        &self.ty
    }
}

} // verus!
