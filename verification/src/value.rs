//! Tagged scalar values and their types.
//!
//! Floating-point values are carried as their IEEE-754 bit patterns so that
//! NaN payloads survive every move through the system; equality on values is
//! therefore bit-equality.

use vstd::prelude::*;
use crate::address::FuncAddr;

verus! {

/// The type of a WebAssembly value.
#[derive(Copy, Clone, PartialEq, Eq, Structural, Debug)]
pub enum ValType {
    I32,
    I64,
    F32,
    F64,
    V128,
    FuncRef,
    ExternRef,
}

/// A tagged scalar value. The `F32` and `F64` variants hold the 32-bit and
/// 64-bit encodings of the float; `V128` holds the 128-bit vector verbatim.
#[derive(Copy, Clone, PartialEq, Eq, Structural, Debug)]
pub enum WasmValue {
    I32(i32),
    I64(i64),
    F32(u32),
    F64(u64),
    V128(u128),
    FuncRef(Option<FuncAddr>),
    ExternRef(Option<u32>),
}

impl WasmValue {
    /// The type tag of this value.
    pub fn value_type(&self) -> (t: ValType)
        ensures
            t == self.spec_value_type(),
    {
        match self {
            WasmValue::I32(_) => ValType::I32,
            WasmValue::I64(_) => ValType::I64,
            WasmValue::F32(_) => ValType::F32,
            WasmValue::F64(_) => ValType::F64,
            WasmValue::V128(_) => ValType::V128,
            WasmValue::FuncRef(_) => ValType::FuncRef,
            WasmValue::ExternRef(_) => ValType::ExternRef,
        }
    }

    /// The type tag of this value, as a specification-level function.
    pub open spec fn spec_value_type(self) -> ValType {
        match self {
            WasmValue::I32(_) => ValType::I32,
            WasmValue::I64(_) => ValType::I64,
            WasmValue::F32(_) => ValType::F32,
            WasmValue::F64(_) => ValType::F64,
            WasmValue::V128(_) => ValType::V128,
            WasmValue::FuncRef(_) => ValType::FuncRef,
            WasmValue::ExternRef(_) => ValType::ExternRef,
        }
    }

    /// The zero value of a type: numeric zero, or a null reference.
    pub fn default_for(ty: ValType) -> (v: WasmValue)
        ensures
            v == Self::spec_default_for(ty),
            v.spec_value_type() == ty,
    {
        match ty {
            ValType::I32 => WasmValue::I32(0),
            ValType::I64 => WasmValue::I64(0),
            ValType::F32 => WasmValue::F32(0),
            ValType::F64 => WasmValue::F64(0),
            ValType::V128 => WasmValue::V128(0),
            ValType::FuncRef => WasmValue::FuncRef(None),
            ValType::ExternRef => WasmValue::ExternRef(None),
        }
    }

    /// The zero value of a type, as a specification-level function.
    pub open spec fn spec_default_for(ty: ValType) -> WasmValue {
        match ty {
            ValType::I32 => WasmValue::I32(0),
            ValType::I64 => WasmValue::I64(0),
            ValType::F32 => WasmValue::F32(0),
            ValType::F64 => WasmValue::F64(0),
            ValType::V128 => WasmValue::V128(0),
            ValType::FuncRef => WasmValue::FuncRef(None),
            ValType::ExternRef => WasmValue::ExternRef(None),
        }
    }

    /// Constructs an `f32` value from its bit pattern.
    pub fn f32_from_bits(bits: u32) -> (v: WasmValue)
        ensures
            v == WasmValue::F32(bits),
    {
        WasmValue::F32(bits)
    }

    /// Constructs an `f64` value from its bit pattern.
    pub fn f64_from_bits(bits: u64) -> (v: WasmValue)
        ensures
            v == WasmValue::F64(bits),
    {
        WasmValue::F64(bits)
    }
}

} // verus!
