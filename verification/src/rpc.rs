//! The message envelope of the out-of-process interface, and the wire form
//! of values.
//!
//! Requests are binary (a kind tag and opaque bytes) or text (a tagged
//! union of commands); responses are text. A wire value carries its 32- or
//! 64-bit encoding verbatim, so moving a value onto the wire and back is
//! the identity on integers and bit-identity on floats. Client-side
//! numbers travel as their 64-bit float encodings; only the embedder-facing
//! layer interprets them as floats.

use vstd::prelude::*;
use crate::value;

verus! {

/// A client-side number: the bit pattern of its 64-bit float form.
pub type JSNumber = u64;

/// A value on the wire: the type tag and the raw encoding.
#[derive(Copy, Clone, PartialEq, Eq, Structural, Debug)]
pub enum WasmValue {
    F32 { value: u32 },
    F64 { value: u64 },
    I32 { value: i32 },
    I64 { value: i64 },
}

/// The machine value a wire value stands for.
pub open spec fn spec_to_vm(w: WasmValue) -> value::WasmValue {
    match w {
        WasmValue::F32 { value } => value::WasmValue::F32(value),
        WasmValue::F64 { value } => value::WasmValue::F64(value),
        WasmValue::I32 { value } => value::WasmValue::I32(value),
        WasmValue::I64 { value } => value::WasmValue::I64(value),
    }
}

/// The wire form of a machine value; references and vectors have none.
pub open spec fn spec_from_vm(v: value::WasmValue) -> Option<WasmValue> {
    match v {
        value::WasmValue::I32(x) => Some(WasmValue::I32 { value: x }),
        value::WasmValue::I64(x) => Some(WasmValue::I64 { value: x }),
        value::WasmValue::F32(x) => Some(WasmValue::F32 { value: x }),
        value::WasmValue::F64(x) => Some(WasmValue::F64 { value: x }),
        _ => None,
    }
}

/// Converts a wire value to the machine value it stands for.
pub fn to_vm_wasm_value(value: &WasmValue) -> (r: value::WasmValue)
    ensures
        r == spec_to_vm(*value),
{
    match value {
        WasmValue::F32 { value } => value::WasmValue::F32(*value),
        WasmValue::F64 { value } => value::WasmValue::F64(*value),
        WasmValue::I32 { value } => value::WasmValue::I32(*value),
        WasmValue::I64 { value } => value::WasmValue::I64(*value),
    }
}

/// Converts a machine value to its wire form; fails exactly on references
/// and vectors, which have none.
pub fn from_vm_wasm_value(value: &value::WasmValue) -> (r: Option<WasmValue>)
    ensures
        r == spec_from_vm(*value),
{
    match value {
        value::WasmValue::F32(v) => Some(WasmValue::F32 { value: *v }),
        value::WasmValue::F64(v) => Some(WasmValue::F64 { value: *v }),
        value::WasmValue::I32(v) => Some(WasmValue::I32 { value: *v }),
        value::WasmValue::I64(v) => Some(WasmValue::I64 { value: *v }),
        _ => None,
    }
}

/// Moving a numeric machine value onto the wire and back is the identity:
/// exact on 32- and 64-bit integers, bit-identical on 32- and 64-bit
/// floats.
pub proof fn lemma_wire_round_trip(v: value::WasmValue)
    requires
        v is I32 || v is I64 || v is F32 || v is F64,
    ensures
        spec_from_vm(v) matches Some(w) && spec_to_vm(w) == v,
{
}

/// A wire value taken from the wire and put back is reproduced verbatim.
pub proof fn lemma_wire_round_trip_back(w: WasmValue)
    ensures
        spec_from_vm(spec_to_vm(w)) == Some(w),
{
}

/// The kind tag of a binary request.
#[derive(Copy, Clone, PartialEq, Eq, Structural, Debug)]
pub enum BinaryRequestKind {
    Init,
}

/// A binary request: a kind tag and opaque bytes.
pub struct BinaryRequest {
    pub kind: BinaryRequestKind,
    pub bytes: Vec<u8>,
}

/// A text request from the client.
pub enum TextRequest {
    Version,
    CallExported { name: String, args: Vec<JSNumber> },
    CallResult { values: Vec<JSNumber> },
    LoadMemory { offset: usize, length: usize },
    StoreMemory { offset: usize, bytes: Vec<u8> },
}

/// A request from the client.
pub enum Request {
    Binary(BinaryRequest),
    Text(TextRequest),
}

/// One export named in an `Init` response; a memory carries its current
/// byte length.
pub enum WasmExport {
    Function { name: String },
    Memory { name: String, memory_size: usize },
    Global { name: String },
    Table { name: String },
}

/// A text response to the client.
pub enum TextResponse {
    Version { value: String },
    Init { exports: Vec<WasmExport> },
    CallResult { values: Vec<WasmValue> },
    CallHost { module: String, field: String, args: Vec<WasmValue> },
    LoadMemoryResult { bytes: Vec<u8> },
    StoreMemoryResult,
    Error { message: String },
}

/// A response to the client.
pub enum Response {
    Text(TextResponse),
}

/// A request the server cannot serve as asked.
#[derive(Copy, Clone, PartialEq, Eq, Structural, Debug)]
pub enum RequestError {
    CallArgumentLengthMismatch,
    UnexpectedCallResult,
    NoModuleLoaded,
}

} // verus!
