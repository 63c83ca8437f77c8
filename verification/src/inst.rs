//! The normalized instruction model.
//!
//! Every decoded operator becomes one `Instruction`: a kind plus the
//! operator's byte offset relative to the start of the enclosing function
//! body's payload, the key used by source-level line mapping.

use vstd::prelude::*;
use crate::value::ValType;

verus! {

/// The type of a structured-control block: no value, a single value type,
/// or an index into the module's function-type table.
#[derive(Copy, Clone, PartialEq, Eq, Structural, Debug)]
pub enum BlockType {
    Empty,
    Value(ValType),
    TypeIndex(u32),
}

/// Immediate of a memory access: alignment hint (log2), constant offset
/// added to the dynamic address, and the memory index.
#[derive(Copy, Clone, PartialEq, Eq, Structural, Debug)]
pub struct MemArg {
    pub align: u32,
    pub offset: u32,
    pub memory: u32,
}

/// The branch table of `br_table`: a list of target depths and the default
/// depth taken when the operand indexes past the list.
#[derive(Clone, PartialEq, Eq, Debug)]
pub struct BrTableData {
    pub table: Vec<u32>,
    pub default: u32,
}

/// One decoded operator with its payload.
#[derive(Clone, PartialEq, Eq, Debug)]
pub enum InstructionKind {
    Unreachable,
    Nop,
    Block { ty: BlockType },
    Loop { ty: BlockType },
    If { ty: BlockType },
    Else,
    Try { ty: BlockType },
    Catch { index: u32 },
    Throw { index: u32 },
    Rethrow { relative_depth: u32 },
    End,
    Br { relative_depth: u32 },
    BrIf { relative_depth: u32 },
    BrTable { table: BrTableData },
    Return,
    Call { function_index: u32 },
    CallIndirect { index: u32, table_index: u32 },
    ReturnCall { function_index: u32 },
    ReturnCallIndirect { index: u32, table_index: u32 },
    Delegate { relative_depth: u32 },
    CatchAll,
    Drop,
    Select,
    TypedSelect { ty: ValType },
    LocalGet { local_index: u32 },
    LocalSet { local_index: u32 },
    LocalTee { local_index: u32 },
    GlobalGet { global_index: u32 },
    GlobalSet { global_index: u32 },
    TableGet { table: u32 },
    TableSet { table: u32 },
    I32Load { memarg: MemArg },
    I64Load { memarg: MemArg },
    F32Load { memarg: MemArg },
    F64Load { memarg: MemArg },
    I32Load8S { memarg: MemArg },
    I32Load8U { memarg: MemArg },
    I32Load16S { memarg: MemArg },
    I32Load16U { memarg: MemArg },
    I64Load8S { memarg: MemArg },
    I64Load8U { memarg: MemArg },
    I64Load16S { memarg: MemArg },
    I64Load16U { memarg: MemArg },
    I64Load32S { memarg: MemArg },
    I64Load32U { memarg: MemArg },
    I32Store { memarg: MemArg },
    I64Store { memarg: MemArg },
    F32Store { memarg: MemArg },
    F64Store { memarg: MemArg },
    I32Store8 { memarg: MemArg },
    I32Store16 { memarg: MemArg },
    I64Store8 { memarg: MemArg },
    I64Store16 { memarg: MemArg },
    I64Store32 { memarg: MemArg },
    MemorySize { mem: u32, mem_byte: u8 },
    MemoryGrow { mem: u32, mem_byte: u8 },
    I32Const { value: i32 },
    I64Const { value: i64 },
    F32Const { value: u32 },
    F64Const { value: u64 },
    RefNull { ty: ValType },
    RefIsNull,
    RefFunc { function_index: u32 },
    I32Eqz,
    I32Eq,
    I32Ne,
    I32LtS,
    I32LtU,
    I32GtS,
    I32GtU,
    I32LeS,
    I32LeU,
    I32GeS,
    I32GeU,
    I64Eqz,
    I64Eq,
    I64Ne,
    I64LtS,
    I64LtU,
    I64GtS,
    I64GtU,
    I64LeS,
    I64LeU,
    I64GeS,
    I64GeU,
    F32Eq,
    F32Ne,
    F32Lt,
    F32Gt,
    F32Le,
    F32Ge,
    F64Eq,
    F64Ne,
    F64Lt,
    F64Gt,
    F64Le,
    F64Ge,
    I32Clz,
    I32Ctz,
    I32Popcnt,
    I32Add,
    I32Sub,
    I32Mul,
    I32DivS,
    I32DivU,
    I32RemS,
    I32RemU,
    I32And,
    I32Or,
    I32Xor,
    I32Shl,
    I32ShrS,
    I32ShrU,
    I32Rotl,
    I32Rotr,
    I64Clz,
    I64Ctz,
    I64Popcnt,
    I64Add,
    I64Sub,
    I64Mul,
    I64DivS,
    I64DivU,
    I64RemS,
    I64RemU,
    I64And,
    I64Or,
    I64Xor,
    I64Shl,
    I64ShrS,
    I64ShrU,
    I64Rotl,
    I64Rotr,
    F32Abs,
    F32Neg,
    F32Ceil,
    F32Floor,
    F32Trunc,
    F32Nearest,
    F32Sqrt,
    F32Add,
    F32Sub,
    F32Mul,
    F32Div,
    F32Min,
    F32Max,
    F32Copysign,
    F64Abs,
    F64Neg,
    F64Ceil,
    F64Floor,
    F64Trunc,
    F64Nearest,
    F64Sqrt,
    F64Add,
    F64Sub,
    F64Mul,
    F64Div,
    F64Min,
    F64Max,
    F64Copysign,
    I32WrapI64,
    I32TruncF32S,
    I32TruncF32U,
    I32TruncF64S,
    I32TruncF64U,
    I64ExtendI32S,
    I64ExtendI32U,
    I64TruncF32S,
    I64TruncF32U,
    I64TruncF64S,
    I64TruncF64U,
    F32ConvertI32S,
    F32ConvertI32U,
    F32ConvertI64S,
    F32ConvertI64U,
    F32DemoteF64,
    F64ConvertI32S,
    F64ConvertI32U,
    F64ConvertI64S,
    F64ConvertI64U,
    F64PromoteF32,
    I32ReinterpretF32,
    I64ReinterpretF64,
    F32ReinterpretI32,
    F64ReinterpretI64,
    I32Extend8S,
    I32Extend16S,
    I64Extend8S,
    I64Extend16S,
    I64Extend32S,
    I32TruncSatF32S,
    I32TruncSatF32U,
    I32TruncSatF64S,
    I32TruncSatF64U,
    I64TruncSatF32S,
    I64TruncSatF32U,
    I64TruncSatF64S,
    I64TruncSatF64U,
    MemoryInit { segment: u32, mem: u32 },
    DataDrop { segment: u32 },
    MemoryCopy { src: u32, dst: u32 },
    MemoryFill { mem: u32 },
    TableInit { segment: u32, table: u32 },
    ElemDrop { segment: u32 },
    TableCopy { dst_table: u32, src_table: u32 },
    TableFill { table: u32 },
    TableGrow { table: u32 },
    TableSize { table: u32 },
}

/// One instruction of a function body: the operator and its byte offset
/// relative to the body's payload start.
#[derive(Clone, PartialEq, Eq, Debug)]
pub struct Instruction {
    pub kind: InstructionKind,
    pub offset: usize,
}

} // verus!
