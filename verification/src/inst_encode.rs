//! Re-encoder: instructions back to bytes.
//!
//! The encoder emits the minimal binary form of each operator the decoder
//! understands. Its contract is the round-trip law: decoding what was
//! encoded yields the operator back, consuming exactly its bytes, so byte
//! offsets survive a decode-then-re-encode pass.

use vstd::prelude::*;
use crate::inst::{BlockType, BrTableData, InstructionKind, MemArg};
use crate::inst_decode::{
    kind_matches_decoded, spec_byte_of_valtype, spec_decode_blocktype, spec_decode_kind,
    spec_decode_memarg, spec_decode_u32_le, spec_decode_u32_seq, spec_decode_u64_le,
    spec_valtype_of_byte, DecodedKind,
};
use crate::leb::{
    encode_i32, encode_i64, encode_u32, pow128, spec_decode_i32, spec_decode_i64, spec_decode_u32,
    spec_encode_signed, spec_encode_unsigned,
};
use crate::value::ValType;

verus! {


/// The minimal binary encoding of one operator.
pub open spec fn spec_encode_kind(k: InstructionKind) -> Seq<u8>
{
    match k {
        InstructionKind::Unreachable => seq![0x00u8],
        InstructionKind::Nop => seq![0x01u8],
        InstructionKind::Else => seq![0x05u8],
        InstructionKind::End => seq![0x0Bu8],
        InstructionKind::Return => seq![0x0Fu8],
        InstructionKind::CatchAll => seq![0x19u8],
        InstructionKind::Drop => seq![0x1Au8],
        InstructionKind::Select => seq![0x1Bu8],
        InstructionKind::I32Eqz => seq![0x45u8],
        InstructionKind::I32Eq => seq![0x46u8],
        InstructionKind::I32Ne => seq![0x47u8],
        InstructionKind::I32LtS => seq![0x48u8],
        InstructionKind::I32LtU => seq![0x49u8],
        InstructionKind::I32GtS => seq![0x4Au8],
        InstructionKind::I32GtU => seq![0x4Bu8],
        InstructionKind::I32LeS => seq![0x4Cu8],
        InstructionKind::I32LeU => seq![0x4Du8],
        InstructionKind::I32GeS => seq![0x4Eu8],
        InstructionKind::I32GeU => seq![0x4Fu8],
        InstructionKind::I64Eqz => seq![0x50u8],
        InstructionKind::I64Eq => seq![0x51u8],
        InstructionKind::I64Ne => seq![0x52u8],
        InstructionKind::I64LtS => seq![0x53u8],
        InstructionKind::I64LtU => seq![0x54u8],
        InstructionKind::I64GtS => seq![0x55u8],
        InstructionKind::I64GtU => seq![0x56u8],
        InstructionKind::I64LeS => seq![0x57u8],
        InstructionKind::I64LeU => seq![0x58u8],
        InstructionKind::I64GeS => seq![0x59u8],
        InstructionKind::I64GeU => seq![0x5Au8],
        InstructionKind::F32Eq => seq![0x5Bu8],
        InstructionKind::F32Ne => seq![0x5Cu8],
        InstructionKind::F32Lt => seq![0x5Du8],
        InstructionKind::F32Gt => seq![0x5Eu8],
        InstructionKind::F32Le => seq![0x5Fu8],
        InstructionKind::F32Ge => seq![0x60u8],
        InstructionKind::F64Eq => seq![0x61u8],
        InstructionKind::F64Ne => seq![0x62u8],
        InstructionKind::F64Lt => seq![0x63u8],
        InstructionKind::F64Gt => seq![0x64u8],
        InstructionKind::F64Le => seq![0x65u8],
        InstructionKind::F64Ge => seq![0x66u8],
        InstructionKind::I32Clz => seq![0x67u8],
        InstructionKind::I32Ctz => seq![0x68u8],
        InstructionKind::I32Popcnt => seq![0x69u8],
        InstructionKind::I32Add => seq![0x6Au8],
        InstructionKind::I32Sub => seq![0x6Bu8],
        InstructionKind::I32Mul => seq![0x6Cu8],
        InstructionKind::I32DivS => seq![0x6Du8],
        InstructionKind::I32DivU => seq![0x6Eu8],
        InstructionKind::I32RemS => seq![0x6Fu8],
        InstructionKind::I32RemU => seq![0x70u8],
        InstructionKind::I32And => seq![0x71u8],
        InstructionKind::I32Or => seq![0x72u8],
        InstructionKind::I32Xor => seq![0x73u8],
        InstructionKind::I32Shl => seq![0x74u8],
        InstructionKind::I32ShrS => seq![0x75u8],
        InstructionKind::I32ShrU => seq![0x76u8],
        InstructionKind::I32Rotl => seq![0x77u8],
        InstructionKind::I32Rotr => seq![0x78u8],
        InstructionKind::I64Clz => seq![0x79u8],
        InstructionKind::I64Ctz => seq![0x7Au8],
        InstructionKind::I64Popcnt => seq![0x7Bu8],
        InstructionKind::I64Add => seq![0x7Cu8],
        InstructionKind::I64Sub => seq![0x7Du8],
        InstructionKind::I64Mul => seq![0x7Eu8],
        InstructionKind::I64DivS => seq![0x7Fu8],
        InstructionKind::I64DivU => seq![0x80u8],
        InstructionKind::I64RemS => seq![0x81u8],
        InstructionKind::I64RemU => seq![0x82u8],
        InstructionKind::I64And => seq![0x83u8],
        InstructionKind::I64Or => seq![0x84u8],
        InstructionKind::I64Xor => seq![0x85u8],
        InstructionKind::I64Shl => seq![0x86u8],
        InstructionKind::I64ShrS => seq![0x87u8],
        InstructionKind::I64ShrU => seq![0x88u8],
        InstructionKind::I64Rotl => seq![0x89u8],
        InstructionKind::I64Rotr => seq![0x8Au8],
        InstructionKind::F32Abs => seq![0x8Bu8],
        InstructionKind::F32Neg => seq![0x8Cu8],
        InstructionKind::F32Ceil => seq![0x8Du8],
        InstructionKind::F32Floor => seq![0x8Eu8],
        InstructionKind::F32Trunc => seq![0x8Fu8],
        InstructionKind::F32Nearest => seq![0x90u8],
        InstructionKind::F32Sqrt => seq![0x91u8],
        InstructionKind::F32Add => seq![0x92u8],
        InstructionKind::F32Sub => seq![0x93u8],
        InstructionKind::F32Mul => seq![0x94u8],
        InstructionKind::F32Div => seq![0x95u8],
        InstructionKind::F32Min => seq![0x96u8],
        InstructionKind::F32Max => seq![0x97u8],
        InstructionKind::F32Copysign => seq![0x98u8],
        InstructionKind::F64Abs => seq![0x99u8],
        InstructionKind::F64Neg => seq![0x9Au8],
        InstructionKind::F64Ceil => seq![0x9Bu8],
        InstructionKind::F64Floor => seq![0x9Cu8],
        InstructionKind::F64Trunc => seq![0x9Du8],
        InstructionKind::F64Nearest => seq![0x9Eu8],
        InstructionKind::F64Sqrt => seq![0x9Fu8],
        InstructionKind::F64Add => seq![0xA0u8],
        InstructionKind::F64Sub => seq![0xA1u8],
        InstructionKind::F64Mul => seq![0xA2u8],
        InstructionKind::F64Div => seq![0xA3u8],
        InstructionKind::F64Min => seq![0xA4u8],
        InstructionKind::F64Max => seq![0xA5u8],
        InstructionKind::F64Copysign => seq![0xA6u8],
        InstructionKind::I32WrapI64 => seq![0xA7u8],
        InstructionKind::I32TruncF32S => seq![0xA8u8],
        InstructionKind::I32TruncF32U => seq![0xA9u8],
        InstructionKind::I32TruncF64S => seq![0xAAu8],
        InstructionKind::I32TruncF64U => seq![0xABu8],
        InstructionKind::I64ExtendI32S => seq![0xACu8],
        InstructionKind::I64ExtendI32U => seq![0xADu8],
        InstructionKind::I64TruncF32S => seq![0xAEu8],
        InstructionKind::I64TruncF32U => seq![0xAFu8],
        InstructionKind::I64TruncF64S => seq![0xB0u8],
        InstructionKind::I64TruncF64U => seq![0xB1u8],
        InstructionKind::F32ConvertI32S => seq![0xB2u8],
        InstructionKind::F32ConvertI32U => seq![0xB3u8],
        InstructionKind::F32ConvertI64S => seq![0xB4u8],
        InstructionKind::F32ConvertI64U => seq![0xB5u8],
        InstructionKind::F32DemoteF64 => seq![0xB6u8],
        InstructionKind::F64ConvertI32S => seq![0xB7u8],
        InstructionKind::F64ConvertI32U => seq![0xB8u8],
        InstructionKind::F64ConvertI64S => seq![0xB9u8],
        InstructionKind::F64ConvertI64U => seq![0xBAu8],
        InstructionKind::F64PromoteF32 => seq![0xBBu8],
        InstructionKind::I32ReinterpretF32 => seq![0xBCu8],
        InstructionKind::I64ReinterpretF64 => seq![0xBDu8],
        InstructionKind::F32ReinterpretI32 => seq![0xBEu8],
        InstructionKind::F64ReinterpretI64 => seq![0xBFu8],
        InstructionKind::I32Extend8S => seq![0xC0u8],
        InstructionKind::I32Extend16S => seq![0xC1u8],
        InstructionKind::I64Extend8S => seq![0xC2u8],
        InstructionKind::I64Extend16S => seq![0xC3u8],
        InstructionKind::I64Extend32S => seq![0xC4u8],
        InstructionKind::RefIsNull => seq![0xD1u8],
        InstructionKind::Block { ty } => seq![0x02u8] + spec_encode_blocktype(ty),
        InstructionKind::Loop { ty } => seq![0x03u8] + spec_encode_blocktype(ty),
        InstructionKind::If { ty } => seq![0x04u8] + spec_encode_blocktype(ty),
        InstructionKind::Try { ty } => seq![0x06u8] + spec_encode_blocktype(ty),
        InstructionKind::Catch { index } => seq![0x07u8] + spec_encode_unsigned(index as nat),
        InstructionKind::Throw { index } => seq![0x08u8] + spec_encode_unsigned(index as nat),
        InstructionKind::Rethrow { relative_depth } => seq![0x09u8] + spec_encode_unsigned(relative_depth as nat),
        InstructionKind::Br { relative_depth } => seq![0x0Cu8] + spec_encode_unsigned(relative_depth as nat),
        InstructionKind::BrIf { relative_depth } => seq![0x0Du8] + spec_encode_unsigned(relative_depth as nat),
        InstructionKind::Call { function_index } => seq![0x10u8] + spec_encode_unsigned(function_index as nat),
        InstructionKind::ReturnCall { function_index } => seq![0x12u8] + spec_encode_unsigned(function_index as nat),
        InstructionKind::Delegate { relative_depth } => seq![0x18u8] + spec_encode_unsigned(relative_depth as nat),
        InstructionKind::LocalGet { local_index } => seq![0x20u8] + spec_encode_unsigned(local_index as nat),
        InstructionKind::LocalSet { local_index } => seq![0x21u8] + spec_encode_unsigned(local_index as nat),
        InstructionKind::LocalTee { local_index } => seq![0x22u8] + spec_encode_unsigned(local_index as nat),
        InstructionKind::GlobalGet { global_index } => seq![0x23u8] + spec_encode_unsigned(global_index as nat),
        InstructionKind::GlobalSet { global_index } => seq![0x24u8] + spec_encode_unsigned(global_index as nat),
        InstructionKind::TableGet { table } => seq![0x25u8] + spec_encode_unsigned(table as nat),
        InstructionKind::TableSet { table } => seq![0x26u8] + spec_encode_unsigned(table as nat),
        InstructionKind::RefFunc { function_index } => seq![0xD2u8] + spec_encode_unsigned(function_index as nat),
        InstructionKind::CallIndirect { index, table_index } => seq![0x11u8] + spec_encode_unsigned(index as nat) + spec_encode_unsigned(table_index as nat),
        InstructionKind::ReturnCallIndirect { index, table_index } => seq![0x13u8] + spec_encode_unsigned(index as nat) + spec_encode_unsigned(table_index as nat),
        InstructionKind::I32Load { memarg } => seq![0x28u8] + spec_encode_memarg(memarg),
        InstructionKind::I64Load { memarg } => seq![0x29u8] + spec_encode_memarg(memarg),
        InstructionKind::F32Load { memarg } => seq![0x2Au8] + spec_encode_memarg(memarg),
        InstructionKind::F64Load { memarg } => seq![0x2Bu8] + spec_encode_memarg(memarg),
        InstructionKind::I32Load8S { memarg } => seq![0x2Cu8] + spec_encode_memarg(memarg),
        InstructionKind::I32Load8U { memarg } => seq![0x2Du8] + spec_encode_memarg(memarg),
        InstructionKind::I32Load16S { memarg } => seq![0x2Eu8] + spec_encode_memarg(memarg),
        InstructionKind::I32Load16U { memarg } => seq![0x2Fu8] + spec_encode_memarg(memarg),
        InstructionKind::I64Load8S { memarg } => seq![0x30u8] + spec_encode_memarg(memarg),
        InstructionKind::I64Load8U { memarg } => seq![0x31u8] + spec_encode_memarg(memarg),
        InstructionKind::I64Load16S { memarg } => seq![0x32u8] + spec_encode_memarg(memarg),
        InstructionKind::I64Load16U { memarg } => seq![0x33u8] + spec_encode_memarg(memarg),
        InstructionKind::I64Load32S { memarg } => seq![0x34u8] + spec_encode_memarg(memarg),
        InstructionKind::I64Load32U { memarg } => seq![0x35u8] + spec_encode_memarg(memarg),
        InstructionKind::I32Store { memarg } => seq![0x36u8] + spec_encode_memarg(memarg),
        InstructionKind::I64Store { memarg } => seq![0x37u8] + spec_encode_memarg(memarg),
        InstructionKind::F32Store { memarg } => seq![0x38u8] + spec_encode_memarg(memarg),
        InstructionKind::F64Store { memarg } => seq![0x39u8] + spec_encode_memarg(memarg),
        InstructionKind::I32Store8 { memarg } => seq![0x3Au8] + spec_encode_memarg(memarg),
        InstructionKind::I32Store16 { memarg } => seq![0x3Bu8] + spec_encode_memarg(memarg),
        InstructionKind::I64Store8 { memarg } => seq![0x3Cu8] + spec_encode_memarg(memarg),
        InstructionKind::I64Store16 { memarg } => seq![0x3Du8] + spec_encode_memarg(memarg),
        InstructionKind::I64Store32 { memarg } => seq![0x3Eu8] + spec_encode_memarg(memarg),
        InstructionKind::BrTable { table } => seq![0x0Eu8] + spec_encode_unsigned(table.table@.len() as nat) + spec_encode_u32_seq(table.table@) + spec_encode_unsigned(table.default as nat),
        InstructionKind::TypedSelect { ty } => seq![0x1Cu8, 0x01u8, spec_byte_of_valtype(ty)],
        InstructionKind::MemorySize { mem, .. } => seq![0x3Fu8] + spec_encode_unsigned(mem as nat),
        InstructionKind::MemoryGrow { mem, .. } => seq![0x40u8] + spec_encode_unsigned(mem as nat),
        InstructionKind::I32Const { value } => seq![0x41u8] + spec_encode_signed(value as int),
        InstructionKind::I64Const { value } => seq![0x42u8] + spec_encode_signed(value as int),
        InstructionKind::F32Const { value } => seq![0x43u8] + spec_encode_u32_le(value),
        InstructionKind::F64Const { value } => seq![0x44u8] + spec_encode_u64_le(value),
        InstructionKind::RefNull { ty } => seq![0xD0u8, spec_byte_of_valtype(ty)],
        InstructionKind::I32TruncSatF32S => seq![0xFCu8, 0x00u8],
        InstructionKind::I32TruncSatF32U => seq![0xFCu8, 0x01u8],
        InstructionKind::I32TruncSatF64S => seq![0xFCu8, 0x02u8],
        InstructionKind::I32TruncSatF64U => seq![0xFCu8, 0x03u8],
        InstructionKind::I64TruncSatF32S => seq![0xFCu8, 0x04u8],
        InstructionKind::I64TruncSatF32U => seq![0xFCu8, 0x05u8],
        InstructionKind::I64TruncSatF64S => seq![0xFCu8, 0x06u8],
        InstructionKind::I64TruncSatF64U => seq![0xFCu8, 0x07u8],
        InstructionKind::DataDrop { segment } => seq![0xFCu8, 0x09u8] + spec_encode_unsigned(segment as nat),
        InstructionKind::MemoryFill { mem } => seq![0xFCu8, 0x0Bu8] + spec_encode_unsigned(mem as nat),
        InstructionKind::ElemDrop { segment } => seq![0xFCu8, 0x0Du8] + spec_encode_unsigned(segment as nat),
        InstructionKind::TableGrow { table } => seq![0xFCu8, 0x0Fu8] + spec_encode_unsigned(table as nat),
        InstructionKind::TableSize { table } => seq![0xFCu8, 0x10u8] + spec_encode_unsigned(table as nat),
        InstructionKind::TableFill { table } => seq![0xFCu8, 0x11u8] + spec_encode_unsigned(table as nat),
        InstructionKind::MemoryInit { segment, mem } => seq![0xFCu8, 0x08u8] + spec_encode_unsigned(segment as nat) + spec_encode_unsigned(mem as nat),
        InstructionKind::MemoryCopy { dst, src } => seq![0xFCu8, 0x0Au8] + spec_encode_unsigned(dst as nat) + spec_encode_unsigned(src as nat),
        InstructionKind::TableInit { segment, table } => seq![0xFCu8, 0x0Cu8] + spec_encode_unsigned(segment as nat) + spec_encode_unsigned(table as nat),
        InstructionKind::TableCopy { dst_table, src_table } => seq![0xFCu8, 0x0Eu8] + spec_encode_unsigned(dst_table as nat) + spec_encode_unsigned(src_table as nat),
    }
}

/// Whether the encoder can reproduce the operator exactly: the branch
/// table must be countable in 32 bits, a memory-size operator's raw byte
/// must agree with its index, and a null reference must be of a reference
/// type.
pub open spec fn spec_encodable(k: InstructionKind) -> bool {
    match k {
        InstructionKind::I32Load { memarg } => memarg.memory == 0,
        InstructionKind::I64Load { memarg } => memarg.memory == 0,
        InstructionKind::F32Load { memarg } => memarg.memory == 0,
        InstructionKind::F64Load { memarg } => memarg.memory == 0,
        InstructionKind::I32Load8S { memarg } => memarg.memory == 0,
        InstructionKind::I32Load8U { memarg } => memarg.memory == 0,
        InstructionKind::I32Load16S { memarg } => memarg.memory == 0,
        InstructionKind::I32Load16U { memarg } => memarg.memory == 0,
        InstructionKind::I64Load8S { memarg } => memarg.memory == 0,
        InstructionKind::I64Load8U { memarg } => memarg.memory == 0,
        InstructionKind::I64Load16S { memarg } => memarg.memory == 0,
        InstructionKind::I64Load16U { memarg } => memarg.memory == 0,
        InstructionKind::I64Load32S { memarg } => memarg.memory == 0,
        InstructionKind::I64Load32U { memarg } => memarg.memory == 0,
        InstructionKind::I32Store { memarg } => memarg.memory == 0,
        InstructionKind::I64Store { memarg } => memarg.memory == 0,
        InstructionKind::F32Store { memarg } => memarg.memory == 0,
        InstructionKind::F64Store { memarg } => memarg.memory == 0,
        InstructionKind::I32Store8 { memarg } => memarg.memory == 0,
        InstructionKind::I32Store16 { memarg } => memarg.memory == 0,
        InstructionKind::I64Store8 { memarg } => memarg.memory == 0,
        InstructionKind::I64Store16 { memarg } => memarg.memory == 0,
        InstructionKind::I64Store32 { memarg } => memarg.memory == 0,
        InstructionKind::BrTable { table } => table.table@.len() < 0x1_0000_0000,
        InstructionKind::MemorySize { mem, mem_byte } => mem_byte == mem as u8,
        InstructionKind::MemoryGrow { mem, mem_byte } => mem_byte == mem as u8,
        InstructionKind::RefNull { ty } => ty == ValType::FuncRef || ty == ValType::ExternRef,
        _ => true,
    }
}


/// The binary encoding of a block type.
pub open spec fn spec_encode_blocktype(bt: BlockType) -> Seq<u8> {
    match bt {
        BlockType::Empty => seq![0x40u8],
        BlockType::Value(t) => seq![spec_byte_of_valtype(t)],
        BlockType::TypeIndex(i) => crate::leb::spec_encode_signed(i as int),
    }
}

/// The binary encoding of a memory immediate.
pub open spec fn spec_encode_memarg(m: MemArg) -> Seq<u8> {
    spec_encode_unsigned(m.align as nat) + spec_encode_unsigned(m.offset as nat)
}

/// The concatenated encodings of a run of 32-bit numbers.
pub open spec fn spec_encode_u32_seq(vs: Seq<u32>) -> Seq<u8>
    decreases vs.len(),
{
    if vs.len() == 0 {
        Seq::empty()
    } else {
        spec_encode_unsigned(vs[0] as nat) + spec_encode_u32_seq(vs.drop_first())
    }
}

/// The four little-endian bytes of a 32-bit word.
pub open spec fn spec_encode_u32_le(v: u32) -> Seq<u8> {
    seq![v as u8, (v >> 8) as u8, (v >> 16) as u8, (v >> 24) as u8]
}

/// The eight little-endian bytes of a 64-bit word.
pub open spec fn spec_encode_u64_le(v: u64) -> Seq<u8> {
    seq![
        v as u8,
        (v >> 8) as u8,
        (v >> 16) as u8,
        (v >> 24) as u8,
        (v >> 32) as u8,
        (v >> 40) as u8,
        (v >> 48) as u8,
        (v >> 56) as u8,
    ]
}

/// Executable table of `spec_byte_of_valtype`.
pub fn byte_of_valtype(t: ValType) -> (b: u8)
    ensures
        b == spec_byte_of_valtype(t),
{
    match t {
        ValType::I32 => 0x7F,
        ValType::I64 => 0x7E,
        ValType::F32 => 0x7D,
        ValType::F64 => 0x7C,
        ValType::V128 => 0x7B,
        ValType::FuncRef => 0x70,
        ValType::ExternRef => 0x6F,
    }
}

/// The byte of a value type names that type back, and collides neither with
/// the empty block type nor with a one-byte small type index.
proof fn lemma_valtype_byte(t: ValType)
    ensures
        spec_valtype_of_byte(spec_byte_of_valtype(t)) == Some(t),
        spec_byte_of_valtype(t) != 0x40,
        spec_byte_of_valtype(t) >= 0x6F,
{
}

/// Appends the binary encoding of a block type to `out`.
pub fn encode_blocktype(bt: BlockType, out: &mut Vec<u8>)
    ensures
        final(out)@ == old(out)@ + spec_encode_blocktype(bt),
{
    match bt {
        BlockType::Empty => {
            out.push(0x40);
            proof {
                assert(out@ =~= old(out)@ + spec_encode_blocktype(bt));
            }
        },
        BlockType::Value(t) => {
            out.push(byte_of_valtype(t));
            proof {
                assert(out@ =~= old(out)@ + spec_encode_blocktype(bt));
            }
        },
        BlockType::TypeIndex(i) => {
            crate::leb::encode_i64(i as i64, out);
        },
    }
}

/// Appends the four little-endian bytes of `v` to `out`.
pub fn push_u32_le(v: u32, out: &mut Vec<u8>)
    ensures
        final(out)@ == old(out)@ + spec_encode_u32_le(v),
{
    out.push(v as u8);
    out.push((v >> 8) as u8);
    out.push((v >> 16) as u8);
    out.push((v >> 24) as u8);
    proof {
        assert(out@ =~= old(out)@ + spec_encode_u32_le(v));
    }
}

/// Appends the eight little-endian bytes of `v` to `out`.
pub fn push_u64_le(v: u64, out: &mut Vec<u8>)
    ensures
        final(out)@ == old(out)@ + spec_encode_u64_le(v),
{
    out.push(v as u8);
    out.push((v >> 8) as u8);
    out.push((v >> 16) as u8);
    out.push((v >> 24) as u8);
    out.push((v >> 32) as u8);
    out.push((v >> 40) as u8);
    out.push((v >> 48) as u8);
    out.push((v >> 56) as u8);
    proof {
        assert(out@ =~= old(out)@ + spec_encode_u64_le(v));
    }
}

/// Extending the taken prefix by one number appends that number's encoding.
proof fn lemma_encode_u32_seq_snoc(vs: Seq<u32>, j: int)
    requires
        0 <= j < vs.len(),
    ensures
        spec_encode_u32_seq(vs.take(j + 1)) == spec_encode_u32_seq(vs.take(j))
            + spec_encode_unsigned(vs[j] as nat),
    decreases j,
{
    if j == 0 {
        assert(vs.take(1) =~= seq![vs[0]]);
        assert(vs.take(1).drop_first() =~= Seq::<u32>::empty());
        assert(vs.take(0) =~= Seq::<u32>::empty());
        assert(spec_encode_unsigned(vs[0] as nat) + Seq::<u8>::empty() =~= spec_encode_unsigned(
            vs[0] as nat,
        ));
        assert(Seq::<u8>::empty() + spec_encode_unsigned(vs[0] as nat) =~= spec_encode_unsigned(
            vs[0] as nat,
        ));
    } else {
        lemma_encode_u32_seq_snoc(vs.drop_first(), j - 1);
        assert(vs.take(j + 1).drop_first() =~= vs.drop_first().take(j));
        assert(vs.take(j).drop_first() =~= vs.drop_first().take(j - 1));
        assert(vs.take(j + 1)[0] == vs[0]);
        assert(vs.take(j)[0] == vs[0]);
        assert(vs.drop_first()[j - 1] == vs[j]);
        assert(spec_encode_unsigned(vs[0] as nat) + (spec_encode_u32_seq(vs.drop_first().take(j
            - 1)) + spec_encode_unsigned(vs[j] as nat)) =~= (spec_encode_unsigned(vs[0] as nat)
            + spec_encode_u32_seq(vs.drop_first().take(j - 1))) + spec_encode_unsigned(
            vs[j] as nat,
        ));
    }
}

/// A prefix of one byte: the byte is there, and the rest follows it.
proof fn lemma_first_byte(s: Seq<u8>, pos: int, b: u8, rest: Seq<u8>)
    requires
        0 <= pos,
        pos + 1 + rest.len() <= s.len(),
        s.subrange(pos, pos + 1 + rest.len() as int) == seq![b] + rest,
    ensures
        s[pos] == b,
        s.subrange(pos + 1, pos + 1 + rest.len() as int) == rest,
{
    let whole = s.subrange(pos, pos + 1 + rest.len() as int);
    assert(whole[0] == b);
    assert forall|i: int| 0 <= i < rest.len() implies s.subrange(
        pos + 1,
        pos + 1 + rest.len() as int,
    )[i] == rest[i] by {
        assert(whole[1 + i] == rest[i]);
    }
    assert(s.subrange(pos + 1, pos + 1 + rest.len() as int) =~= rest);
}

/// A concatenation of two runs splits into consecutive subranges.
proof fn lemma_split2(s: Seq<u8>, pos: int, a: Seq<u8>, b: Seq<u8>)
    requires
        0 <= pos,
        pos + a.len() + b.len() <= s.len(),
        s.subrange(pos, pos + a.len() + b.len()) == a + b,
    ensures
        s.subrange(pos, pos + a.len() as int) == a,
        s.subrange(pos + a.len() as int, pos + a.len() + b.len()) == b,
{
    let whole = s.subrange(pos, pos + a.len() + b.len());
    assert forall|i: int| 0 <= i < a.len() implies s.subrange(pos, pos + a.len() as int)[i]
        == a[i] by {
        assert(whole[i] == a[i]);
    }
    assert(s.subrange(pos, pos + a.len() as int) =~= a);
    assert forall|i: int| 0 <= i < b.len() implies s.subrange(
        pos + a.len() as int,
        pos + a.len() + b.len(),
    )[i] == b[i] by {
        assert(whole[a.len() + i] == b[i]);
    }
    assert(s.subrange(pos + a.len() as int, pos + a.len() + b.len()) =~= b);
}

/// Decoding the embedded minimal encoding of a 32-bit unsigned number gives
/// the number back.
proof fn lemma_decode_encoded_u32(s: Seq<u8>, pos: int, x: u32)
    requires
        0 <= pos,
        pos + spec_encode_unsigned(x as nat).len() <= s.len(),
        s.subrange(pos, pos + spec_encode_unsigned(x as nat).len() as int) == spec_encode_unsigned(
            x as nat,
        ),
    ensures
        spec_decode_u32(s, pos) == Some((x, pos + spec_encode_unsigned(x as nat).len() as int)),
{
    crate::leb::lemma_encode_unsigned_len(x as nat);
    crate::leb::lemma_unsigned_round_trip(s, pos, x as nat, 5);
}

/// Decoding the embedded minimal encoding of a 32-bit signed number gives
/// the number back.
proof fn lemma_decode_encoded_i32(s: Seq<u8>, pos: int, x: i32)
    requires
        0 <= pos,
        pos + spec_encode_signed(x as int).len() <= s.len(),
        s.subrange(pos, pos + spec_encode_signed(x as int).len() as int) == spec_encode_signed(
            x as int,
        ),
    ensures
        spec_decode_i32(s, pos) == Some((x, pos + spec_encode_signed(x as int).len() as int)),
{
    crate::leb::lemma_encode_signed_len(x as int);
    crate::leb::lemma_signed_round_trip(s, pos, x as int, 5);
}

/// Decoding the embedded minimal encoding of a 64-bit signed number gives
/// the number back.
proof fn lemma_decode_encoded_i64(s: Seq<u8>, pos: int, x: i64)
    requires
        0 <= pos,
        pos + spec_encode_signed(x as int).len() <= s.len(),
        s.subrange(pos, pos + spec_encode_signed(x as int).len() as int) == spec_encode_signed(
            x as int,
        ),
    ensures
        spec_decode_i64(s, pos) == Some((x, pos + spec_encode_signed(x as int).len() as int)),
{
    crate::leb::lemma_encode_signed_len(x as int);
    crate::leb::lemma_signed_round_trip(s, pos, x as int, 10);
}

/// Decoding an embedded encoded block type gives the block type back.
proof fn lemma_decode_encoded_blocktype(s: Seq<u8>, pos: int, bt: BlockType)
    requires
        0 <= pos,
        pos + spec_encode_blocktype(bt).len() <= s.len(),
        s.subrange(pos, pos + spec_encode_blocktype(bt).len() as int) == spec_encode_blocktype(bt),
    ensures
        spec_decode_blocktype(s, pos) == Some(
            (bt, pos + spec_encode_blocktype(bt).len() as int),
        ),
{
    let enc = spec_encode_blocktype(bt);
    match bt {
        BlockType::Empty => {
            assert(s[pos] == s.subrange(pos, pos + 1)[0]);
        },
        BlockType::Value(t) => {
            lemma_valtype_byte(t);
            assert(s[pos] == s.subrange(pos, pos + 1)[0]);
        },
        BlockType::TypeIndex(i) => {
            assert(pow128(4nat) == 0x1000_0000) by {
                reveal_with_fuel(pow128, 5);
            }
            crate::leb::lemma_signed_len_k(i as int, 5);
            crate::leb::lemma_signed_round_trip(s, pos, i as int, 5);
            assert(s[pos] == s.subrange(pos, pos + enc.len() as int)[0]);
            if i < 64 {
                assert(enc[0] == i as u8);
                assert(s[pos] < 0x40);
            } else {
                assert(enc[0] == (i as int % 128 + 128) as u8);
                assert(s[pos] >= 0x80);
            }
        },
    }
}

/// Decoding an embedded encoded memory immediate gives it back, with memory
/// index zero.
proof fn lemma_decode_encoded_memarg(s: Seq<u8>, pos: int, m: MemArg)
    requires
        0 <= pos,
        m.memory == 0,
        pos + spec_encode_memarg(m).len() <= s.len(),
        s.subrange(pos, pos + spec_encode_memarg(m).len() as int) == spec_encode_memarg(m),
    ensures
        spec_decode_memarg(s, pos) == Some((m, pos + spec_encode_memarg(m).len() as int)),
{
    let a = spec_encode_unsigned(m.align as nat);
    let b = spec_encode_unsigned(m.offset as nat);
    lemma_split2(s, pos, a, b);
    lemma_decode_encoded_u32(s, pos, m.align);
    lemma_decode_encoded_u32(s, pos + a.len() as int, m.offset);
}

/// Decoding an embedded encoded 32-bit little-endian word gives it back.
proof fn lemma_decode_encoded_u32_le(s: Seq<u8>, pos: int, v: u32)
    requires
        0 <= pos,
        pos + 4 <= s.len(),
        s.subrange(pos, pos + 4) == spec_encode_u32_le(v),
    ensures
        spec_decode_u32_le(s, pos) == Some((v, pos + 4)),
{
    let w = s.subrange(pos, pos + 4);
    assert(s[pos] == w[0] && s[pos + 1] == w[1] && s[pos + 2] == w[2] && s[pos + 3] == w[3]);
    assert(((v as u8) as u32 | (((v >> 8) as u8) as u32) << 8 | (((v >> 16) as u8) as u32) << 16
        | (((v >> 24) as u8) as u32) << 24) == v) by (bit_vector);
}

/// Decoding an embedded encoded 64-bit little-endian word gives it back.
proof fn lemma_decode_encoded_u64_le(s: Seq<u8>, pos: int, v: u64)
    requires
        0 <= pos,
        pos + 8 <= s.len(),
        s.subrange(pos, pos + 8) == spec_encode_u64_le(v),
    ensures
        spec_decode_u64_le(s, pos) == Some((v, pos + 8)),
{
    let w = s.subrange(pos, pos + 8);
    assert(s[pos] == w[0] && s[pos + 1] == w[1] && s[pos + 2] == w[2] && s[pos + 3] == w[3] && s[pos
        + 4] == w[4] && s[pos + 5] == w[5] && s[pos + 6] == w[6] && s[pos + 7] == w[7]);
    assert(((v as u8) as u64 | (((v >> 8) as u8) as u64) << 8 | (((v >> 16) as u8) as u64) << 16
        | (((v >> 24) as u8) as u64) << 24 | (((v >> 32) as u8) as u64) << 32 | (((v
        >> 40) as u8) as u64) << 40 | (((v >> 48) as u8) as u64) << 48 | (((v >> 56) as u8) as u64)
        << 56) == v) by (bit_vector);
}

/// Decoding the embedded concatenated encodings of a run of numbers gives
/// the run back.
proof fn lemma_decode_encoded_u32_seq(s: Seq<u8>, pos: int, vs: Seq<u32>)
    requires
        0 <= pos,
        pos + spec_encode_u32_seq(vs).len() <= s.len(),
        s.subrange(pos, pos + spec_encode_u32_seq(vs).len() as int) == spec_encode_u32_seq(vs),
    ensures
        spec_decode_u32_seq(s, pos, vs.len()) == Some(
            (vs, pos + spec_encode_u32_seq(vs).len() as int),
        ),
    decreases vs.len(),
{
    if vs.len() == 0 {
    } else {
        let a = spec_encode_unsigned(vs[0] as nat);
        let b = spec_encode_u32_seq(vs.drop_first());
        lemma_split2(s, pos, a, b);
        lemma_decode_encoded_u32(s, pos, vs[0]);
        lemma_decode_encoded_u32_seq(s, pos + a.len() as int, vs.drop_first());
        assert(seq![vs[0]] + vs.drop_first() =~= vs);
    }
}



/// Whether the operator carries more than its single opcode byte.
pub open spec fn spec_multi_byte(k: InstructionKind) -> bool {
    match k {
        InstructionKind::Block { .. }
        | InstructionKind::Loop { .. }
        | InstructionKind::If { .. }
        | InstructionKind::Try { .. }
        | InstructionKind::Catch { .. }
        | InstructionKind::Throw { .. }
        | InstructionKind::Rethrow { .. }
        | InstructionKind::Br { .. }
        | InstructionKind::BrIf { .. }
        | InstructionKind::Call { .. }
        | InstructionKind::ReturnCall { .. }
        | InstructionKind::Delegate { .. }
        | InstructionKind::LocalGet { .. }
        | InstructionKind::LocalSet { .. }
        | InstructionKind::LocalTee { .. }
        | InstructionKind::GlobalGet { .. }
        | InstructionKind::GlobalSet { .. }
        | InstructionKind::TableGet { .. }
        | InstructionKind::TableSet { .. }
        | InstructionKind::RefFunc { .. }
        | InstructionKind::CallIndirect { .. }
        | InstructionKind::ReturnCallIndirect { .. }
        | InstructionKind::I32Load { .. }
        | InstructionKind::I64Load { .. }
        | InstructionKind::F32Load { .. }
        | InstructionKind::F64Load { .. }
        | InstructionKind::I32Load8S { .. }
        | InstructionKind::I32Load8U { .. }
        | InstructionKind::I32Load16S { .. }
        | InstructionKind::I32Load16U { .. }
        | InstructionKind::I64Load8S { .. }
        | InstructionKind::I64Load8U { .. }
        | InstructionKind::I64Load16S { .. }
        | InstructionKind::I64Load16U { .. }
        | InstructionKind::I64Load32S { .. }
        | InstructionKind::I64Load32U { .. }
        | InstructionKind::I32Store { .. }
        | InstructionKind::I64Store { .. }
        | InstructionKind::F32Store { .. }
        | InstructionKind::F64Store { .. }
        | InstructionKind::I32Store8 { .. }
        | InstructionKind::I32Store16 { .. }
        | InstructionKind::I64Store8 { .. }
        | InstructionKind::I64Store16 { .. }
        | InstructionKind::I64Store32 { .. }
        | InstructionKind::BrTable { .. }
        | InstructionKind::TypedSelect { .. }
        | InstructionKind::MemorySize { .. }
        | InstructionKind::MemoryGrow { .. }
        | InstructionKind::I32Const { .. }
        | InstructionKind::I64Const { .. }
        | InstructionKind::F32Const { .. }
        | InstructionKind::F64Const { .. }
        | InstructionKind::RefNull { .. }
        | InstructionKind::DataDrop { .. }
        | InstructionKind::MemoryFill { .. }
        | InstructionKind::ElemDrop { .. }
        | InstructionKind::TableGrow { .. }
        | InstructionKind::TableSize { .. }
        | InstructionKind::TableFill { .. }
        | InstructionKind::MemoryInit { .. }
        | InstructionKind::MemoryCopy { .. }
        | InstructionKind::TableInit { .. }
        | InstructionKind::TableCopy { .. }
        | InstructionKind::I32TruncSatF32S
        | InstructionKind::I32TruncSatF32U
        | InstructionKind::I32TruncSatF64S
        | InstructionKind::I32TruncSatF64U
        | InstructionKind::I64TruncSatF32S
        | InstructionKind::I64TruncSatF32U
        | InstructionKind::I64TruncSatF64S
        | InstructionKind::I64TruncSatF64U => true,
        _ => false,
    }
}

/// The single opcode byte of an operator without immediates.
#[verifier::rlimit(60)]
fn simple_opcode(k: &InstructionKind) -> (b: u8)
    requires
        !spec_multi_byte(*k),
    ensures
        spec_encode_kind(*k) == seq![b],
        spec_encodable(*k),
{
    match k {
        InstructionKind::Unreachable => 0x00,
        InstructionKind::Nop => 0x01,
        InstructionKind::Else => 0x05,
        InstructionKind::End => 0x0B,
        InstructionKind::Return => 0x0F,
        InstructionKind::CatchAll => 0x19,
        InstructionKind::Drop => 0x1A,
        InstructionKind::Select => 0x1B,
        InstructionKind::I32Eqz => 0x45,
        InstructionKind::I32Eq => 0x46,
        InstructionKind::I32Ne => 0x47,
        InstructionKind::I32LtS => 0x48,
        InstructionKind::I32LtU => 0x49,
        InstructionKind::I32GtS => 0x4A,
        InstructionKind::I32GtU => 0x4B,
        InstructionKind::I32LeS => 0x4C,
        InstructionKind::I32LeU => 0x4D,
        InstructionKind::I32GeS => 0x4E,
        InstructionKind::I32GeU => 0x4F,
        InstructionKind::I64Eqz => 0x50,
        InstructionKind::I64Eq => 0x51,
        InstructionKind::I64Ne => 0x52,
        InstructionKind::I64LtS => 0x53,
        InstructionKind::I64LtU => 0x54,
        InstructionKind::I64GtS => 0x55,
        InstructionKind::I64GtU => 0x56,
        InstructionKind::I64LeS => 0x57,
        InstructionKind::I64LeU => 0x58,
        InstructionKind::I64GeS => 0x59,
        InstructionKind::I64GeU => 0x5A,
        InstructionKind::F32Eq => 0x5B,
        InstructionKind::F32Ne => 0x5C,
        InstructionKind::F32Lt => 0x5D,
        InstructionKind::F32Gt => 0x5E,
        InstructionKind::F32Le => 0x5F,
        InstructionKind::F32Ge => 0x60,
        InstructionKind::F64Eq => 0x61,
        InstructionKind::F64Ne => 0x62,
        InstructionKind::F64Lt => 0x63,
        InstructionKind::F64Gt => 0x64,
        InstructionKind::F64Le => 0x65,
        InstructionKind::F64Ge => 0x66,
        InstructionKind::I32Clz => 0x67,
        InstructionKind::I32Ctz => 0x68,
        InstructionKind::I32Popcnt => 0x69,
        InstructionKind::I32Add => 0x6A,
        InstructionKind::I32Sub => 0x6B,
        InstructionKind::I32Mul => 0x6C,
        InstructionKind::I32DivS => 0x6D,
        InstructionKind::I32DivU => 0x6E,
        InstructionKind::I32RemS => 0x6F,
        InstructionKind::I32RemU => 0x70,
        InstructionKind::I32And => 0x71,
        InstructionKind::I32Or => 0x72,
        InstructionKind::I32Xor => 0x73,
        InstructionKind::I32Shl => 0x74,
        InstructionKind::I32ShrS => 0x75,
        InstructionKind::I32ShrU => 0x76,
        InstructionKind::I32Rotl => 0x77,
        InstructionKind::I32Rotr => 0x78,
        InstructionKind::I64Clz => 0x79,
        InstructionKind::I64Ctz => 0x7A,
        InstructionKind::I64Popcnt => 0x7B,
        InstructionKind::I64Add => 0x7C,
        InstructionKind::I64Sub => 0x7D,
        InstructionKind::I64Mul => 0x7E,
        InstructionKind::I64DivS => 0x7F,
        InstructionKind::I64DivU => 0x80,
        InstructionKind::I64RemS => 0x81,
        InstructionKind::I64RemU => 0x82,
        InstructionKind::I64And => 0x83,
        InstructionKind::I64Or => 0x84,
        InstructionKind::I64Xor => 0x85,
        InstructionKind::I64Shl => 0x86,
        InstructionKind::I64ShrS => 0x87,
        InstructionKind::I64ShrU => 0x88,
        InstructionKind::I64Rotl => 0x89,
        InstructionKind::I64Rotr => 0x8A,
        InstructionKind::F32Abs => 0x8B,
        InstructionKind::F32Neg => 0x8C,
        InstructionKind::F32Ceil => 0x8D,
        InstructionKind::F32Floor => 0x8E,
        InstructionKind::F32Trunc => 0x8F,
        InstructionKind::F32Nearest => 0x90,
        InstructionKind::F32Sqrt => 0x91,
        InstructionKind::F32Add => 0x92,
        InstructionKind::F32Sub => 0x93,
        InstructionKind::F32Mul => 0x94,
        InstructionKind::F32Div => 0x95,
        InstructionKind::F32Min => 0x96,
        InstructionKind::F32Max => 0x97,
        InstructionKind::F32Copysign => 0x98,
        InstructionKind::F64Abs => 0x99,
        InstructionKind::F64Neg => 0x9A,
        InstructionKind::F64Ceil => 0x9B,
        InstructionKind::F64Floor => 0x9C,
        InstructionKind::F64Trunc => 0x9D,
        InstructionKind::F64Nearest => 0x9E,
        InstructionKind::F64Sqrt => 0x9F,
        InstructionKind::F64Add => 0xA0,
        InstructionKind::F64Sub => 0xA1,
        InstructionKind::F64Mul => 0xA2,
        InstructionKind::F64Div => 0xA3,
        InstructionKind::F64Min => 0xA4,
        InstructionKind::F64Max => 0xA5,
        InstructionKind::F64Copysign => 0xA6,
        InstructionKind::I32WrapI64 => 0xA7,
        InstructionKind::I32TruncF32S => 0xA8,
        InstructionKind::I32TruncF32U => 0xA9,
        InstructionKind::I32TruncF64S => 0xAA,
        InstructionKind::I32TruncF64U => 0xAB,
        InstructionKind::I64ExtendI32S => 0xAC,
        InstructionKind::I64ExtendI32U => 0xAD,
        InstructionKind::I64TruncF32S => 0xAE,
        InstructionKind::I64TruncF32U => 0xAF,
        InstructionKind::I64TruncF64S => 0xB0,
        InstructionKind::I64TruncF64U => 0xB1,
        InstructionKind::F32ConvertI32S => 0xB2,
        InstructionKind::F32ConvertI32U => 0xB3,
        InstructionKind::F32ConvertI64S => 0xB4,
        InstructionKind::F32ConvertI64U => 0xB5,
        InstructionKind::F32DemoteF64 => 0xB6,
        InstructionKind::F64ConvertI32S => 0xB7,
        InstructionKind::F64ConvertI32U => 0xB8,
        InstructionKind::F64ConvertI64S => 0xB9,
        InstructionKind::F64ConvertI64U => 0xBA,
        InstructionKind::F64PromoteF32 => 0xBB,
        InstructionKind::I32ReinterpretF32 => 0xBC,
        InstructionKind::I64ReinterpretF64 => 0xBD,
        InstructionKind::F32ReinterpretI32 => 0xBE,
        InstructionKind::F64ReinterpretI64 => 0xBF,
        InstructionKind::I32Extend8S => 0xC0,
        InstructionKind::I32Extend16S => 0xC1,
        InstructionKind::I64Extend8S => 0xC2,
        InstructionKind::I64Extend16S => 0xC3,
        InstructionKind::I64Extend32S => 0xC4,
        InstructionKind::RefIsNull => 0xD1,
        _ => {
            proof {
                assert(false);
            }
            0x00
        },
    }
}

/// Operators of the control and call group: those whose immediates are block types, depths or indices.
pub open spec fn spec_group_control(k: InstructionKind) -> bool {
    match k {
        InstructionKind::Block { .. }
        | InstructionKind::Br { .. }
        | InstructionKind::BrIf { .. }
        | InstructionKind::BrTable { .. }
        | InstructionKind::Call { .. }
        | InstructionKind::CallIndirect { .. }
        | InstructionKind::Catch { .. }
        | InstructionKind::Delegate { .. }
        | InstructionKind::GlobalGet { .. }
        | InstructionKind::GlobalSet { .. }
        | InstructionKind::If { .. }
        | InstructionKind::LocalGet { .. }
        | InstructionKind::LocalSet { .. }
        | InstructionKind::LocalTee { .. }
        | InstructionKind::Loop { .. }
        | InstructionKind::RefFunc { .. }
        | InstructionKind::Rethrow { .. }
        | InstructionKind::ReturnCall { .. }
        | InstructionKind::ReturnCallIndirect { .. }
        | InstructionKind::TableGet { .. }
        | InstructionKind::TableSet { .. }
        | InstructionKind::Throw { .. }
        | InstructionKind::Try { .. }
        | InstructionKind::TypedSelect { .. } => true,
        _ => false,
    }
}

/// Operators of the memory and constant group: loads, stores, size and grow, and constants.
pub open spec fn spec_group_memory(k: InstructionKind) -> bool {
    match k {
        InstructionKind::F32Const { .. }
        | InstructionKind::F32Load { .. }
        | InstructionKind::F32Store { .. }
        | InstructionKind::F64Const { .. }
        | InstructionKind::F64Load { .. }
        | InstructionKind::F64Store { .. }
        | InstructionKind::I32Const { .. }
        | InstructionKind::I32Load { .. }
        | InstructionKind::I32Load16S { .. }
        | InstructionKind::I32Load16U { .. }
        | InstructionKind::I32Load8S { .. }
        | InstructionKind::I32Load8U { .. }
        | InstructionKind::I32Store { .. }
        | InstructionKind::I32Store16 { .. }
        | InstructionKind::I32Store8 { .. }
        | InstructionKind::I64Const { .. }
        | InstructionKind::I64Load { .. }
        | InstructionKind::I64Load16S { .. }
        | InstructionKind::I64Load16U { .. }
        | InstructionKind::I64Load32S { .. }
        | InstructionKind::I64Load32U { .. }
        | InstructionKind::I64Load8S { .. }
        | InstructionKind::I64Load8U { .. }
        | InstructionKind::I64Store { .. }
        | InstructionKind::I64Store16 { .. }
        | InstructionKind::I64Store32 { .. }
        | InstructionKind::I64Store8 { .. }
        | InstructionKind::MemoryGrow { .. }
        | InstructionKind::MemorySize { .. } => true,
        _ => false,
    }
}

/// Operators of the reference and prefixed group: null references and the prefixed operators.
pub open spec fn spec_group_prefixed(k: InstructionKind) -> bool {
    match k {
        InstructionKind::DataDrop { .. }
        | InstructionKind::ElemDrop { .. }
        | InstructionKind::I32TruncSatF32S
        | InstructionKind::I32TruncSatF32U
        | InstructionKind::I32TruncSatF64S
        | InstructionKind::I32TruncSatF64U
        | InstructionKind::I64TruncSatF32S
        | InstructionKind::I64TruncSatF32U
        | InstructionKind::I64TruncSatF64S
        | InstructionKind::I64TruncSatF64U
        | InstructionKind::MemoryCopy { .. }
        | InstructionKind::MemoryFill { .. }
        | InstructionKind::MemoryInit { .. }
        | InstructionKind::RefNull { .. }
        | InstructionKind::TableCopy { .. }
        | InstructionKind::TableFill { .. }
        | InstructionKind::TableGrow { .. }
        | InstructionKind::TableInit { .. }
        | InstructionKind::TableSize { .. } => true,
        _ => false,
    }
}

/// Appends the encoding of one operator of this group to `out`.
#[verifier::rlimit(100)]
fn encode_kind_control(k: &InstructionKind, out: &mut Vec<u8>) -> (r: Result<(), ()>)
    requires
        spec_group_control(*k),
    ensures
        match r {
            Ok(()) => spec_encodable(*k) && final(out)@ == old(out)@ + spec_encode_kind(*k),
            Err(()) => !spec_encodable(*k) && final(out)@ == old(out)@,
        },
{
    match k {
        InstructionKind::Block { ty } => {
            out.push(0x02);
            let ghost mid = out@;
            encode_blocktype(*ty, out);
            proof { assert(out@ =~= old(out)@ + spec_encode_kind(*k)); }
            Ok(())
        },
        InstructionKind::Loop { ty } => {
            out.push(0x03);
            let ghost mid = out@;
            encode_blocktype(*ty, out);
            proof { assert(out@ =~= old(out)@ + spec_encode_kind(*k)); }
            Ok(())
        },
        InstructionKind::If { ty } => {
            out.push(0x04);
            let ghost mid = out@;
            encode_blocktype(*ty, out);
            proof { assert(out@ =~= old(out)@ + spec_encode_kind(*k)); }
            Ok(())
        },
        InstructionKind::Try { ty } => {
            out.push(0x06);
            let ghost mid = out@;
            encode_blocktype(*ty, out);
            proof { assert(out@ =~= old(out)@ + spec_encode_kind(*k)); }
            Ok(())
        },
        InstructionKind::Catch { index } => {
            out.push(0x07);
            encode_u32(*index, out);
            proof { assert(out@ =~= old(out)@ + spec_encode_kind(*k)); }
            Ok(())
        },
        InstructionKind::Throw { index } => {
            out.push(0x08);
            encode_u32(*index, out);
            proof { assert(out@ =~= old(out)@ + spec_encode_kind(*k)); }
            Ok(())
        },
        InstructionKind::Rethrow { relative_depth } => {
            out.push(0x09);
            encode_u32(*relative_depth, out);
            proof { assert(out@ =~= old(out)@ + spec_encode_kind(*k)); }
            Ok(())
        },
        InstructionKind::Br { relative_depth } => {
            out.push(0x0C);
            encode_u32(*relative_depth, out);
            proof { assert(out@ =~= old(out)@ + spec_encode_kind(*k)); }
            Ok(())
        },
        InstructionKind::BrIf { relative_depth } => {
            out.push(0x0D);
            encode_u32(*relative_depth, out);
            proof { assert(out@ =~= old(out)@ + spec_encode_kind(*k)); }
            Ok(())
        },
        InstructionKind::Call { function_index } => {
            out.push(0x10);
            encode_u32(*function_index, out);
            proof { assert(out@ =~= old(out)@ + spec_encode_kind(*k)); }
            Ok(())
        },
        InstructionKind::ReturnCall { function_index } => {
            out.push(0x12);
            encode_u32(*function_index, out);
            proof { assert(out@ =~= old(out)@ + spec_encode_kind(*k)); }
            Ok(())
        },
        InstructionKind::Delegate { relative_depth } => {
            out.push(0x18);
            encode_u32(*relative_depth, out);
            proof { assert(out@ =~= old(out)@ + spec_encode_kind(*k)); }
            Ok(())
        },
        InstructionKind::LocalGet { local_index } => {
            out.push(0x20);
            encode_u32(*local_index, out);
            proof { assert(out@ =~= old(out)@ + spec_encode_kind(*k)); }
            Ok(())
        },
        InstructionKind::LocalSet { local_index } => {
            out.push(0x21);
            encode_u32(*local_index, out);
            proof { assert(out@ =~= old(out)@ + spec_encode_kind(*k)); }
            Ok(())
        },
        InstructionKind::LocalTee { local_index } => {
            out.push(0x22);
            encode_u32(*local_index, out);
            proof { assert(out@ =~= old(out)@ + spec_encode_kind(*k)); }
            Ok(())
        },
        InstructionKind::GlobalGet { global_index } => {
            out.push(0x23);
            encode_u32(*global_index, out);
            proof { assert(out@ =~= old(out)@ + spec_encode_kind(*k)); }
            Ok(())
        },
        InstructionKind::GlobalSet { global_index } => {
            out.push(0x24);
            encode_u32(*global_index, out);
            proof { assert(out@ =~= old(out)@ + spec_encode_kind(*k)); }
            Ok(())
        },
        InstructionKind::TableGet { table } => {
            out.push(0x25);
            encode_u32(*table, out);
            proof { assert(out@ =~= old(out)@ + spec_encode_kind(*k)); }
            Ok(())
        },
        InstructionKind::TableSet { table } => {
            out.push(0x26);
            encode_u32(*table, out);
            proof { assert(out@ =~= old(out)@ + spec_encode_kind(*k)); }
            Ok(())
        },
        InstructionKind::RefFunc { function_index } => {
            out.push(0xD2);
            encode_u32(*function_index, out);
            proof { assert(out@ =~= old(out)@ + spec_encode_kind(*k)); }
            Ok(())
        },
        InstructionKind::CallIndirect { index, table_index } => {
            out.push(0x11);
            encode_u32(*index, out);
            encode_u32(*table_index, out);
            proof { assert(out@ =~= old(out)@ + spec_encode_kind(*k)); }
            Ok(())
        },
        InstructionKind::ReturnCallIndirect { index, table_index } => {
            out.push(0x13);
            encode_u32(*index, out);
            encode_u32(*table_index, out);
            proof { assert(out@ =~= old(out)@ + spec_encode_kind(*k)); }
            Ok(())
        },
        InstructionKind::BrTable { table } => {
            if table.table.len() as u64 >= 0x1_0000_0000u64 {
                return Err(());
            }
            out.push(0x0E);
            encode_u32(table.table.len() as u32, out);
            let mut j: usize = 0;
            let ghost mid = out@;
            while j < table.table.len()
                invariant
                    j <= table.table@.len(),
                    out@ == mid + spec_encode_u32_seq(table.table@.take(j as int)),
                decreases table.table@.len() - j,
            {
                let ghost pre = out@;
                encode_u32(table.table[j], out);
                proof {
                    lemma_encode_u32_seq_snoc(table.table@, j as int);
                }
                j = j + 1;
            }
            proof {
                assert(table.table@.take(table.table@.len() as int) =~= table.table@);
            }
            encode_u32(table.default, out);
            proof { assert(out@ =~= old(out)@ + spec_encode_kind(*k)); }
            Ok(())
        },
        InstructionKind::TypedSelect { ty } => {
            out.push(0x1C);
            out.push(0x01);
            out.push(byte_of_valtype(*ty));
            proof { assert(out@ =~= old(out)@ + spec_encode_kind(*k)); }
            Ok(())
        },
        _ => {
            proof {
                assert(false);
            }
            Err(())
        },
    }
}

/// Appends the encoding of one operator of this group to `out`.
#[verifier::rlimit(100)]
fn encode_kind_memory(k: &InstructionKind, out: &mut Vec<u8>) -> (r: Result<(), ()>)
    requires
        spec_group_memory(*k),
    ensures
        match r {
            Ok(()) => spec_encodable(*k) && final(out)@ == old(out)@ + spec_encode_kind(*k),
            Err(()) => !spec_encodable(*k) && final(out)@ == old(out)@,
        },
{
    match k {
        InstructionKind::I32Load { memarg } => {
            if memarg.memory != 0 {
                return Err(());
            }
            out.push(0x28);
            encode_u32(memarg.align, out);
            encode_u32(memarg.offset, out);
            proof { assert(out@ =~= old(out)@ + spec_encode_kind(*k)); }
            Ok(())
        },
        InstructionKind::I64Load { memarg } => {
            if memarg.memory != 0 {
                return Err(());
            }
            out.push(0x29);
            encode_u32(memarg.align, out);
            encode_u32(memarg.offset, out);
            proof { assert(out@ =~= old(out)@ + spec_encode_kind(*k)); }
            Ok(())
        },
        InstructionKind::F32Load { memarg } => {
            if memarg.memory != 0 {
                return Err(());
            }
            out.push(0x2A);
            encode_u32(memarg.align, out);
            encode_u32(memarg.offset, out);
            proof { assert(out@ =~= old(out)@ + spec_encode_kind(*k)); }
            Ok(())
        },
        InstructionKind::F64Load { memarg } => {
            if memarg.memory != 0 {
                return Err(());
            }
            out.push(0x2B);
            encode_u32(memarg.align, out);
            encode_u32(memarg.offset, out);
            proof { assert(out@ =~= old(out)@ + spec_encode_kind(*k)); }
            Ok(())
        },
        InstructionKind::I32Load8S { memarg } => {
            if memarg.memory != 0 {
                return Err(());
            }
            out.push(0x2C);
            encode_u32(memarg.align, out);
            encode_u32(memarg.offset, out);
            proof { assert(out@ =~= old(out)@ + spec_encode_kind(*k)); }
            Ok(())
        },
        InstructionKind::I32Load8U { memarg } => {
            if memarg.memory != 0 {
                return Err(());
            }
            out.push(0x2D);
            encode_u32(memarg.align, out);
            encode_u32(memarg.offset, out);
            proof { assert(out@ =~= old(out)@ + spec_encode_kind(*k)); }
            Ok(())
        },
        InstructionKind::I32Load16S { memarg } => {
            if memarg.memory != 0 {
                return Err(());
            }
            out.push(0x2E);
            encode_u32(memarg.align, out);
            encode_u32(memarg.offset, out);
            proof { assert(out@ =~= old(out)@ + spec_encode_kind(*k)); }
            Ok(())
        },
        InstructionKind::I32Load16U { memarg } => {
            if memarg.memory != 0 {
                return Err(());
            }
            out.push(0x2F);
            encode_u32(memarg.align, out);
            encode_u32(memarg.offset, out);
            proof { assert(out@ =~= old(out)@ + spec_encode_kind(*k)); }
            Ok(())
        },
        InstructionKind::I64Load8S { memarg } => {
            if memarg.memory != 0 {
                return Err(());
            }
            out.push(0x30);
            encode_u32(memarg.align, out);
            encode_u32(memarg.offset, out);
            proof { assert(out@ =~= old(out)@ + spec_encode_kind(*k)); }
            Ok(())
        },
        InstructionKind::I64Load8U { memarg } => {
            if memarg.memory != 0 {
                return Err(());
            }
            out.push(0x31);
            encode_u32(memarg.align, out);
            encode_u32(memarg.offset, out);
            proof { assert(out@ =~= old(out)@ + spec_encode_kind(*k)); }
            Ok(())
        },
        InstructionKind::I64Load16S { memarg } => {
            if memarg.memory != 0 {
                return Err(());
            }
            out.push(0x32);
            encode_u32(memarg.align, out);
            encode_u32(memarg.offset, out);
            proof { assert(out@ =~= old(out)@ + spec_encode_kind(*k)); }
            Ok(())
        },
        InstructionKind::I64Load16U { memarg } => {
            if memarg.memory != 0 {
                return Err(());
            }
            out.push(0x33);
            encode_u32(memarg.align, out);
            encode_u32(memarg.offset, out);
            proof { assert(out@ =~= old(out)@ + spec_encode_kind(*k)); }
            Ok(())
        },
        InstructionKind::I64Load32S { memarg } => {
            if memarg.memory != 0 {
                return Err(());
            }
            out.push(0x34);
            encode_u32(memarg.align, out);
            encode_u32(memarg.offset, out);
            proof { assert(out@ =~= old(out)@ + spec_encode_kind(*k)); }
            Ok(())
        },
        InstructionKind::I64Load32U { memarg } => {
            if memarg.memory != 0 {
                return Err(());
            }
            out.push(0x35);
            encode_u32(memarg.align, out);
            encode_u32(memarg.offset, out);
            proof { assert(out@ =~= old(out)@ + spec_encode_kind(*k)); }
            Ok(())
        },
        InstructionKind::I32Store { memarg } => {
            if memarg.memory != 0 {
                return Err(());
            }
            out.push(0x36);
            encode_u32(memarg.align, out);
            encode_u32(memarg.offset, out);
            proof { assert(out@ =~= old(out)@ + spec_encode_kind(*k)); }
            Ok(())
        },
        InstructionKind::I64Store { memarg } => {
            if memarg.memory != 0 {
                return Err(());
            }
            out.push(0x37);
            encode_u32(memarg.align, out);
            encode_u32(memarg.offset, out);
            proof { assert(out@ =~= old(out)@ + spec_encode_kind(*k)); }
            Ok(())
        },
        InstructionKind::F32Store { memarg } => {
            if memarg.memory != 0 {
                return Err(());
            }
            out.push(0x38);
            encode_u32(memarg.align, out);
            encode_u32(memarg.offset, out);
            proof { assert(out@ =~= old(out)@ + spec_encode_kind(*k)); }
            Ok(())
        },
        InstructionKind::F64Store { memarg } => {
            if memarg.memory != 0 {
                return Err(());
            }
            out.push(0x39);
            encode_u32(memarg.align, out);
            encode_u32(memarg.offset, out);
            proof { assert(out@ =~= old(out)@ + spec_encode_kind(*k)); }
            Ok(())
        },
        InstructionKind::I32Store8 { memarg } => {
            if memarg.memory != 0 {
                return Err(());
            }
            out.push(0x3A);
            encode_u32(memarg.align, out);
            encode_u32(memarg.offset, out);
            proof { assert(out@ =~= old(out)@ + spec_encode_kind(*k)); }
            Ok(())
        },
        InstructionKind::I32Store16 { memarg } => {
            if memarg.memory != 0 {
                return Err(());
            }
            out.push(0x3B);
            encode_u32(memarg.align, out);
            encode_u32(memarg.offset, out);
            proof { assert(out@ =~= old(out)@ + spec_encode_kind(*k)); }
            Ok(())
        },
        InstructionKind::I64Store8 { memarg } => {
            if memarg.memory != 0 {
                return Err(());
            }
            out.push(0x3C);
            encode_u32(memarg.align, out);
            encode_u32(memarg.offset, out);
            proof { assert(out@ =~= old(out)@ + spec_encode_kind(*k)); }
            Ok(())
        },
        InstructionKind::I64Store16 { memarg } => {
            if memarg.memory != 0 {
                return Err(());
            }
            out.push(0x3D);
            encode_u32(memarg.align, out);
            encode_u32(memarg.offset, out);
            proof { assert(out@ =~= old(out)@ + spec_encode_kind(*k)); }
            Ok(())
        },
        InstructionKind::I64Store32 { memarg } => {
            if memarg.memory != 0 {
                return Err(());
            }
            out.push(0x3E);
            encode_u32(memarg.align, out);
            encode_u32(memarg.offset, out);
            proof { assert(out@ =~= old(out)@ + spec_encode_kind(*k)); }
            Ok(())
        },
        InstructionKind::MemorySize { mem, mem_byte } => {
            if *mem_byte != (*mem) as u8 {
                return Err(());
            }
            out.push(0x3F);
            encode_u32(*mem, out);
            proof { assert(out@ =~= old(out)@ + spec_encode_kind(*k)); }
            Ok(())
        },
        InstructionKind::MemoryGrow { mem, mem_byte } => {
            if *mem_byte != (*mem) as u8 {
                return Err(());
            }
            out.push(0x40);
            encode_u32(*mem, out);
            proof { assert(out@ =~= old(out)@ + spec_encode_kind(*k)); }
            Ok(())
        },
        InstructionKind::I32Const { value } => {
            out.push(0x41);
            encode_i32(*value, out);
            proof { assert(out@ =~= old(out)@ + spec_encode_kind(*k)); }
            Ok(())
        },
        InstructionKind::I64Const { value } => {
            out.push(0x42);
            encode_i64(*value, out);
            proof { assert(out@ =~= old(out)@ + spec_encode_kind(*k)); }
            Ok(())
        },
        InstructionKind::F32Const { value } => {
            out.push(0x43);
            push_u32_le(*value, out);
            proof { assert(out@ =~= old(out)@ + spec_encode_kind(*k)); }
            Ok(())
        },
        InstructionKind::F64Const { value } => {
            out.push(0x44);
            push_u64_le(*value, out);
            proof { assert(out@ =~= old(out)@ + spec_encode_kind(*k)); }
            Ok(())
        },
        _ => {
            proof {
                assert(false);
            }
            Err(())
        },
    }
}

/// Appends the encoding of one operator of this group to `out`.
#[verifier::rlimit(100)]
fn encode_kind_prefixed(k: &InstructionKind, out: &mut Vec<u8>) -> (r: Result<(), ()>)
    requires
        spec_group_prefixed(*k),
    ensures
        match r {
            Ok(()) => spec_encodable(*k) && final(out)@ == old(out)@ + spec_encode_kind(*k),
            Err(()) => !spec_encodable(*k) && final(out)@ == old(out)@,
        },
{
    match k {
        InstructionKind::RefNull { ty } => {
            if !(*ty == ValType::FuncRef || *ty == ValType::ExternRef) {
                return Err(());
            }
            out.push(0xD0);
            out.push(byte_of_valtype(*ty));
            proof { assert(out@ =~= old(out)@ + spec_encode_kind(*k)); }
            Ok(())
        },
        InstructionKind::I32TruncSatF32S => {
            out.push(0xFC);
            out.push(0x00);
            proof { assert(out@ =~= old(out)@ + spec_encode_kind(*k)); }
            Ok(())
        },
        InstructionKind::I32TruncSatF32U => {
            out.push(0xFC);
            out.push(0x01);
            proof { assert(out@ =~= old(out)@ + spec_encode_kind(*k)); }
            Ok(())
        },
        InstructionKind::I32TruncSatF64S => {
            out.push(0xFC);
            out.push(0x02);
            proof { assert(out@ =~= old(out)@ + spec_encode_kind(*k)); }
            Ok(())
        },
        InstructionKind::I32TruncSatF64U => {
            out.push(0xFC);
            out.push(0x03);
            proof { assert(out@ =~= old(out)@ + spec_encode_kind(*k)); }
            Ok(())
        },
        InstructionKind::I64TruncSatF32S => {
            out.push(0xFC);
            out.push(0x04);
            proof { assert(out@ =~= old(out)@ + spec_encode_kind(*k)); }
            Ok(())
        },
        InstructionKind::I64TruncSatF32U => {
            out.push(0xFC);
            out.push(0x05);
            proof { assert(out@ =~= old(out)@ + spec_encode_kind(*k)); }
            Ok(())
        },
        InstructionKind::I64TruncSatF64S => {
            out.push(0xFC);
            out.push(0x06);
            proof { assert(out@ =~= old(out)@ + spec_encode_kind(*k)); }
            Ok(())
        },
        InstructionKind::I64TruncSatF64U => {
            out.push(0xFC);
            out.push(0x07);
            proof { assert(out@ =~= old(out)@ + spec_encode_kind(*k)); }
            Ok(())
        },
        InstructionKind::DataDrop { segment } => {
            out.push(0xFC);
            out.push(0x09);
            encode_u32(*segment, out);
            proof { assert(out@ =~= old(out)@ + spec_encode_kind(*k)); }
            Ok(())
        },
        InstructionKind::MemoryFill { mem } => {
            out.push(0xFC);
            out.push(0x0B);
            encode_u32(*mem, out);
            proof { assert(out@ =~= old(out)@ + spec_encode_kind(*k)); }
            Ok(())
        },
        InstructionKind::ElemDrop { segment } => {
            out.push(0xFC);
            out.push(0x0D);
            encode_u32(*segment, out);
            proof { assert(out@ =~= old(out)@ + spec_encode_kind(*k)); }
            Ok(())
        },
        InstructionKind::TableGrow { table } => {
            out.push(0xFC);
            out.push(0x0F);
            encode_u32(*table, out);
            proof { assert(out@ =~= old(out)@ + spec_encode_kind(*k)); }
            Ok(())
        },
        InstructionKind::TableSize { table } => {
            out.push(0xFC);
            out.push(0x10);
            encode_u32(*table, out);
            proof { assert(out@ =~= old(out)@ + spec_encode_kind(*k)); }
            Ok(())
        },
        InstructionKind::TableFill { table } => {
            out.push(0xFC);
            out.push(0x11);
            encode_u32(*table, out);
            proof { assert(out@ =~= old(out)@ + spec_encode_kind(*k)); }
            Ok(())
        },
        InstructionKind::MemoryInit { segment, mem } => {
            out.push(0xFC);
            out.push(0x08);
            encode_u32(*segment, out);
            encode_u32(*mem, out);
            proof { assert(out@ =~= old(out)@ + spec_encode_kind(*k)); }
            Ok(())
        },
        InstructionKind::MemoryCopy { dst, src } => {
            out.push(0xFC);
            out.push(0x0A);
            encode_u32(*dst, out);
            encode_u32(*src, out);
            proof { assert(out@ =~= old(out)@ + spec_encode_kind(*k)); }
            Ok(())
        },
        InstructionKind::TableInit { segment, table } => {
            out.push(0xFC);
            out.push(0x0C);
            encode_u32(*segment, out);
            encode_u32(*table, out);
            proof { assert(out@ =~= old(out)@ + spec_encode_kind(*k)); }
            Ok(())
        },
        InstructionKind::TableCopy { dst_table, src_table } => {
            out.push(0xFC);
            out.push(0x0E);
            encode_u32(*dst_table, out);
            encode_u32(*src_table, out);
            proof { assert(out@ =~= old(out)@ + spec_encode_kind(*k)); }
            Ok(())
        },
        _ => {
            proof {
                assert(false);
            }
            Err(())
        },
    }
}

/// Appends the minimal binary encoding of one operator to `out`, or
/// reports an operator that the encoder cannot reproduce.
pub fn encode_kind(k: &InstructionKind, out: &mut Vec<u8>) -> (r: Result<(), ()>)
    ensures
        match r {
            Ok(()) => spec_encodable(*k) && final(out)@ == old(out)@ + spec_encode_kind(*k),
            Err(()) => !spec_encodable(*k) && final(out)@ == old(out)@,
        },
{
    match k {
        InstructionKind::Block { .. }
        | InstructionKind::Br { .. }
        | InstructionKind::BrIf { .. }
        | InstructionKind::BrTable { .. }
        | InstructionKind::Call { .. }
        | InstructionKind::CallIndirect { .. }
        | InstructionKind::Catch { .. }
        | InstructionKind::Delegate { .. }
        | InstructionKind::GlobalGet { .. }
        | InstructionKind::GlobalSet { .. }
        | InstructionKind::If { .. }
        | InstructionKind::LocalGet { .. }
        | InstructionKind::LocalSet { .. }
        | InstructionKind::LocalTee { .. }
        | InstructionKind::Loop { .. }
        | InstructionKind::RefFunc { .. }
        | InstructionKind::Rethrow { .. }
        | InstructionKind::ReturnCall { .. }
        | InstructionKind::ReturnCallIndirect { .. }
        | InstructionKind::TableGet { .. }
        | InstructionKind::TableSet { .. }
        | InstructionKind::Throw { .. }
        | InstructionKind::Try { .. }
        | InstructionKind::TypedSelect { .. } => encode_kind_control(k, out),
        InstructionKind::F32Const { .. }
        | InstructionKind::F32Load { .. }
        | InstructionKind::F32Store { .. }
        | InstructionKind::F64Const { .. }
        | InstructionKind::F64Load { .. }
        | InstructionKind::F64Store { .. }
        | InstructionKind::I32Const { .. }
        | InstructionKind::I32Load { .. }
        | InstructionKind::I32Load16S { .. }
        | InstructionKind::I32Load16U { .. }
        | InstructionKind::I32Load8S { .. }
        | InstructionKind::I32Load8U { .. }
        | InstructionKind::I32Store { .. }
        | InstructionKind::I32Store16 { .. }
        | InstructionKind::I32Store8 { .. }
        | InstructionKind::I64Const { .. }
        | InstructionKind::I64Load { .. }
        | InstructionKind::I64Load16S { .. }
        | InstructionKind::I64Load16U { .. }
        | InstructionKind::I64Load32S { .. }
        | InstructionKind::I64Load32U { .. }
        | InstructionKind::I64Load8S { .. }
        | InstructionKind::I64Load8U { .. }
        | InstructionKind::I64Store { .. }
        | InstructionKind::I64Store16 { .. }
        | InstructionKind::I64Store32 { .. }
        | InstructionKind::I64Store8 { .. }
        | InstructionKind::MemoryGrow { .. }
        | InstructionKind::MemorySize { .. } => encode_kind_memory(k, out),
        InstructionKind::DataDrop { .. }
        | InstructionKind::ElemDrop { .. }
        | InstructionKind::I32TruncSatF32S
        | InstructionKind::I32TruncSatF32U
        | InstructionKind::I32TruncSatF64S
        | InstructionKind::I32TruncSatF64U
        | InstructionKind::I64TruncSatF32S
        | InstructionKind::I64TruncSatF32U
        | InstructionKind::I64TruncSatF64S
        | InstructionKind::I64TruncSatF64U
        | InstructionKind::MemoryCopy { .. }
        | InstructionKind::MemoryFill { .. }
        | InstructionKind::MemoryInit { .. }
        | InstructionKind::RefNull { .. }
        | InstructionKind::TableCopy { .. }
        | InstructionKind::TableFill { .. }
        | InstructionKind::TableGrow { .. }
        | InstructionKind::TableInit { .. }
        | InstructionKind::TableSize { .. } => encode_kind_prefixed(k, out),
        _ => {
            let b = simple_opcode(k);
            out.push(b);
            proof {
                assert(out@ =~= old(out)@ + spec_encode_kind(*k));
            }
            Ok(())
        },
    }
}

/// Decoding the encoding of an operator yields the operator back and
/// consumes exactly its encoded bytes, wherever the encoding is embedded:
/// re-encoding a decoded operator therefore reproduces its bytes at the
/// same offsets.
#[verifier::rlimit(100)]
#[verifier::spinoff_prover]
pub proof fn lemma_kind_round_trip(s: Seq<u8>, pos: int, k: InstructionKind)
    requires
        0 <= pos,
        spec_encodable(k),
        pos + spec_encode_kind(k).len() <= s.len(),
        s.subrange(pos, pos + spec_encode_kind(k).len() as int) == spec_encode_kind(k),
    ensures
        spec_decode_kind(s, pos) matches Some((dk, end)) && kind_matches_decoded(k, dk)
            && end == pos + spec_encode_kind(k).len(),
{
    let enc = spec_encode_kind(k);
    match k {
        InstructionKind::Unreachable => {
            lemma_first_byte(s, pos, 0x00, Seq::empty());
        },
        InstructionKind::Nop => {
            lemma_first_byte(s, pos, 0x01, Seq::empty());
        },
        InstructionKind::Else => {
            lemma_first_byte(s, pos, 0x05, Seq::empty());
        },
        InstructionKind::End => {
            lemma_first_byte(s, pos, 0x0B, Seq::empty());
        },
        InstructionKind::Return => {
            lemma_first_byte(s, pos, 0x0F, Seq::empty());
        },
        InstructionKind::CatchAll => {
            lemma_first_byte(s, pos, 0x19, Seq::empty());
        },
        InstructionKind::Drop => {
            lemma_first_byte(s, pos, 0x1A, Seq::empty());
        },
        InstructionKind::Select => {
            lemma_first_byte(s, pos, 0x1B, Seq::empty());
        },
        InstructionKind::I32Eqz => {
            lemma_first_byte(s, pos, 0x45, Seq::empty());
        },
        InstructionKind::I32Eq => {
            lemma_first_byte(s, pos, 0x46, Seq::empty());
        },
        InstructionKind::I32Ne => {
            lemma_first_byte(s, pos, 0x47, Seq::empty());
        },
        InstructionKind::I32LtS => {
            lemma_first_byte(s, pos, 0x48, Seq::empty());
        },
        InstructionKind::I32LtU => {
            lemma_first_byte(s, pos, 0x49, Seq::empty());
        },
        InstructionKind::I32GtS => {
            lemma_first_byte(s, pos, 0x4A, Seq::empty());
        },
        InstructionKind::I32GtU => {
            lemma_first_byte(s, pos, 0x4B, Seq::empty());
        },
        InstructionKind::I32LeS => {
            lemma_first_byte(s, pos, 0x4C, Seq::empty());
        },
        InstructionKind::I32LeU => {
            lemma_first_byte(s, pos, 0x4D, Seq::empty());
        },
        InstructionKind::I32GeS => {
            lemma_first_byte(s, pos, 0x4E, Seq::empty());
        },
        InstructionKind::I32GeU => {
            lemma_first_byte(s, pos, 0x4F, Seq::empty());
        },
        InstructionKind::I64Eqz => {
            lemma_first_byte(s, pos, 0x50, Seq::empty());
        },
        InstructionKind::I64Eq => {
            lemma_first_byte(s, pos, 0x51, Seq::empty());
        },
        InstructionKind::I64Ne => {
            lemma_first_byte(s, pos, 0x52, Seq::empty());
        },
        InstructionKind::I64LtS => {
            lemma_first_byte(s, pos, 0x53, Seq::empty());
        },
        InstructionKind::I64LtU => {
            lemma_first_byte(s, pos, 0x54, Seq::empty());
        },
        InstructionKind::I64GtS => {
            lemma_first_byte(s, pos, 0x55, Seq::empty());
        },
        InstructionKind::I64GtU => {
            lemma_first_byte(s, pos, 0x56, Seq::empty());
        },
        InstructionKind::I64LeS => {
            lemma_first_byte(s, pos, 0x57, Seq::empty());
        },
        InstructionKind::I64LeU => {
            lemma_first_byte(s, pos, 0x58, Seq::empty());
        },
        InstructionKind::I64GeS => {
            lemma_first_byte(s, pos, 0x59, Seq::empty());
        },
        InstructionKind::I64GeU => {
            lemma_first_byte(s, pos, 0x5A, Seq::empty());
        },
        InstructionKind::F32Eq => {
            lemma_first_byte(s, pos, 0x5B, Seq::empty());
        },
        InstructionKind::F32Ne => {
            lemma_first_byte(s, pos, 0x5C, Seq::empty());
        },
        InstructionKind::F32Lt => {
            lemma_first_byte(s, pos, 0x5D, Seq::empty());
        },
        InstructionKind::F32Gt => {
            lemma_first_byte(s, pos, 0x5E, Seq::empty());
        },
        InstructionKind::F32Le => {
            lemma_first_byte(s, pos, 0x5F, Seq::empty());
        },
        InstructionKind::F32Ge => {
            lemma_first_byte(s, pos, 0x60, Seq::empty());
        },
        InstructionKind::F64Eq => {
            lemma_first_byte(s, pos, 0x61, Seq::empty());
        },
        InstructionKind::F64Ne => {
            lemma_first_byte(s, pos, 0x62, Seq::empty());
        },
        InstructionKind::F64Lt => {
            lemma_first_byte(s, pos, 0x63, Seq::empty());
        },
        InstructionKind::F64Gt => {
            lemma_first_byte(s, pos, 0x64, Seq::empty());
        },
        InstructionKind::F64Le => {
            lemma_first_byte(s, pos, 0x65, Seq::empty());
        },
        InstructionKind::F64Ge => {
            lemma_first_byte(s, pos, 0x66, Seq::empty());
        },
        InstructionKind::I32Clz => {
            lemma_first_byte(s, pos, 0x67, Seq::empty());
        },
        InstructionKind::I32Ctz => {
            lemma_first_byte(s, pos, 0x68, Seq::empty());
        },
        InstructionKind::I32Popcnt => {
            lemma_first_byte(s, pos, 0x69, Seq::empty());
        },
        InstructionKind::I32Add => {
            lemma_first_byte(s, pos, 0x6A, Seq::empty());
        },
        InstructionKind::I32Sub => {
            lemma_first_byte(s, pos, 0x6B, Seq::empty());
        },
        InstructionKind::I32Mul => {
            lemma_first_byte(s, pos, 0x6C, Seq::empty());
        },
        InstructionKind::I32DivS => {
            lemma_first_byte(s, pos, 0x6D, Seq::empty());
        },
        InstructionKind::I32DivU => {
            lemma_first_byte(s, pos, 0x6E, Seq::empty());
        },
        InstructionKind::I32RemS => {
            lemma_first_byte(s, pos, 0x6F, Seq::empty());
        },
        InstructionKind::I32RemU => {
            lemma_first_byte(s, pos, 0x70, Seq::empty());
        },
        InstructionKind::I32And => {
            lemma_first_byte(s, pos, 0x71, Seq::empty());
        },
        InstructionKind::I32Or => {
            lemma_first_byte(s, pos, 0x72, Seq::empty());
        },
        InstructionKind::I32Xor => {
            lemma_first_byte(s, pos, 0x73, Seq::empty());
        },
        InstructionKind::I32Shl => {
            lemma_first_byte(s, pos, 0x74, Seq::empty());
        },
        InstructionKind::I32ShrS => {
            lemma_first_byte(s, pos, 0x75, Seq::empty());
        },
        InstructionKind::I32ShrU => {
            lemma_first_byte(s, pos, 0x76, Seq::empty());
        },
        InstructionKind::I32Rotl => {
            lemma_first_byte(s, pos, 0x77, Seq::empty());
        },
        InstructionKind::I32Rotr => {
            lemma_first_byte(s, pos, 0x78, Seq::empty());
        },
        InstructionKind::I64Clz => {
            lemma_first_byte(s, pos, 0x79, Seq::empty());
        },
        InstructionKind::I64Ctz => {
            lemma_first_byte(s, pos, 0x7A, Seq::empty());
        },
        InstructionKind::I64Popcnt => {
            lemma_first_byte(s, pos, 0x7B, Seq::empty());
        },
        InstructionKind::I64Add => {
            lemma_first_byte(s, pos, 0x7C, Seq::empty());
        },
        InstructionKind::I64Sub => {
            lemma_first_byte(s, pos, 0x7D, Seq::empty());
        },
        InstructionKind::I64Mul => {
            lemma_first_byte(s, pos, 0x7E, Seq::empty());
        },
        InstructionKind::I64DivS => {
            lemma_first_byte(s, pos, 0x7F, Seq::empty());
        },
        InstructionKind::I64DivU => {
            lemma_first_byte(s, pos, 0x80, Seq::empty());
        },
        InstructionKind::I64RemS => {
            lemma_first_byte(s, pos, 0x81, Seq::empty());
        },
        InstructionKind::I64RemU => {
            lemma_first_byte(s, pos, 0x82, Seq::empty());
        },
        InstructionKind::I64And => {
            lemma_first_byte(s, pos, 0x83, Seq::empty());
        },
        InstructionKind::I64Or => {
            lemma_first_byte(s, pos, 0x84, Seq::empty());
        },
        InstructionKind::I64Xor => {
            lemma_first_byte(s, pos, 0x85, Seq::empty());
        },
        InstructionKind::I64Shl => {
            lemma_first_byte(s, pos, 0x86, Seq::empty());
        },
        InstructionKind::I64ShrS => {
            lemma_first_byte(s, pos, 0x87, Seq::empty());
        },
        InstructionKind::I64ShrU => {
            lemma_first_byte(s, pos, 0x88, Seq::empty());
        },
        InstructionKind::I64Rotl => {
            lemma_first_byte(s, pos, 0x89, Seq::empty());
        },
        InstructionKind::I64Rotr => {
            lemma_first_byte(s, pos, 0x8A, Seq::empty());
        },
        InstructionKind::F32Abs => {
            lemma_first_byte(s, pos, 0x8B, Seq::empty());
        },
        InstructionKind::F32Neg => {
            lemma_first_byte(s, pos, 0x8C, Seq::empty());
        },
        InstructionKind::F32Ceil => {
            lemma_first_byte(s, pos, 0x8D, Seq::empty());
        },
        InstructionKind::F32Floor => {
            lemma_first_byte(s, pos, 0x8E, Seq::empty());
        },
        InstructionKind::F32Trunc => {
            lemma_first_byte(s, pos, 0x8F, Seq::empty());
        },
        InstructionKind::F32Nearest => {
            lemma_first_byte(s, pos, 0x90, Seq::empty());
        },
        InstructionKind::F32Sqrt => {
            lemma_first_byte(s, pos, 0x91, Seq::empty());
        },
        InstructionKind::F32Add => {
            lemma_first_byte(s, pos, 0x92, Seq::empty());
        },
        InstructionKind::F32Sub => {
            lemma_first_byte(s, pos, 0x93, Seq::empty());
        },
        InstructionKind::F32Mul => {
            lemma_first_byte(s, pos, 0x94, Seq::empty());
        },
        InstructionKind::F32Div => {
            lemma_first_byte(s, pos, 0x95, Seq::empty());
        },
        InstructionKind::F32Min => {
            lemma_first_byte(s, pos, 0x96, Seq::empty());
        },
        InstructionKind::F32Max => {
            lemma_first_byte(s, pos, 0x97, Seq::empty());
        },
        InstructionKind::F32Copysign => {
            lemma_first_byte(s, pos, 0x98, Seq::empty());
        },
        InstructionKind::F64Abs => {
            lemma_first_byte(s, pos, 0x99, Seq::empty());
        },
        InstructionKind::F64Neg => {
            lemma_first_byte(s, pos, 0x9A, Seq::empty());
        },
        InstructionKind::F64Ceil => {
            lemma_first_byte(s, pos, 0x9B, Seq::empty());
        },
        InstructionKind::F64Floor => {
            lemma_first_byte(s, pos, 0x9C, Seq::empty());
        },
        InstructionKind::F64Trunc => {
            lemma_first_byte(s, pos, 0x9D, Seq::empty());
        },
        InstructionKind::F64Nearest => {
            lemma_first_byte(s, pos, 0x9E, Seq::empty());
        },
        InstructionKind::F64Sqrt => {
            lemma_first_byte(s, pos, 0x9F, Seq::empty());
        },
        InstructionKind::F64Add => {
            lemma_first_byte(s, pos, 0xA0, Seq::empty());
        },
        InstructionKind::F64Sub => {
            lemma_first_byte(s, pos, 0xA1, Seq::empty());
        },
        InstructionKind::F64Mul => {
            lemma_first_byte(s, pos, 0xA2, Seq::empty());
        },
        InstructionKind::F64Div => {
            lemma_first_byte(s, pos, 0xA3, Seq::empty());
        },
        InstructionKind::F64Min => {
            lemma_first_byte(s, pos, 0xA4, Seq::empty());
        },
        InstructionKind::F64Max => {
            lemma_first_byte(s, pos, 0xA5, Seq::empty());
        },
        InstructionKind::F64Copysign => {
            lemma_first_byte(s, pos, 0xA6, Seq::empty());
        },
        InstructionKind::I32WrapI64 => {
            lemma_first_byte(s, pos, 0xA7, Seq::empty());
        },
        InstructionKind::I32TruncF32S => {
            lemma_first_byte(s, pos, 0xA8, Seq::empty());
        },
        InstructionKind::I32TruncF32U => {
            lemma_first_byte(s, pos, 0xA9, Seq::empty());
        },
        InstructionKind::I32TruncF64S => {
            lemma_first_byte(s, pos, 0xAA, Seq::empty());
        },
        InstructionKind::I32TruncF64U => {
            lemma_first_byte(s, pos, 0xAB, Seq::empty());
        },
        InstructionKind::I64ExtendI32S => {
            lemma_first_byte(s, pos, 0xAC, Seq::empty());
        },
        InstructionKind::I64ExtendI32U => {
            lemma_first_byte(s, pos, 0xAD, Seq::empty());
        },
        InstructionKind::I64TruncF32S => {
            lemma_first_byte(s, pos, 0xAE, Seq::empty());
        },
        InstructionKind::I64TruncF32U => {
            lemma_first_byte(s, pos, 0xAF, Seq::empty());
        },
        InstructionKind::I64TruncF64S => {
            lemma_first_byte(s, pos, 0xB0, Seq::empty());
        },
        InstructionKind::I64TruncF64U => {
            lemma_first_byte(s, pos, 0xB1, Seq::empty());
        },
        InstructionKind::F32ConvertI32S => {
            lemma_first_byte(s, pos, 0xB2, Seq::empty());
        },
        InstructionKind::F32ConvertI32U => {
            lemma_first_byte(s, pos, 0xB3, Seq::empty());
        },
        InstructionKind::F32ConvertI64S => {
            lemma_first_byte(s, pos, 0xB4, Seq::empty());
        },
        InstructionKind::F32ConvertI64U => {
            lemma_first_byte(s, pos, 0xB5, Seq::empty());
        },
        InstructionKind::F32DemoteF64 => {
            lemma_first_byte(s, pos, 0xB6, Seq::empty());
        },
        InstructionKind::F64ConvertI32S => {
            lemma_first_byte(s, pos, 0xB7, Seq::empty());
        },
        InstructionKind::F64ConvertI32U => {
            lemma_first_byte(s, pos, 0xB8, Seq::empty());
        },
        InstructionKind::F64ConvertI64S => {
            lemma_first_byte(s, pos, 0xB9, Seq::empty());
        },
        InstructionKind::F64ConvertI64U => {
            lemma_first_byte(s, pos, 0xBA, Seq::empty());
        },
        InstructionKind::F64PromoteF32 => {
            lemma_first_byte(s, pos, 0xBB, Seq::empty());
        },
        InstructionKind::I32ReinterpretF32 => {
            lemma_first_byte(s, pos, 0xBC, Seq::empty());
        },
        InstructionKind::I64ReinterpretF64 => {
            lemma_first_byte(s, pos, 0xBD, Seq::empty());
        },
        InstructionKind::F32ReinterpretI32 => {
            lemma_first_byte(s, pos, 0xBE, Seq::empty());
        },
        InstructionKind::F64ReinterpretI64 => {
            lemma_first_byte(s, pos, 0xBF, Seq::empty());
        },
        InstructionKind::I32Extend8S => {
            lemma_first_byte(s, pos, 0xC0, Seq::empty());
        },
        InstructionKind::I32Extend16S => {
            lemma_first_byte(s, pos, 0xC1, Seq::empty());
        },
        InstructionKind::I64Extend8S => {
            lemma_first_byte(s, pos, 0xC2, Seq::empty());
        },
        InstructionKind::I64Extend16S => {
            lemma_first_byte(s, pos, 0xC3, Seq::empty());
        },
        InstructionKind::I64Extend32S => {
            lemma_first_byte(s, pos, 0xC4, Seq::empty());
        },
        InstructionKind::RefIsNull => {
            lemma_first_byte(s, pos, 0xD1, Seq::empty());
        },
        InstructionKind::Block { ty } => {
            lemma_first_byte(s, pos, 0x02, spec_encode_blocktype(ty));
            lemma_decode_encoded_blocktype(s, pos + 1, ty);
        },
        InstructionKind::Loop { ty } => {
            lemma_first_byte(s, pos, 0x03, spec_encode_blocktype(ty));
            lemma_decode_encoded_blocktype(s, pos + 1, ty);
        },
        InstructionKind::If { ty } => {
            lemma_first_byte(s, pos, 0x04, spec_encode_blocktype(ty));
            lemma_decode_encoded_blocktype(s, pos + 1, ty);
        },
        InstructionKind::Try { ty } => {
            lemma_first_byte(s, pos, 0x06, spec_encode_blocktype(ty));
            lemma_decode_encoded_blocktype(s, pos + 1, ty);
        },
        InstructionKind::Catch { index } => {
            lemma_first_byte(s, pos, 0x07, spec_encode_unsigned(index as nat));
            lemma_decode_encoded_u32(s, pos + 1, index);
        },
        InstructionKind::Throw { index } => {
            lemma_first_byte(s, pos, 0x08, spec_encode_unsigned(index as nat));
            lemma_decode_encoded_u32(s, pos + 1, index);
        },
        InstructionKind::Rethrow { relative_depth } => {
            lemma_first_byte(s, pos, 0x09, spec_encode_unsigned(relative_depth as nat));
            lemma_decode_encoded_u32(s, pos + 1, relative_depth);
        },
        InstructionKind::Br { relative_depth } => {
            lemma_first_byte(s, pos, 0x0C, spec_encode_unsigned(relative_depth as nat));
            lemma_decode_encoded_u32(s, pos + 1, relative_depth);
        },
        InstructionKind::BrIf { relative_depth } => {
            lemma_first_byte(s, pos, 0x0D, spec_encode_unsigned(relative_depth as nat));
            lemma_decode_encoded_u32(s, pos + 1, relative_depth);
        },
        InstructionKind::Call { function_index } => {
            lemma_first_byte(s, pos, 0x10, spec_encode_unsigned(function_index as nat));
            lemma_decode_encoded_u32(s, pos + 1, function_index);
        },
        InstructionKind::ReturnCall { function_index } => {
            lemma_first_byte(s, pos, 0x12, spec_encode_unsigned(function_index as nat));
            lemma_decode_encoded_u32(s, pos + 1, function_index);
        },
        InstructionKind::Delegate { relative_depth } => {
            lemma_first_byte(s, pos, 0x18, spec_encode_unsigned(relative_depth as nat));
            lemma_decode_encoded_u32(s, pos + 1, relative_depth);
        },
        InstructionKind::LocalGet { local_index } => {
            lemma_first_byte(s, pos, 0x20, spec_encode_unsigned(local_index as nat));
            lemma_decode_encoded_u32(s, pos + 1, local_index);
        },
        InstructionKind::LocalSet { local_index } => {
            lemma_first_byte(s, pos, 0x21, spec_encode_unsigned(local_index as nat));
            lemma_decode_encoded_u32(s, pos + 1, local_index);
        },
        InstructionKind::LocalTee { local_index } => {
            lemma_first_byte(s, pos, 0x22, spec_encode_unsigned(local_index as nat));
            lemma_decode_encoded_u32(s, pos + 1, local_index);
        },
        InstructionKind::GlobalGet { global_index } => {
            lemma_first_byte(s, pos, 0x23, spec_encode_unsigned(global_index as nat));
            lemma_decode_encoded_u32(s, pos + 1, global_index);
        },
        InstructionKind::GlobalSet { global_index } => {
            lemma_first_byte(s, pos, 0x24, spec_encode_unsigned(global_index as nat));
            lemma_decode_encoded_u32(s, pos + 1, global_index);
        },
        InstructionKind::TableGet { table } => {
            lemma_first_byte(s, pos, 0x25, spec_encode_unsigned(table as nat));
            lemma_decode_encoded_u32(s, pos + 1, table);
        },
        InstructionKind::TableSet { table } => {
            lemma_first_byte(s, pos, 0x26, spec_encode_unsigned(table as nat));
            lemma_decode_encoded_u32(s, pos + 1, table);
        },
        InstructionKind::RefFunc { function_index } => {
            lemma_first_byte(s, pos, 0xD2, spec_encode_unsigned(function_index as nat));
            lemma_decode_encoded_u32(s, pos + 1, function_index);
        },
        InstructionKind::CallIndirect { index, table_index } => {
            let a = spec_encode_unsigned(index as nat);
            let c = spec_encode_unsigned(table_index as nat);
            assert(seq![0x11u8] + a + c =~= seq![0x11u8] + (a + c));
            lemma_first_byte(s, pos, 0x11, a + c);
            lemma_split2(s, pos + 1, a, c);
            lemma_decode_encoded_u32(s, pos + 1, index);
            lemma_decode_encoded_u32(s, pos + 1 + a.len() as int, table_index);
        },
        InstructionKind::ReturnCallIndirect { index, table_index } => {
            let a = spec_encode_unsigned(index as nat);
            let c = spec_encode_unsigned(table_index as nat);
            assert(seq![0x13u8] + a + c =~= seq![0x13u8] + (a + c));
            lemma_first_byte(s, pos, 0x13, a + c);
            lemma_split2(s, pos + 1, a, c);
            lemma_decode_encoded_u32(s, pos + 1, index);
            lemma_decode_encoded_u32(s, pos + 1 + a.len() as int, table_index);
        },
        InstructionKind::I32Load { memarg } => {
            lemma_first_byte(s, pos, 0x28, spec_encode_memarg(memarg));
            lemma_decode_encoded_memarg(s, pos + 1, memarg);
        },
        InstructionKind::I64Load { memarg } => {
            lemma_first_byte(s, pos, 0x29, spec_encode_memarg(memarg));
            lemma_decode_encoded_memarg(s, pos + 1, memarg);
        },
        InstructionKind::F32Load { memarg } => {
            lemma_first_byte(s, pos, 0x2A, spec_encode_memarg(memarg));
            lemma_decode_encoded_memarg(s, pos + 1, memarg);
        },
        InstructionKind::F64Load { memarg } => {
            lemma_first_byte(s, pos, 0x2B, spec_encode_memarg(memarg));
            lemma_decode_encoded_memarg(s, pos + 1, memarg);
        },
        InstructionKind::I32Load8S { memarg } => {
            lemma_first_byte(s, pos, 0x2C, spec_encode_memarg(memarg));
            lemma_decode_encoded_memarg(s, pos + 1, memarg);
        },
        InstructionKind::I32Load8U { memarg } => {
            lemma_first_byte(s, pos, 0x2D, spec_encode_memarg(memarg));
            lemma_decode_encoded_memarg(s, pos + 1, memarg);
        },
        InstructionKind::I32Load16S { memarg } => {
            lemma_first_byte(s, pos, 0x2E, spec_encode_memarg(memarg));
            lemma_decode_encoded_memarg(s, pos + 1, memarg);
        },
        InstructionKind::I32Load16U { memarg } => {
            lemma_first_byte(s, pos, 0x2F, spec_encode_memarg(memarg));
            lemma_decode_encoded_memarg(s, pos + 1, memarg);
        },
        InstructionKind::I64Load8S { memarg } => {
            lemma_first_byte(s, pos, 0x30, spec_encode_memarg(memarg));
            lemma_decode_encoded_memarg(s, pos + 1, memarg);
        },
        InstructionKind::I64Load8U { memarg } => {
            lemma_first_byte(s, pos, 0x31, spec_encode_memarg(memarg));
            lemma_decode_encoded_memarg(s, pos + 1, memarg);
        },
        InstructionKind::I64Load16S { memarg } => {
            lemma_first_byte(s, pos, 0x32, spec_encode_memarg(memarg));
            lemma_decode_encoded_memarg(s, pos + 1, memarg);
        },
        InstructionKind::I64Load16U { memarg } => {
            lemma_first_byte(s, pos, 0x33, spec_encode_memarg(memarg));
            lemma_decode_encoded_memarg(s, pos + 1, memarg);
        },
        InstructionKind::I64Load32S { memarg } => {
            lemma_first_byte(s, pos, 0x34, spec_encode_memarg(memarg));
            lemma_decode_encoded_memarg(s, pos + 1, memarg);
        },
        InstructionKind::I64Load32U { memarg } => {
            lemma_first_byte(s, pos, 0x35, spec_encode_memarg(memarg));
            lemma_decode_encoded_memarg(s, pos + 1, memarg);
        },
        InstructionKind::I32Store { memarg } => {
            lemma_first_byte(s, pos, 0x36, spec_encode_memarg(memarg));
            lemma_decode_encoded_memarg(s, pos + 1, memarg);
        },
        InstructionKind::I64Store { memarg } => {
            lemma_first_byte(s, pos, 0x37, spec_encode_memarg(memarg));
            lemma_decode_encoded_memarg(s, pos + 1, memarg);
        },
        InstructionKind::F32Store { memarg } => {
            lemma_first_byte(s, pos, 0x38, spec_encode_memarg(memarg));
            lemma_decode_encoded_memarg(s, pos + 1, memarg);
        },
        InstructionKind::F64Store { memarg } => {
            lemma_first_byte(s, pos, 0x39, spec_encode_memarg(memarg));
            lemma_decode_encoded_memarg(s, pos + 1, memarg);
        },
        InstructionKind::I32Store8 { memarg } => {
            lemma_first_byte(s, pos, 0x3A, spec_encode_memarg(memarg));
            lemma_decode_encoded_memarg(s, pos + 1, memarg);
        },
        InstructionKind::I32Store16 { memarg } => {
            lemma_first_byte(s, pos, 0x3B, spec_encode_memarg(memarg));
            lemma_decode_encoded_memarg(s, pos + 1, memarg);
        },
        InstructionKind::I64Store8 { memarg } => {
            lemma_first_byte(s, pos, 0x3C, spec_encode_memarg(memarg));
            lemma_decode_encoded_memarg(s, pos + 1, memarg);
        },
        InstructionKind::I64Store16 { memarg } => {
            lemma_first_byte(s, pos, 0x3D, spec_encode_memarg(memarg));
            lemma_decode_encoded_memarg(s, pos + 1, memarg);
        },
        InstructionKind::I64Store32 { memarg } => {
            lemma_first_byte(s, pos, 0x3E, spec_encode_memarg(memarg));
            lemma_decode_encoded_memarg(s, pos + 1, memarg);
        },
        InstructionKind::BrTable { table } => {
            let n = table.table@.len() as u32;
            let a = spec_encode_unsigned(n as nat);
            let b = spec_encode_u32_seq(table.table@);
            let c = spec_encode_unsigned(table.default as nat);
            assert(seq![0x0Eu8] + a + b + c =~= seq![0x0Eu8] + (a + (b + c)));
            lemma_first_byte(s, pos, 0x0E, a + (b + c));
            lemma_split2(s, pos + 1, a, b + c);
            lemma_split2(s, pos + 1 + a.len() as int, b, c);
            lemma_decode_encoded_u32(s, pos + 1, n);
            lemma_decode_encoded_u32_seq(s, pos + 1 + a.len() as int, table.table@);
            lemma_decode_encoded_u32(s, pos + 1 + a.len() + b.len(), table.default);
        },
        InstructionKind::TypedSelect { ty } => {
            lemma_valtype_byte(ty);
            assert(seq![0x1Cu8, 0x01u8, spec_byte_of_valtype(ty)] =~= seq![0x1Cu8] + (seq![
                0x01u8,
                spec_byte_of_valtype(ty),
            ]));
            lemma_first_byte(s, pos, 0x1C, seq![0x01u8, spec_byte_of_valtype(ty)]);
            assert(seq![0x01u8, spec_byte_of_valtype(ty)] =~= seq![0x01u8] + seq![
                spec_byte_of_valtype(ty),
            ]);
            lemma_first_byte(s, pos + 1, 0x01, seq![spec_byte_of_valtype(ty)]);
            lemma_first_byte(s, pos + 2, spec_byte_of_valtype(ty), Seq::empty());
        },
        InstructionKind::MemorySize { mem, mem_byte } => {
            lemma_first_byte(s, pos, 0x3F, spec_encode_unsigned(mem as nat));
            lemma_decode_encoded_u32(s, pos + 1, mem);
        },
        InstructionKind::MemoryGrow { mem, mem_byte } => {
            lemma_first_byte(s, pos, 0x40, spec_encode_unsigned(mem as nat));
            lemma_decode_encoded_u32(s, pos + 1, mem);
        },
        InstructionKind::I32Const { value } => {
            lemma_first_byte(s, pos, 0x41, spec_encode_signed(value as int));
            lemma_decode_encoded_i32(s, pos + 1, value);
        },
        InstructionKind::I64Const { value } => {
            lemma_first_byte(s, pos, 0x42, spec_encode_signed(value as int));
            lemma_decode_encoded_i64(s, pos + 1, value);
        },
        InstructionKind::F32Const { value } => {
            lemma_first_byte(s, pos, 0x43, spec_encode_u32_le(value));
            lemma_decode_encoded_u32_le(s, pos + 1, value);
        },
        InstructionKind::F64Const { value } => {
            lemma_first_byte(s, pos, 0x44, spec_encode_u64_le(value));
            lemma_decode_encoded_u64_le(s, pos + 1, value);
        },
        InstructionKind::RefNull { ty } => {
            lemma_valtype_byte(ty);
            assert(seq![0xD0u8, spec_byte_of_valtype(ty)] =~= seq![0xD0u8] + seq![
                spec_byte_of_valtype(ty),
            ]);
            lemma_first_byte(s, pos, 0xD0, seq![spec_byte_of_valtype(ty)]);
            lemma_first_byte(s, pos + 1, spec_byte_of_valtype(ty), Seq::empty());
        },
        InstructionKind::I32TruncSatF32S => {
            assert(seq![0xFCu8, 0x00u8] =~= seq![0xFCu8] + seq![0x00u8]);
            lemma_first_byte(s, pos, 0xFC, seq![0x00u8]);
            lemma_first_byte(s, pos + 1, 0x00, Seq::empty());
        },
        InstructionKind::I32TruncSatF32U => {
            assert(seq![0xFCu8, 0x01u8] =~= seq![0xFCu8] + seq![0x01u8]);
            lemma_first_byte(s, pos, 0xFC, seq![0x01u8]);
            lemma_first_byte(s, pos + 1, 0x01, Seq::empty());
        },
        InstructionKind::I32TruncSatF64S => {
            assert(seq![0xFCu8, 0x02u8] =~= seq![0xFCu8] + seq![0x02u8]);
            lemma_first_byte(s, pos, 0xFC, seq![0x02u8]);
            lemma_first_byte(s, pos + 1, 0x02, Seq::empty());
        },
        InstructionKind::I32TruncSatF64U => {
            assert(seq![0xFCu8, 0x03u8] =~= seq![0xFCu8] + seq![0x03u8]);
            lemma_first_byte(s, pos, 0xFC, seq![0x03u8]);
            lemma_first_byte(s, pos + 1, 0x03, Seq::empty());
        },
        InstructionKind::I64TruncSatF32S => {
            assert(seq![0xFCu8, 0x04u8] =~= seq![0xFCu8] + seq![0x04u8]);
            lemma_first_byte(s, pos, 0xFC, seq![0x04u8]);
            lemma_first_byte(s, pos + 1, 0x04, Seq::empty());
        },
        InstructionKind::I64TruncSatF32U => {
            assert(seq![0xFCu8, 0x05u8] =~= seq![0xFCu8] + seq![0x05u8]);
            lemma_first_byte(s, pos, 0xFC, seq![0x05u8]);
            lemma_first_byte(s, pos + 1, 0x05, Seq::empty());
        },
        InstructionKind::I64TruncSatF64S => {
            assert(seq![0xFCu8, 0x06u8] =~= seq![0xFCu8] + seq![0x06u8]);
            lemma_first_byte(s, pos, 0xFC, seq![0x06u8]);
            lemma_first_byte(s, pos + 1, 0x06, Seq::empty());
        },
        InstructionKind::I64TruncSatF64U => {
            assert(seq![0xFCu8, 0x07u8] =~= seq![0xFCu8] + seq![0x07u8]);
            lemma_first_byte(s, pos, 0xFC, seq![0x07u8]);
            lemma_first_byte(s, pos + 1, 0x07, Seq::empty());
        },
        InstructionKind::DataDrop { segment } => {
            let a = spec_encode_unsigned(segment as nat);
            assert(seq![0xFCu8, 0x09u8] + a =~= seq![0xFCu8] + (seq![0x09u8] + a));
            lemma_first_byte(s, pos, 0xFC, seq![0x09u8] + a);
            lemma_first_byte(s, pos + 1, 0x09, a);
            lemma_decode_encoded_u32(s, pos + 2, segment);
        },
        InstructionKind::MemoryFill { mem } => {
            let a = spec_encode_unsigned(mem as nat);
            assert(seq![0xFCu8, 0x0Bu8] + a =~= seq![0xFCu8] + (seq![0x0Bu8] + a));
            lemma_first_byte(s, pos, 0xFC, seq![0x0Bu8] + a);
            lemma_first_byte(s, pos + 1, 0x0B, a);
            lemma_decode_encoded_u32(s, pos + 2, mem);
        },
        InstructionKind::ElemDrop { segment } => {
            let a = spec_encode_unsigned(segment as nat);
            assert(seq![0xFCu8, 0x0Du8] + a =~= seq![0xFCu8] + (seq![0x0Du8] + a));
            lemma_first_byte(s, pos, 0xFC, seq![0x0Du8] + a);
            lemma_first_byte(s, pos + 1, 0x0D, a);
            lemma_decode_encoded_u32(s, pos + 2, segment);
        },
        InstructionKind::TableGrow { table } => {
            let a = spec_encode_unsigned(table as nat);
            assert(seq![0xFCu8, 0x0Fu8] + a =~= seq![0xFCu8] + (seq![0x0Fu8] + a));
            lemma_first_byte(s, pos, 0xFC, seq![0x0Fu8] + a);
            lemma_first_byte(s, pos + 1, 0x0F, a);
            lemma_decode_encoded_u32(s, pos + 2, table);
        },
        InstructionKind::TableSize { table } => {
            let a = spec_encode_unsigned(table as nat);
            assert(seq![0xFCu8, 0x10u8] + a =~= seq![0xFCu8] + (seq![0x10u8] + a));
            lemma_first_byte(s, pos, 0xFC, seq![0x10u8] + a);
            lemma_first_byte(s, pos + 1, 0x10, a);
            lemma_decode_encoded_u32(s, pos + 2, table);
        },
        InstructionKind::TableFill { table } => {
            let a = spec_encode_unsigned(table as nat);
            assert(seq![0xFCu8, 0x11u8] + a =~= seq![0xFCu8] + (seq![0x11u8] + a));
            lemma_first_byte(s, pos, 0xFC, seq![0x11u8] + a);
            lemma_first_byte(s, pos + 1, 0x11, a);
            lemma_decode_encoded_u32(s, pos + 2, table);
        },
        InstructionKind::MemoryInit { segment, mem } => {
            let a = spec_encode_unsigned(segment as nat);
            let c = spec_encode_unsigned(mem as nat);
            assert(seq![0xFCu8, 0x08u8] + a + c =~= seq![0xFCu8] + (seq![0x08u8] + (a + c)));
            lemma_first_byte(s, pos, 0xFC, seq![0x08u8] + (a + c));
            lemma_first_byte(s, pos + 1, 0x08, a + c);
            lemma_split2(s, pos + 2, a, c);
            lemma_decode_encoded_u32(s, pos + 2, segment);
            lemma_decode_encoded_u32(s, pos + 2 + a.len() as int, mem);
        },
        InstructionKind::MemoryCopy { dst, src } => {
            let a = spec_encode_unsigned(dst as nat);
            let c = spec_encode_unsigned(src as nat);
            assert(seq![0xFCu8, 0x0Au8] + a + c =~= seq![0xFCu8] + (seq![0x0Au8] + (a + c)));
            lemma_first_byte(s, pos, 0xFC, seq![0x0Au8] + (a + c));
            lemma_first_byte(s, pos + 1, 0x0A, a + c);
            lemma_split2(s, pos + 2, a, c);
            lemma_decode_encoded_u32(s, pos + 2, dst);
            lemma_decode_encoded_u32(s, pos + 2 + a.len() as int, src);
        },
        InstructionKind::TableInit { segment, table } => {
            let a = spec_encode_unsigned(segment as nat);
            let c = spec_encode_unsigned(table as nat);
            assert(seq![0xFCu8, 0x0Cu8] + a + c =~= seq![0xFCu8] + (seq![0x0Cu8] + (a + c)));
            lemma_first_byte(s, pos, 0xFC, seq![0x0Cu8] + (a + c));
            lemma_first_byte(s, pos + 1, 0x0C, a + c);
            lemma_split2(s, pos + 2, a, c);
            lemma_decode_encoded_u32(s, pos + 2, segment);
            lemma_decode_encoded_u32(s, pos + 2 + a.len() as int, table);
        },
        InstructionKind::TableCopy { dst_table, src_table } => {
            let a = spec_encode_unsigned(dst_table as nat);
            let c = spec_encode_unsigned(src_table as nat);
            assert(seq![0xFCu8, 0x0Eu8] + a + c =~= seq![0xFCu8] + (seq![0x0Eu8] + (a + c)));
            lemma_first_byte(s, pos, 0xFC, seq![0x0Eu8] + (a + c));
            lemma_first_byte(s, pos + 1, 0x0E, a + c);
            lemma_split2(s, pos + 2, a, c);
            lemma_decode_encoded_u32(s, pos + 2, dst_table);
            lemma_decode_encoded_u32(s, pos + 2 + a.len() as int, src_table);
        },
    }
}


} // verus!
