//! Streaming decoder: bytes to instructions.
//!
//! The grammar is given as specification-level functions over byte
//! sequences; each executable reader is proved to return exactly what the
//! grammar says. A failure of any piece fails the whole instruction, never
//! skipping bytes: an unknown opcode is a fatal decode error.

use vstd::prelude::*;
use crate::inst::{BlockType, BrTableData, Instruction, InstructionKind, MemArg};
use crate::leb::{
    decode_i32, decode_i64, decode_u32, lemma_signed_advances, lemma_unsigned_advances,
    spec_decode_i32, spec_decode_i64, spec_decode_signed, spec_decode_u32, spec_decode_unsigned,
};
use crate::value::ValType;

verus! {

/// The value type a single byte stands for, if any.
pub open spec fn spec_valtype_of_byte(b: u8) -> Option<ValType> {
    if b == 0x7F {
        Some(ValType::I32)
    } else if b == 0x7E {
        Some(ValType::I64)
    } else if b == 0x7D {
        Some(ValType::F32)
    } else if b == 0x7C {
        Some(ValType::F64)
    } else if b == 0x7B {
        Some(ValType::V128)
    } else if b == 0x70 {
        Some(ValType::FuncRef)
    } else if b == 0x6F {
        Some(ValType::ExternRef)
    } else {
        None
    }
}

/// The byte that stands for a value type.
pub open spec fn spec_byte_of_valtype(t: ValType) -> u8 {
    match t {
        ValType::I32 => 0x7F,
        ValType::I64 => 0x7E,
        ValType::F32 => 0x7D,
        ValType::F64 => 0x7C,
        ValType::V128 => 0x7B,
        ValType::FuncRef => 0x70,
        ValType::ExternRef => 0x6F,
    }
}

/// Reads the value type at `pos`.
pub fn read_valtype(s: &[u8], pos: usize) -> (r: Option<(ValType, usize)>)
    ensures
        match spec_valtype_of_byte_at(s@, pos as int) {
            Some((t, end)) => pos < end <= s@.len() && r == Some((t, end as usize)),
            None => r is None,
        },
{
    proof {
        vstd::slice::axiom_spec_len(s);
    }
    if pos >= s.len() {
        return None;
    }
    match valtype_of_byte_table(s[pos]) {
        Some(t) => Some((t, pos + 1)),
        None => None,
    }
}

/// The value type at `pos` and the following position.
pub open spec fn spec_valtype_of_byte_at(s: Seq<u8>, pos: int) -> Option<(ValType, int)> {
    if pos < 0 || pos >= s.len() {
        None
    } else {
        match spec_valtype_of_byte(s[pos]) {
            Some(t) => Some((t, pos + 1)),
            None => None,
        }
    }
}

/// Executable table of `spec_valtype_of_byte`.
fn valtype_of_byte_table(b: u8) -> (r: Option<ValType>)
    ensures
        r == spec_valtype_of_byte(b),
{
    if b == 0x7F {
        Some(ValType::I32)
    } else if b == 0x7E {
        Some(ValType::I64)
    } else if b == 0x7D {
        Some(ValType::F32)
    } else if b == 0x7C {
        Some(ValType::F64)
    } else if b == 0x7B {
        Some(ValType::V128)
    } else if b == 0x70 {
        Some(ValType::FuncRef)
    } else if b == 0x6F {
        Some(ValType::ExternRef)
    } else {
        None
    }
}

/// The block type at `pos`: `0x40` for empty, a value-type byte, or a
/// non-negative signed 33-bit function-type index.
pub open spec fn spec_decode_blocktype(s: Seq<u8>, pos: int) -> Option<(BlockType, int)> {
    if pos < 0 || pos >= s.len() {
        None
    } else if s[pos] == 0x40 {
        Some((BlockType::Empty, pos + 1))
    } else {
        match spec_valtype_of_byte(s[pos]) {
            Some(t) => Some((BlockType::Value(t), pos + 1)),
            None => match crate::leb::spec_decode_signed(s, pos, 5) {
                Some((v, end)) => if 0 <= v < 0x1_0000_0000 {
                    Some((BlockType::TypeIndex(v as u32), end))
                } else {
                    None
                },
                None => None,
            },
        }
    }
}

/// Reads the block type at `pos`.
pub fn read_blocktype(s: &[u8], pos: usize) -> (r: Option<(BlockType, usize)>)
    ensures
        match spec_decode_blocktype(s@, pos as int) {
            Some((t, end)) => pos < end <= s@.len() && r == Some((t, end as usize)),
            None => r is None,
        },
{
    proof {
        vstd::slice::axiom_spec_len(s);
    }
    if pos >= s.len() {
        return None;
    }
    let b = s[pos];
    if b == 0x40 {
        return Some((BlockType::Empty, pos + 1));
    }
    match valtype_of_byte_table(b) {
        Some(t) => Some((BlockType::Value(t), pos + 1)),
        None => {
            match crate::leb::decode_signed(s, pos, 5) {
                Some((v, end)) => if 0 <= v && v < 0x1_0000_0000 {
                    Some((BlockType::TypeIndex(v as u32), end))
                } else {
                    None
                },
                None => None,
            }
        },
    }
}

/// The memory immediate at `pos`: alignment hint, then constant offset.
pub open spec fn spec_decode_memarg(s: Seq<u8>, pos: int) -> Option<(MemArg, int)> {
    match spec_decode_u32(s, pos) {
        Some((align, p1)) => match spec_decode_u32(s, p1) {
            Some((offset, end)) => Some((MemArg { align, offset, memory: 0 }, end)),
            None => None,
        },
        None => None,
    }
}

/// Reads the memory immediate at `pos`.
pub fn read_memarg(s: &[u8], pos: usize) -> (r: Option<(MemArg, usize)>)
    ensures
        match spec_decode_memarg(s@, pos as int) {
            Some((m, end)) => pos < end <= s@.len() && r == Some((m, end as usize)),
            None => r is None,
        },
{
    proof {
        vstd::slice::axiom_spec_len(s);
    }
    match decode_u32(s, pos) {
        Some((align, p1)) => match decode_u32(s, p1) {
            Some((offset, end)) => Some((MemArg { align, offset, memory: 0 }, end)),
            None => None,
        },
        None => None,
    }
}

/// The little-endian 32-bit word at `pos`.
pub open spec fn spec_decode_u32_le(s: Seq<u8>, pos: int) -> Option<(u32, int)> {
    if pos < 0 || pos + 4 > s.len() {
        None
    } else {
        Some(
            (
                (s[pos] as u32) | ((s[pos + 1] as u32) << 8) | ((s[pos + 2] as u32) << 16) | (
                (s[pos + 3] as u32) << 24),
                pos + 4,
            ),
        )
    }
}

/// Reads the little-endian 32-bit word at `pos`.
pub fn read_u32_le(s: &[u8], pos: usize) -> (r: Option<(u32, usize)>)
    ensures
        match spec_decode_u32_le(s@, pos as int) {
            Some((v, end)) => pos < end <= s@.len() && r == Some((v, end as usize)),
            None => r is None,
        },
{
    if pos >= s.len() || s.len() - pos < 4 {
        return None;
    }
    Some(
        (
            (s[pos] as u32) | ((s[pos + 1] as u32) << 8) | ((s[pos + 2] as u32) << 16) | ((s[pos
                + 3] as u32) << 24),
            pos + 4,
        ),
    )
}

/// The little-endian 64-bit word at `pos`.
pub open spec fn spec_decode_u64_le(s: Seq<u8>, pos: int) -> Option<(u64, int)> {
    if pos < 0 || pos + 8 > s.len() {
        None
    } else {
        Some(
            (
                (s[pos] as u64) | ((s[pos + 1] as u64) << 8) | ((s[pos + 2] as u64) << 16) | (
                (s[pos + 3] as u64) << 24) | ((s[pos + 4] as u64) << 32) | ((s[pos + 5] as u64)
                    << 40) | ((s[pos + 6] as u64) << 48) | ((s[pos + 7] as u64) << 56),
                pos + 8,
            ),
        )
    }
}

/// Reads the little-endian 64-bit word at `pos`.
pub fn read_u64_le(s: &[u8], pos: usize) -> (r: Option<(u64, usize)>)
    ensures
        match spec_decode_u64_le(s@, pos as int) {
            Some((v, end)) => pos < end <= s@.len() && r == Some((v, end as usize)),
            None => r is None,
        },
{
    if pos >= s.len() || s.len() - pos < 8 {
        return None;
    }
    Some(
        (
            (s[pos] as u64) | ((s[pos + 1] as u64) << 8) | ((s[pos + 2] as u64) << 16) | ((s[pos
                + 3] as u64) << 24) | ((s[pos + 4] as u64) << 32) | ((s[pos + 5] as u64) << 40) | (
            (s[pos + 6] as u64) << 48) | ((s[pos + 7] as u64) << 56),
            pos + 8,
        ),
    )
}

/// `n` consecutive unsigned 32-bit numbers starting at `pos`.
pub open spec fn spec_decode_u32_seq(s: Seq<u8>, pos: int, n: nat) -> Option<(Seq<u32>, int)>
    decreases n,
{
    if n == 0 {
        Some((Seq::empty(), pos))
    } else {
        match spec_decode_u32(s, pos) {
            Some((v, p1)) => match spec_decode_u32_seq(s, p1, (n - 1) as nat) {
                Some((rest, end)) => Some((seq![v] + rest, end)),
                None => None,
            },
            None => None,
        }
    }
}

/// Reads `n` consecutive unsigned 32-bit numbers starting at `pos`.
pub fn read_u32_seq(s: &[u8], pos: usize, n: u32) -> (r: Option<(Vec<u32>, usize)>)
    ensures
        match spec_decode_u32_seq(s@, pos as int, n as nat) {
            Some((vs, end)) => pos <= end && (n > 0 ==> end <= s@.len()) && (r matches Some(p)
                && p.0@ == vs && p.1 == end),
            None => r is None,
        },
{
    proof {
        vstd::slice::axiom_spec_len(s);
    }
    let mut out: Vec<u32> = Vec::new();
    let mut cur = pos;
    let mut i: u32 = 0;
    while i < n
        invariant
            i <= n,
            pos <= cur,
            i > 0 ==> cur <= s@.len(),
            out@.len() == i as nat,
            spec_decode_u32_seq(s@, pos as int, n as nat) == match spec_decode_u32_seq(
                s@,
                cur as int,
                (n - i) as nat,
            ) {
                Some((back, end)) => Some::<(Seq<u32>, int)>((out@ + back, end)),
                None => None::<(Seq<u32>, int)>,
            },
        decreases n - i,
    {
        proof {
            vstd::slice::axiom_spec_len(s);
        }
        match decode_u32(s, cur) {
            Some((v, next)) => {
                let ghost pre = out@;
                out.push(v);
                proof {
                    let rest = spec_decode_u32_seq(s@, next as int, (n - i - 1) as nat);
                    match rest {
                        Some((back, end)) => {
                            assert(pre + (seq![v] + back) =~= out@ + back);
                        },
                        None => {},
                    }
                }
                cur = next;
                i = i + 1;
            },
            None => {
                return None;
            },
        }
    }
    proof {
        assert(out@ + Seq::<u32>::empty() =~= out@);
    }
    Some((out, cur))
}

/// The branch table at `pos`: a count, that many target depths, then the
/// default depth.
pub open spec fn spec_decode_brtable(s: Seq<u8>, pos: int) -> Option<(Seq<u32>, u32, int)> {
    match spec_decode_u32(s, pos) {
        Some((n, p1)) => match spec_decode_u32_seq(s, p1, n as nat) {
            Some((targets, p2)) => match spec_decode_u32(s, p2) {
                Some((default, end)) => Some((targets, default, end)),
                None => None,
            },
            None => None,
        },
        None => None,
    }
}

/// Reads the branch table at `pos`.
pub fn read_brtable(s: &[u8], pos: usize) -> (r: Option<(BrTableData, usize)>)
    ensures
        match spec_decode_brtable(s@, pos as int) {
            Some((targets, default, end)) => pos < end <= s@.len() && (r matches Some(p)
                && p.0.table@ == targets && p.0.default == default && p.1 == end),
            None => r is None,
        },
{
    proof {
        vstd::slice::axiom_spec_len(s);
    }
    match decode_u32(s, pos) {
        Some((n, p1)) => match read_u32_seq(s, p1, n) {
            Some((table, p2)) => match decode_u32(s, p2) {
                Some((default, end)) => Some((BrTableData { table, default }, end)),
                None => None,
            },
            None => None,
        },
        None => None,
    }
}


/// Operators of a single opcode byte and no immediate.
pub open spec fn spec_simple_kind(b: u8) -> Option<InstructionKind> {
    if b == 0x00 {
        Some(InstructionKind::Unreachable)
    } else if b == 0x01 {
        Some(InstructionKind::Nop)
    } else if b == 0x05 {
        Some(InstructionKind::Else)
    } else if b == 0x0B {
        Some(InstructionKind::End)
    } else if b == 0x0F {
        Some(InstructionKind::Return)
    } else if b == 0x19 {
        Some(InstructionKind::CatchAll)
    } else if b == 0x1A {
        Some(InstructionKind::Drop)
    } else if b == 0x1B {
        Some(InstructionKind::Select)
    } else if b == 0x45 {
        Some(InstructionKind::I32Eqz)
    } else if b == 0x46 {
        Some(InstructionKind::I32Eq)
    } else if b == 0x47 {
        Some(InstructionKind::I32Ne)
    } else if b == 0x48 {
        Some(InstructionKind::I32LtS)
    } else if b == 0x49 {
        Some(InstructionKind::I32LtU)
    } else if b == 0x4A {
        Some(InstructionKind::I32GtS)
    } else if b == 0x4B {
        Some(InstructionKind::I32GtU)
    } else if b == 0x4C {
        Some(InstructionKind::I32LeS)
    } else if b == 0x4D {
        Some(InstructionKind::I32LeU)
    } else if b == 0x4E {
        Some(InstructionKind::I32GeS)
    } else if b == 0x4F {
        Some(InstructionKind::I32GeU)
    } else if b == 0x50 {
        Some(InstructionKind::I64Eqz)
    } else if b == 0x51 {
        Some(InstructionKind::I64Eq)
    } else if b == 0x52 {
        Some(InstructionKind::I64Ne)
    } else if b == 0x53 {
        Some(InstructionKind::I64LtS)
    } else if b == 0x54 {
        Some(InstructionKind::I64LtU)
    } else if b == 0x55 {
        Some(InstructionKind::I64GtS)
    } else if b == 0x56 {
        Some(InstructionKind::I64GtU)
    } else if b == 0x57 {
        Some(InstructionKind::I64LeS)
    } else if b == 0x58 {
        Some(InstructionKind::I64LeU)
    } else if b == 0x59 {
        Some(InstructionKind::I64GeS)
    } else if b == 0x5A {
        Some(InstructionKind::I64GeU)
    } else if b == 0x5B {
        Some(InstructionKind::F32Eq)
    } else if b == 0x5C {
        Some(InstructionKind::F32Ne)
    } else if b == 0x5D {
        Some(InstructionKind::F32Lt)
    } else if b == 0x5E {
        Some(InstructionKind::F32Gt)
    } else if b == 0x5F {
        Some(InstructionKind::F32Le)
    } else if b == 0x60 {
        Some(InstructionKind::F32Ge)
    } else if b == 0x61 {
        Some(InstructionKind::F64Eq)
    } else if b == 0x62 {
        Some(InstructionKind::F64Ne)
    } else if b == 0x63 {
        Some(InstructionKind::F64Lt)
    } else if b == 0x64 {
        Some(InstructionKind::F64Gt)
    } else if b == 0x65 {
        Some(InstructionKind::F64Le)
    } else if b == 0x66 {
        Some(InstructionKind::F64Ge)
    } else if b == 0x67 {
        Some(InstructionKind::I32Clz)
    } else if b == 0x68 {
        Some(InstructionKind::I32Ctz)
    } else if b == 0x69 {
        Some(InstructionKind::I32Popcnt)
    } else if b == 0x6A {
        Some(InstructionKind::I32Add)
    } else if b == 0x6B {
        Some(InstructionKind::I32Sub)
    } else if b == 0x6C {
        Some(InstructionKind::I32Mul)
    } else if b == 0x6D {
        Some(InstructionKind::I32DivS)
    } else if b == 0x6E {
        Some(InstructionKind::I32DivU)
    } else if b == 0x6F {
        Some(InstructionKind::I32RemS)
    } else if b == 0x70 {
        Some(InstructionKind::I32RemU)
    } else if b == 0x71 {
        Some(InstructionKind::I32And)
    } else if b == 0x72 {
        Some(InstructionKind::I32Or)
    } else if b == 0x73 {
        Some(InstructionKind::I32Xor)
    } else if b == 0x74 {
        Some(InstructionKind::I32Shl)
    } else if b == 0x75 {
        Some(InstructionKind::I32ShrS)
    } else if b == 0x76 {
        Some(InstructionKind::I32ShrU)
    } else if b == 0x77 {
        Some(InstructionKind::I32Rotl)
    } else if b == 0x78 {
        Some(InstructionKind::I32Rotr)
    } else if b == 0x79 {
        Some(InstructionKind::I64Clz)
    } else if b == 0x7A {
        Some(InstructionKind::I64Ctz)
    } else if b == 0x7B {
        Some(InstructionKind::I64Popcnt)
    } else if b == 0x7C {
        Some(InstructionKind::I64Add)
    } else if b == 0x7D {
        Some(InstructionKind::I64Sub)
    } else if b == 0x7E {
        Some(InstructionKind::I64Mul)
    } else if b == 0x7F {
        Some(InstructionKind::I64DivS)
    } else if b == 0x80 {
        Some(InstructionKind::I64DivU)
    } else if b == 0x81 {
        Some(InstructionKind::I64RemS)
    } else if b == 0x82 {
        Some(InstructionKind::I64RemU)
    } else if b == 0x83 {
        Some(InstructionKind::I64And)
    } else if b == 0x84 {
        Some(InstructionKind::I64Or)
    } else if b == 0x85 {
        Some(InstructionKind::I64Xor)
    } else if b == 0x86 {
        Some(InstructionKind::I64Shl)
    } else if b == 0x87 {
        Some(InstructionKind::I64ShrS)
    } else if b == 0x88 {
        Some(InstructionKind::I64ShrU)
    } else if b == 0x89 {
        Some(InstructionKind::I64Rotl)
    } else if b == 0x8A {
        Some(InstructionKind::I64Rotr)
    } else if b == 0x8B {
        Some(InstructionKind::F32Abs)
    } else if b == 0x8C {
        Some(InstructionKind::F32Neg)
    } else if b == 0x8D {
        Some(InstructionKind::F32Ceil)
    } else if b == 0x8E {
        Some(InstructionKind::F32Floor)
    } else if b == 0x8F {
        Some(InstructionKind::F32Trunc)
    } else if b == 0x90 {
        Some(InstructionKind::F32Nearest)
    } else if b == 0x91 {
        Some(InstructionKind::F32Sqrt)
    } else if b == 0x92 {
        Some(InstructionKind::F32Add)
    } else if b == 0x93 {
        Some(InstructionKind::F32Sub)
    } else if b == 0x94 {
        Some(InstructionKind::F32Mul)
    } else if b == 0x95 {
        Some(InstructionKind::F32Div)
    } else if b == 0x96 {
        Some(InstructionKind::F32Min)
    } else if b == 0x97 {
        Some(InstructionKind::F32Max)
    } else if b == 0x98 {
        Some(InstructionKind::F32Copysign)
    } else if b == 0x99 {
        Some(InstructionKind::F64Abs)
    } else if b == 0x9A {
        Some(InstructionKind::F64Neg)
    } else if b == 0x9B {
        Some(InstructionKind::F64Ceil)
    } else if b == 0x9C {
        Some(InstructionKind::F64Floor)
    } else if b == 0x9D {
        Some(InstructionKind::F64Trunc)
    } else if b == 0x9E {
        Some(InstructionKind::F64Nearest)
    } else if b == 0x9F {
        Some(InstructionKind::F64Sqrt)
    } else if b == 0xA0 {
        Some(InstructionKind::F64Add)
    } else if b == 0xA1 {
        Some(InstructionKind::F64Sub)
    } else if b == 0xA2 {
        Some(InstructionKind::F64Mul)
    } else if b == 0xA3 {
        Some(InstructionKind::F64Div)
    } else if b == 0xA4 {
        Some(InstructionKind::F64Min)
    } else if b == 0xA5 {
        Some(InstructionKind::F64Max)
    } else if b == 0xA6 {
        Some(InstructionKind::F64Copysign)
    } else if b == 0xA7 {
        Some(InstructionKind::I32WrapI64)
    } else if b == 0xA8 {
        Some(InstructionKind::I32TruncF32S)
    } else if b == 0xA9 {
        Some(InstructionKind::I32TruncF32U)
    } else if b == 0xAA {
        Some(InstructionKind::I32TruncF64S)
    } else if b == 0xAB {
        Some(InstructionKind::I32TruncF64U)
    } else if b == 0xAC {
        Some(InstructionKind::I64ExtendI32S)
    } else if b == 0xAD {
        Some(InstructionKind::I64ExtendI32U)
    } else if b == 0xAE {
        Some(InstructionKind::I64TruncF32S)
    } else if b == 0xAF {
        Some(InstructionKind::I64TruncF32U)
    } else if b == 0xB0 {
        Some(InstructionKind::I64TruncF64S)
    } else if b == 0xB1 {
        Some(InstructionKind::I64TruncF64U)
    } else if b == 0xB2 {
        Some(InstructionKind::F32ConvertI32S)
    } else if b == 0xB3 {
        Some(InstructionKind::F32ConvertI32U)
    } else if b == 0xB4 {
        Some(InstructionKind::F32ConvertI64S)
    } else if b == 0xB5 {
        Some(InstructionKind::F32ConvertI64U)
    } else if b == 0xB6 {
        Some(InstructionKind::F32DemoteF64)
    } else if b == 0xB7 {
        Some(InstructionKind::F64ConvertI32S)
    } else if b == 0xB8 {
        Some(InstructionKind::F64ConvertI32U)
    } else if b == 0xB9 {
        Some(InstructionKind::F64ConvertI64S)
    } else if b == 0xBA {
        Some(InstructionKind::F64ConvertI64U)
    } else if b == 0xBB {
        Some(InstructionKind::F64PromoteF32)
    } else if b == 0xBC {
        Some(InstructionKind::I32ReinterpretF32)
    } else if b == 0xBD {
        Some(InstructionKind::I64ReinterpretF64)
    } else if b == 0xBE {
        Some(InstructionKind::F32ReinterpretI32)
    } else if b == 0xBF {
        Some(InstructionKind::F64ReinterpretI64)
    } else if b == 0xC0 {
        Some(InstructionKind::I32Extend8S)
    } else if b == 0xC1 {
        Some(InstructionKind::I32Extend16S)
    } else if b == 0xC2 {
        Some(InstructionKind::I64Extend8S)
    } else if b == 0xC3 {
        Some(InstructionKind::I64Extend16S)
    } else if b == 0xC4 {
        Some(InstructionKind::I64Extend32S)
    } else if b == 0xD1 {
        Some(InstructionKind::RefIsNull)
    } else {
        None
    }
}

/// Executable table of `spec_simple_kind`.
#[verifier::rlimit(50)]
pub fn simple_kind(b: u8) -> (r: Option<InstructionKind>)
    ensures
        r == spec_simple_kind(b),
{
    if b == 0x00 {
        Some(InstructionKind::Unreachable)
    } else if b == 0x01 {
        Some(InstructionKind::Nop)
    } else if b == 0x05 {
        Some(InstructionKind::Else)
    } else if b == 0x0B {
        Some(InstructionKind::End)
    } else if b == 0x0F {
        Some(InstructionKind::Return)
    } else if b == 0x19 {
        Some(InstructionKind::CatchAll)
    } else if b == 0x1A {
        Some(InstructionKind::Drop)
    } else if b == 0x1B {
        Some(InstructionKind::Select)
    } else if b == 0x45 {
        Some(InstructionKind::I32Eqz)
    } else if b == 0x46 {
        Some(InstructionKind::I32Eq)
    } else if b == 0x47 {
        Some(InstructionKind::I32Ne)
    } else if b == 0x48 {
        Some(InstructionKind::I32LtS)
    } else if b == 0x49 {
        Some(InstructionKind::I32LtU)
    } else if b == 0x4A {
        Some(InstructionKind::I32GtS)
    } else if b == 0x4B {
        Some(InstructionKind::I32GtU)
    } else if b == 0x4C {
        Some(InstructionKind::I32LeS)
    } else if b == 0x4D {
        Some(InstructionKind::I32LeU)
    } else if b == 0x4E {
        Some(InstructionKind::I32GeS)
    } else if b == 0x4F {
        Some(InstructionKind::I32GeU)
    } else if b == 0x50 {
        Some(InstructionKind::I64Eqz)
    } else if b == 0x51 {
        Some(InstructionKind::I64Eq)
    } else if b == 0x52 {
        Some(InstructionKind::I64Ne)
    } else if b == 0x53 {
        Some(InstructionKind::I64LtS)
    } else if b == 0x54 {
        Some(InstructionKind::I64LtU)
    } else if b == 0x55 {
        Some(InstructionKind::I64GtS)
    } else if b == 0x56 {
        Some(InstructionKind::I64GtU)
    } else if b == 0x57 {
        Some(InstructionKind::I64LeS)
    } else if b == 0x58 {
        Some(InstructionKind::I64LeU)
    } else if b == 0x59 {
        Some(InstructionKind::I64GeS)
    } else if b == 0x5A {
        Some(InstructionKind::I64GeU)
    } else if b == 0x5B {
        Some(InstructionKind::F32Eq)
    } else if b == 0x5C {
        Some(InstructionKind::F32Ne)
    } else if b == 0x5D {
        Some(InstructionKind::F32Lt)
    } else if b == 0x5E {
        Some(InstructionKind::F32Gt)
    } else if b == 0x5F {
        Some(InstructionKind::F32Le)
    } else if b == 0x60 {
        Some(InstructionKind::F32Ge)
    } else if b == 0x61 {
        Some(InstructionKind::F64Eq)
    } else if b == 0x62 {
        Some(InstructionKind::F64Ne)
    } else if b == 0x63 {
        Some(InstructionKind::F64Lt)
    } else if b == 0x64 {
        Some(InstructionKind::F64Gt)
    } else if b == 0x65 {
        Some(InstructionKind::F64Le)
    } else if b == 0x66 {
        Some(InstructionKind::F64Ge)
    } else if b == 0x67 {
        Some(InstructionKind::I32Clz)
    } else if b == 0x68 {
        Some(InstructionKind::I32Ctz)
    } else if b == 0x69 {
        Some(InstructionKind::I32Popcnt)
    } else if b == 0x6A {
        Some(InstructionKind::I32Add)
    } else if b == 0x6B {
        Some(InstructionKind::I32Sub)
    } else if b == 0x6C {
        Some(InstructionKind::I32Mul)
    } else if b == 0x6D {
        Some(InstructionKind::I32DivS)
    } else if b == 0x6E {
        Some(InstructionKind::I32DivU)
    } else if b == 0x6F {
        Some(InstructionKind::I32RemS)
    } else if b == 0x70 {
        Some(InstructionKind::I32RemU)
    } else if b == 0x71 {
        Some(InstructionKind::I32And)
    } else if b == 0x72 {
        Some(InstructionKind::I32Or)
    } else if b == 0x73 {
        Some(InstructionKind::I32Xor)
    } else if b == 0x74 {
        Some(InstructionKind::I32Shl)
    } else if b == 0x75 {
        Some(InstructionKind::I32ShrS)
    } else if b == 0x76 {
        Some(InstructionKind::I32ShrU)
    } else if b == 0x77 {
        Some(InstructionKind::I32Rotl)
    } else if b == 0x78 {
        Some(InstructionKind::I32Rotr)
    } else if b == 0x79 {
        Some(InstructionKind::I64Clz)
    } else if b == 0x7A {
        Some(InstructionKind::I64Ctz)
    } else if b == 0x7B {
        Some(InstructionKind::I64Popcnt)
    } else if b == 0x7C {
        Some(InstructionKind::I64Add)
    } else if b == 0x7D {
        Some(InstructionKind::I64Sub)
    } else if b == 0x7E {
        Some(InstructionKind::I64Mul)
    } else if b == 0x7F {
        Some(InstructionKind::I64DivS)
    } else if b == 0x80 {
        Some(InstructionKind::I64DivU)
    } else if b == 0x81 {
        Some(InstructionKind::I64RemS)
    } else if b == 0x82 {
        Some(InstructionKind::I64RemU)
    } else if b == 0x83 {
        Some(InstructionKind::I64And)
    } else if b == 0x84 {
        Some(InstructionKind::I64Or)
    } else if b == 0x85 {
        Some(InstructionKind::I64Xor)
    } else if b == 0x86 {
        Some(InstructionKind::I64Shl)
    } else if b == 0x87 {
        Some(InstructionKind::I64ShrS)
    } else if b == 0x88 {
        Some(InstructionKind::I64ShrU)
    } else if b == 0x89 {
        Some(InstructionKind::I64Rotl)
    } else if b == 0x8A {
        Some(InstructionKind::I64Rotr)
    } else if b == 0x8B {
        Some(InstructionKind::F32Abs)
    } else if b == 0x8C {
        Some(InstructionKind::F32Neg)
    } else if b == 0x8D {
        Some(InstructionKind::F32Ceil)
    } else if b == 0x8E {
        Some(InstructionKind::F32Floor)
    } else if b == 0x8F {
        Some(InstructionKind::F32Trunc)
    } else if b == 0x90 {
        Some(InstructionKind::F32Nearest)
    } else if b == 0x91 {
        Some(InstructionKind::F32Sqrt)
    } else if b == 0x92 {
        Some(InstructionKind::F32Add)
    } else if b == 0x93 {
        Some(InstructionKind::F32Sub)
    } else if b == 0x94 {
        Some(InstructionKind::F32Mul)
    } else if b == 0x95 {
        Some(InstructionKind::F32Div)
    } else if b == 0x96 {
        Some(InstructionKind::F32Min)
    } else if b == 0x97 {
        Some(InstructionKind::F32Max)
    } else if b == 0x98 {
        Some(InstructionKind::F32Copysign)
    } else if b == 0x99 {
        Some(InstructionKind::F64Abs)
    } else if b == 0x9A {
        Some(InstructionKind::F64Neg)
    } else if b == 0x9B {
        Some(InstructionKind::F64Ceil)
    } else if b == 0x9C {
        Some(InstructionKind::F64Floor)
    } else if b == 0x9D {
        Some(InstructionKind::F64Trunc)
    } else if b == 0x9E {
        Some(InstructionKind::F64Nearest)
    } else if b == 0x9F {
        Some(InstructionKind::F64Sqrt)
    } else if b == 0xA0 {
        Some(InstructionKind::F64Add)
    } else if b == 0xA1 {
        Some(InstructionKind::F64Sub)
    } else if b == 0xA2 {
        Some(InstructionKind::F64Mul)
    } else if b == 0xA3 {
        Some(InstructionKind::F64Div)
    } else if b == 0xA4 {
        Some(InstructionKind::F64Min)
    } else if b == 0xA5 {
        Some(InstructionKind::F64Max)
    } else if b == 0xA6 {
        Some(InstructionKind::F64Copysign)
    } else if b == 0xA7 {
        Some(InstructionKind::I32WrapI64)
    } else if b == 0xA8 {
        Some(InstructionKind::I32TruncF32S)
    } else if b == 0xA9 {
        Some(InstructionKind::I32TruncF32U)
    } else if b == 0xAA {
        Some(InstructionKind::I32TruncF64S)
    } else if b == 0xAB {
        Some(InstructionKind::I32TruncF64U)
    } else if b == 0xAC {
        Some(InstructionKind::I64ExtendI32S)
    } else if b == 0xAD {
        Some(InstructionKind::I64ExtendI32U)
    } else if b == 0xAE {
        Some(InstructionKind::I64TruncF32S)
    } else if b == 0xAF {
        Some(InstructionKind::I64TruncF32U)
    } else if b == 0xB0 {
        Some(InstructionKind::I64TruncF64S)
    } else if b == 0xB1 {
        Some(InstructionKind::I64TruncF64U)
    } else if b == 0xB2 {
        Some(InstructionKind::F32ConvertI32S)
    } else if b == 0xB3 {
        Some(InstructionKind::F32ConvertI32U)
    } else if b == 0xB4 {
        Some(InstructionKind::F32ConvertI64S)
    } else if b == 0xB5 {
        Some(InstructionKind::F32ConvertI64U)
    } else if b == 0xB6 {
        Some(InstructionKind::F32DemoteF64)
    } else if b == 0xB7 {
        Some(InstructionKind::F64ConvertI32S)
    } else if b == 0xB8 {
        Some(InstructionKind::F64ConvertI32U)
    } else if b == 0xB9 {
        Some(InstructionKind::F64ConvertI64S)
    } else if b == 0xBA {
        Some(InstructionKind::F64ConvertI64U)
    } else if b == 0xBB {
        Some(InstructionKind::F64PromoteF32)
    } else if b == 0xBC {
        Some(InstructionKind::I32ReinterpretF32)
    } else if b == 0xBD {
        Some(InstructionKind::I64ReinterpretF64)
    } else if b == 0xBE {
        Some(InstructionKind::F32ReinterpretI32)
    } else if b == 0xBF {
        Some(InstructionKind::F64ReinterpretI64)
    } else if b == 0xC0 {
        Some(InstructionKind::I32Extend8S)
    } else if b == 0xC1 {
        Some(InstructionKind::I32Extend16S)
    } else if b == 0xC2 {
        Some(InstructionKind::I64Extend8S)
    } else if b == 0xC3 {
        Some(InstructionKind::I64Extend16S)
    } else if b == 0xC4 {
        Some(InstructionKind::I64Extend32S)
    } else if b == 0xD1 {
        Some(InstructionKind::RefIsNull)
    } else {
        None
    }
}


/// The memory-access operator a byte in the load/store range stands for.
pub open spec fn spec_memarg_kind(b: u8, m: MemArg) -> Option<InstructionKind> {
    if b == 0x28 {
        Some(InstructionKind::I32Load { memarg: m })
    } else if b == 0x29 {
        Some(InstructionKind::I64Load { memarg: m })
    } else if b == 0x2A {
        Some(InstructionKind::F32Load { memarg: m })
    } else if b == 0x2B {
        Some(InstructionKind::F64Load { memarg: m })
    } else if b == 0x2C {
        Some(InstructionKind::I32Load8S { memarg: m })
    } else if b == 0x2D {
        Some(InstructionKind::I32Load8U { memarg: m })
    } else if b == 0x2E {
        Some(InstructionKind::I32Load16S { memarg: m })
    } else if b == 0x2F {
        Some(InstructionKind::I32Load16U { memarg: m })
    } else if b == 0x30 {
        Some(InstructionKind::I64Load8S { memarg: m })
    } else if b == 0x31 {
        Some(InstructionKind::I64Load8U { memarg: m })
    } else if b == 0x32 {
        Some(InstructionKind::I64Load16S { memarg: m })
    } else if b == 0x33 {
        Some(InstructionKind::I64Load16U { memarg: m })
    } else if b == 0x34 {
        Some(InstructionKind::I64Load32S { memarg: m })
    } else if b == 0x35 {
        Some(InstructionKind::I64Load32U { memarg: m })
    } else if b == 0x36 {
        Some(InstructionKind::I32Store { memarg: m })
    } else if b == 0x37 {
        Some(InstructionKind::I64Store { memarg: m })
    } else if b == 0x38 {
        Some(InstructionKind::F32Store { memarg: m })
    } else if b == 0x39 {
        Some(InstructionKind::F64Store { memarg: m })
    } else if b == 0x3A {
        Some(InstructionKind::I32Store8 { memarg: m })
    } else if b == 0x3B {
        Some(InstructionKind::I32Store16 { memarg: m })
    } else if b == 0x3C {
        Some(InstructionKind::I64Store8 { memarg: m })
    } else if b == 0x3D {
        Some(InstructionKind::I64Store16 { memarg: m })
    } else if b == 0x3E {
        Some(InstructionKind::I64Store32 { memarg: m })
    } else {
        None
    }
}

/// Executable table of `spec_memarg_kind`.
pub fn memarg_kind(b: u8, m: MemArg) -> (r: Option<InstructionKind>)
    ensures
        r == spec_memarg_kind(b, m),
{
    if b == 0x28 {
        Some(InstructionKind::I32Load { memarg: m })
    } else if b == 0x29 {
        Some(InstructionKind::I64Load { memarg: m })
    } else if b == 0x2A {
        Some(InstructionKind::F32Load { memarg: m })
    } else if b == 0x2B {
        Some(InstructionKind::F64Load { memarg: m })
    } else if b == 0x2C {
        Some(InstructionKind::I32Load8S { memarg: m })
    } else if b == 0x2D {
        Some(InstructionKind::I32Load8U { memarg: m })
    } else if b == 0x2E {
        Some(InstructionKind::I32Load16S { memarg: m })
    } else if b == 0x2F {
        Some(InstructionKind::I32Load16U { memarg: m })
    } else if b == 0x30 {
        Some(InstructionKind::I64Load8S { memarg: m })
    } else if b == 0x31 {
        Some(InstructionKind::I64Load8U { memarg: m })
    } else if b == 0x32 {
        Some(InstructionKind::I64Load16S { memarg: m })
    } else if b == 0x33 {
        Some(InstructionKind::I64Load16U { memarg: m })
    } else if b == 0x34 {
        Some(InstructionKind::I64Load32S { memarg: m })
    } else if b == 0x35 {
        Some(InstructionKind::I64Load32U { memarg: m })
    } else if b == 0x36 {
        Some(InstructionKind::I32Store { memarg: m })
    } else if b == 0x37 {
        Some(InstructionKind::I64Store { memarg: m })
    } else if b == 0x38 {
        Some(InstructionKind::F32Store { memarg: m })
    } else if b == 0x39 {
        Some(InstructionKind::F64Store { memarg: m })
    } else if b == 0x3A {
        Some(InstructionKind::I32Store8 { memarg: m })
    } else if b == 0x3B {
        Some(InstructionKind::I32Store16 { memarg: m })
    } else if b == 0x3C {
        Some(InstructionKind::I64Store8 { memarg: m })
    } else if b == 0x3D {
        Some(InstructionKind::I64Store16 { memarg: m })
    } else if b == 0x3E {
        Some(InstructionKind::I64Store32 { memarg: m })
    } else {
        None
    }
}


/// The 0xFC-prefixed operator whose sub-opcode starts at `p`.
pub open spec fn spec_decode_fc(s: Seq<u8>, p: int) -> Option<(InstructionKind, int)> {
    match spec_decode_u32(s, p) {
        Some((sub, q)) => if sub == 0 {
            Some((InstructionKind::I32TruncSatF32S, q))
        } else if sub == 1 {
            Some((InstructionKind::I32TruncSatF32U, q))
        } else if sub == 2 {
            Some((InstructionKind::I32TruncSatF64S, q))
        } else if sub == 3 {
            Some((InstructionKind::I32TruncSatF64U, q))
        } else if sub == 4 {
            Some((InstructionKind::I64TruncSatF32S, q))
        } else if sub == 5 {
            Some((InstructionKind::I64TruncSatF32U, q))
        } else if sub == 6 {
            Some((InstructionKind::I64TruncSatF64S, q))
        } else if sub == 7 {
            Some((InstructionKind::I64TruncSatF64U, q))
        } else if sub == 8 {
            match spec_decode_u32(s, q) {
                Some((segment, q1)) => match spec_decode_u32(s, q1) {
                    Some((mem, end)) => Some((InstructionKind::MemoryInit { segment, mem }, end)),
                    None => None,
                },
                None => None,
            }
        } else if sub == 9 {
            match spec_decode_u32(s, q) {
                Some((segment, end)) => Some((InstructionKind::DataDrop { segment }, end)),
                None => None,
            }
        } else if sub == 10 {
            match spec_decode_u32(s, q) {
                Some((dst, q1)) => match spec_decode_u32(s, q1) {
                    Some((src, end)) => Some((InstructionKind::MemoryCopy { src, dst }, end)),
                    None => None,
                },
                None => None,
            }
        } else if sub == 11 {
            match spec_decode_u32(s, q) {
                Some((mem, end)) => Some((InstructionKind::MemoryFill { mem }, end)),
                None => None,
            }
        } else if sub == 12 {
            match spec_decode_u32(s, q) {
                Some((segment, q1)) => match spec_decode_u32(s, q1) {
                    Some((table, end)) => Some((InstructionKind::TableInit { segment, table }, end)),
                    None => None,
                },
                None => None,
            }
        } else if sub == 13 {
            match spec_decode_u32(s, q) {
                Some((segment, end)) => Some((InstructionKind::ElemDrop { segment }, end)),
                None => None,
            }
        } else if sub == 14 {
            match spec_decode_u32(s, q) {
                Some((dst_table, q1)) => match spec_decode_u32(s, q1) {
                    Some((src_table, end)) => Some(
                        (InstructionKind::TableCopy { dst_table, src_table }, end),
                    ),
                    None => None,
                },
                None => None,
            }
        } else if sub == 15 {
            match spec_decode_u32(s, q) {
                Some((table, end)) => Some((InstructionKind::TableGrow { table }, end)),
                None => None,
            }
        } else if sub == 16 {
            match spec_decode_u32(s, q) {
                Some((table, end)) => Some((InstructionKind::TableSize { table }, end)),
                None => None,
            }
        } else if sub == 17 {
            match spec_decode_u32(s, q) {
                Some((table, end)) => Some((InstructionKind::TableFill { table }, end)),
                None => None,
            }
        } else {
            None
        },
        None => None,
    }
}

/// Reads the 0xFC-prefixed operator whose sub-opcode starts at `p`.
#[verifier::rlimit(50)]
fn read_fc(s: &[u8], p: usize) -> (r: Option<(InstructionKind, usize)>)
    ensures
        match spec_decode_fc(s@, p as int) {
            Some((k, end)) => p < end <= s@.len() && r == Some((k, end as usize)),
            None => r is None,
        },
{
    proof {
        vstd::slice::axiom_spec_len(s);
    }
    match decode_u32(s, p) {
        Some((sub, q)) => if sub == 0 {
            Some((InstructionKind::I32TruncSatF32S, q))
        } else if sub == 1 {
            Some((InstructionKind::I32TruncSatF32U, q))
        } else if sub == 2 {
            Some((InstructionKind::I32TruncSatF64S, q))
        } else if sub == 3 {
            Some((InstructionKind::I32TruncSatF64U, q))
        } else if sub == 4 {
            Some((InstructionKind::I64TruncSatF32S, q))
        } else if sub == 5 {
            Some((InstructionKind::I64TruncSatF32U, q))
        } else if sub == 6 {
            Some((InstructionKind::I64TruncSatF64S, q))
        } else if sub == 7 {
            Some((InstructionKind::I64TruncSatF64U, q))
        } else if sub == 8 {
            match decode_u32(s, q) {
                Some((segment, q1)) => match decode_u32(s, q1) {
                    Some((mem, end)) => Some((InstructionKind::MemoryInit { segment, mem }, end)),
                    None => None,
                },
                None => None,
            }
        } else if sub == 9 {
            match decode_u32(s, q) {
                Some((segment, end)) => Some((InstructionKind::DataDrop { segment }, end)),
                None => None,
            }
        } else if sub == 10 {
            match decode_u32(s, q) {
                Some((dst, q1)) => match decode_u32(s, q1) {
                    Some((src, end)) => Some((InstructionKind::MemoryCopy { src, dst }, end)),
                    None => None,
                },
                None => None,
            }
        } else if sub == 11 {
            match decode_u32(s, q) {
                Some((mem, end)) => Some((InstructionKind::MemoryFill { mem }, end)),
                None => None,
            }
        } else if sub == 12 {
            match decode_u32(s, q) {
                Some((segment, q1)) => match decode_u32(s, q1) {
                    Some((table, end)) => Some((InstructionKind::TableInit { segment, table }, end)),
                    None => None,
                },
                None => None,
            }
        } else if sub == 13 {
            match decode_u32(s, q) {
                Some((segment, end)) => Some((InstructionKind::ElemDrop { segment }, end)),
                None => None,
            }
        } else if sub == 14 {
            match decode_u32(s, q) {
                Some((dst_table, q1)) => match decode_u32(s, q1) {
                    Some((src_table, end)) => Some(
                        (InstructionKind::TableCopy { dst_table, src_table }, end),
                    ),
                    None => None,
                },
                None => None,
            }
        } else if sub == 15 {
            match decode_u32(s, q) {
                Some((table, end)) => Some((InstructionKind::TableGrow { table }, end)),
                None => None,
            }
        } else if sub == 16 {
            match decode_u32(s, q) {
                Some((table, end)) => Some((InstructionKind::TableSize { table }, end)),
                None => None,
            }
        } else if sub == 17 {
            match decode_u32(s, q) {
                Some((table, end)) => Some((InstructionKind::TableFill { table }, end)),
                None => None,
            }
        } else {
            None
        },
        None => None,
    }
}




/// The operator at `pos` together with the position just after it. The
/// authoritative statement of the binary grammar of one instruction.
pub open spec fn spec_decode_kind(s: Seq<u8>, pos: int) -> Option<(DecodedKind, int)> {
    if pos < 0 || pos >= s.len() {
        None
    } else {
        let b = s[pos];
        let p = pos + 1;
        match spec_simple_kind(b) {
            Some(k) => Some((DecodedKind::Plain(k), p)),
            None => if b == 0x02 {
                match spec_decode_blocktype(s, p) {
                    Some((ty, end)) => Some((DecodedKind::Plain(InstructionKind::Block { ty }), end)),
                    None => None,
                }
            } else if b == 0x03 {
                match spec_decode_blocktype(s, p) {
                    Some((ty, end)) => Some((DecodedKind::Plain(InstructionKind::Loop { ty }), end)),
                    None => None,
                }
            } else if b == 0x04 {
                match spec_decode_blocktype(s, p) {
                    Some((ty, end)) => Some((DecodedKind::Plain(InstructionKind::If { ty }), end)),
                    None => None,
                }
            } else if b == 0x06 {
                match spec_decode_blocktype(s, p) {
                    Some((ty, end)) => Some((DecodedKind::Plain(InstructionKind::Try { ty }), end)),
                    None => None,
                }
            } else if b == 0x07 {
                match spec_decode_u32(s, p) {
                    Some((index, end)) => Some((DecodedKind::Plain(InstructionKind::Catch { index }), end)),
                    None => None,
                }
            } else if b == 0x08 {
                match spec_decode_u32(s, p) {
                    Some((index, end)) => Some((DecodedKind::Plain(InstructionKind::Throw { index }), end)),
                    None => None,
                }
            } else if b == 0x09 {
                match spec_decode_u32(s, p) {
                    Some((relative_depth, end)) => Some(
                        (DecodedKind::Plain(InstructionKind::Rethrow { relative_depth }), end),
                    ),
                    None => None,
                }
            } else if b == 0x0C {
                match spec_decode_u32(s, p) {
                    Some((relative_depth, end)) => Some(
                        (DecodedKind::Plain(InstructionKind::Br { relative_depth }), end),
                    ),
                    None => None,
                }
            } else if b == 0x0D {
                match spec_decode_u32(s, p) {
                    Some((relative_depth, end)) => Some(
                        (DecodedKind::Plain(InstructionKind::BrIf { relative_depth }), end),
                    ),
                    None => None,
                }
            } else if b == 0x0E {
                match spec_decode_brtable(s, p) {
                    Some((targets, default, end)) => Some(
                        (DecodedKind::Branches(targets, default), end),
                    ),
                    None => None,
                }
            } else if b == 0x10 {
                match spec_decode_u32(s, p) {
                    Some((function_index, end)) => Some(
                        (DecodedKind::Plain(InstructionKind::Call { function_index }), end),
                    ),
                    None => None,
                }
            } else if b == 0x11 {
                match spec_decode_u32(s, p) {
                    Some((index, p1)) => match spec_decode_u32(s, p1) {
                        Some((table_index, end)) => Some(
                            (DecodedKind::Plain(InstructionKind::CallIndirect { index, table_index }), end),
                        ),
                        None => None,
                    },
                    None => None,
                }
            } else if b == 0x12 {
                match spec_decode_u32(s, p) {
                    Some((function_index, end)) => Some(
                        (DecodedKind::Plain(InstructionKind::ReturnCall { function_index }), end),
                    ),
                    None => None,
                }
            } else if b == 0x13 {
                match spec_decode_u32(s, p) {
                    Some((index, p1)) => match spec_decode_u32(s, p1) {
                        Some((table_index, end)) => Some(
                            (DecodedKind::Plain(InstructionKind::ReturnCallIndirect { index, table_index }), end),
                        ),
                        None => None,
                    },
                    None => None,
                }
            } else if b == 0x18 {
                match spec_decode_u32(s, p) {
                    Some((relative_depth, end)) => Some(
                        (DecodedKind::Plain(InstructionKind::Delegate { relative_depth }), end),
                    ),
                    None => None,
                }
            } else if b == 0x1C {
                match spec_decode_u32(s, p) {
                    Some((count, p1)) => if count == 1 {
                        match spec_valtype_of_byte_at(s, p1) {
                            Some((ty, end)) => Some((DecodedKind::Plain(InstructionKind::TypedSelect { ty }), end)),
                            None => None,
                        }
                    } else {
                        None
                    },
                    None => None,
                }
            } else if b == 0x20 {
                match spec_decode_u32(s, p) {
                    Some((local_index, end)) => Some(
                        (DecodedKind::Plain(InstructionKind::LocalGet { local_index }), end),
                    ),
                    None => None,
                }
            } else if b == 0x21 {
                match spec_decode_u32(s, p) {
                    Some((local_index, end)) => Some(
                        (DecodedKind::Plain(InstructionKind::LocalSet { local_index }), end),
                    ),
                    None => None,
                }
            } else if b == 0x22 {
                match spec_decode_u32(s, p) {
                    Some((local_index, end)) => Some(
                        (DecodedKind::Plain(InstructionKind::LocalTee { local_index }), end),
                    ),
                    None => None,
                }
            } else if b == 0x23 {
                match spec_decode_u32(s, p) {
                    Some((global_index, end)) => Some(
                        (DecodedKind::Plain(InstructionKind::GlobalGet { global_index }), end),
                    ),
                    None => None,
                }
            } else if b == 0x24 {
                match spec_decode_u32(s, p) {
                    Some((global_index, end)) => Some(
                        (DecodedKind::Plain(InstructionKind::GlobalSet { global_index }), end),
                    ),
                    None => None,
                }
            } else if b == 0x25 {
                match spec_decode_u32(s, p) {
                    Some((table, end)) => Some((DecodedKind::Plain(InstructionKind::TableGet { table }), end)),
                    None => None,
                }
            } else if b == 0x26 {
                match spec_decode_u32(s, p) {
                    Some((table, end)) => Some((DecodedKind::Plain(InstructionKind::TableSet { table }), end)),
                    None => None,
                }
            } else if 0x28 <= b && b <= 0x3E {
                match spec_decode_memarg(s, p) {
                    Some((m, end)) => match spec_memarg_kind(b, m) {
                        Some(k) => Some((DecodedKind::Plain(k), end)),
                        None => None,
                    },
                    None => None,
                }
            } else if b == 0x3F {
                match spec_decode_u32(s, p) {
                    Some((mem, end)) => Some(
                        (DecodedKind::Plain(InstructionKind::MemorySize { mem, mem_byte: mem as u8 }), end),
                    ),
                    None => None,
                }
            } else if b == 0x40 {
                match spec_decode_u32(s, p) {
                    Some((mem, end)) => Some(
                        (DecodedKind::Plain(InstructionKind::MemoryGrow { mem, mem_byte: mem as u8 }), end),
                    ),
                    None => None,
                }
            } else if b == 0x41 {
                match spec_decode_i32(s, p) {
                    Some((value, end)) => Some((DecodedKind::Plain(InstructionKind::I32Const { value }), end)),
                    None => None,
                }
            } else if b == 0x42 {
                match spec_decode_i64(s, p) {
                    Some((value, end)) => Some((DecodedKind::Plain(InstructionKind::I64Const { value }), end)),
                    None => None,
                }
            } else if b == 0x43 {
                match spec_decode_u32_le(s, p) {
                    Some((value, end)) => Some((DecodedKind::Plain(InstructionKind::F32Const { value }), end)),
                    None => None,
                }
            } else if b == 0x44 {
                match spec_decode_u64_le(s, p) {
                    Some((value, end)) => Some((DecodedKind::Plain(InstructionKind::F64Const { value }), end)),
                    None => None,
                }
            } else if b == 0xD0 {
                match spec_valtype_of_byte_at(s, p) {
                    Some((ty, end)) => if ty == ValType::FuncRef || ty == ValType::ExternRef {
                        Some((DecodedKind::Plain(InstructionKind::RefNull { ty }), end))
                    } else {
                        None
                    },
                    None => None,
                }
            } else if b == 0xD2 {
                match spec_decode_u32(s, p) {
                    Some((function_index, end)) => Some(
                        (DecodedKind::Plain(InstructionKind::RefFunc { function_index }), end),
                    ),
                    None => None,
                }
            } else if b == 0xFC {
                match spec_decode_fc(s, p) {
                    Some((k, end)) => Some((DecodedKind::Plain(k), end)),
                    None => None,
                }
            } else {
                None
            },
        }
    }
}




/// Reads the operator at `pos`.
#[verifier::rlimit(100)]
pub fn read_kind(s: &[u8], pos: usize) -> (r: Option<(InstructionKind, usize)>)
    ensures
        match spec_decode_kind(s@, pos as int) {
            Some((dk, end)) => pos < end <= s@.len() && (r matches Some(p) && kind_matches_decoded(
                p.0,
                dk,
            ) && p.1 == end),
            None => r is None,
        },
{
    proof {
        vstd::slice::axiom_spec_len(s);
    }
    if pos >= s.len() {
        return None;
    }
    let b = s[pos];
    let p = pos + 1;
    match simple_kind(b) {
        Some(k) => Some((k, p)),
        None => if b == 0x02 {
            match read_blocktype(s, p) {
                Some((ty, end)) => Some((InstructionKind::Block { ty }, end)),
                None => None,
            }
        } else if b == 0x03 {
            match read_blocktype(s, p) {
                Some((ty, end)) => Some((InstructionKind::Loop { ty }, end)),
                None => None,
            }
        } else if b == 0x04 {
            match read_blocktype(s, p) {
                Some((ty, end)) => Some((InstructionKind::If { ty }, end)),
                None => None,
            }
        } else if b == 0x06 {
            match read_blocktype(s, p) {
                Some((ty, end)) => Some((InstructionKind::Try { ty }, end)),
                None => None,
            }
        } else if b == 0x07 {
            match decode_u32(s, p) {
                Some((index, end)) => Some((InstructionKind::Catch { index }, end)),
                None => None,
            }
        } else if b == 0x08 {
            match decode_u32(s, p) {
                Some((index, end)) => Some((InstructionKind::Throw { index }, end)),
                None => None,
            }
        } else if b == 0x09 {
            match decode_u32(s, p) {
                Some((relative_depth, end)) => Some(
                    (InstructionKind::Rethrow { relative_depth }, end),
                ),
                None => None,
            }
        } else if b == 0x0C {
            match decode_u32(s, p) {
                Some((relative_depth, end)) => Some((InstructionKind::Br { relative_depth }, end)),
                None => None,
            }
        } else if b == 0x0D {
            match decode_u32(s, p) {
                Some((relative_depth, end)) => Some(
                    (InstructionKind::BrIf { relative_depth }, end),
                ),
                None => None,
            }
        } else if b == 0x0E {
            match read_brtable(s, p) {
                Some((table, end)) => Some((InstructionKind::BrTable { table }, end)),
                None => None,
            }
        } else if b == 0x10 {
            match decode_u32(s, p) {
                Some((function_index, end)) => Some(
                    (InstructionKind::Call { function_index }, end),
                ),
                None => None,
            }
        } else if b == 0x11 {
            match decode_u32(s, p) {
                Some((index, p1)) => match decode_u32(s, p1) {
                    Some((table_index, end)) => Some(
                        (InstructionKind::CallIndirect { index, table_index }, end),
                    ),
                    None => None,
                },
                None => None,
            }
        } else if b == 0x12 {
            match decode_u32(s, p) {
                Some((function_index, end)) => Some(
                    (InstructionKind::ReturnCall { function_index }, end),
                ),
                None => None,
            }
        } else if b == 0x13 {
            match decode_u32(s, p) {
                Some((index, p1)) => match decode_u32(s, p1) {
                    Some((table_index, end)) => Some(
                        (InstructionKind::ReturnCallIndirect { index, table_index }, end),
                    ),
                    None => None,
                },
                None => None,
            }
        } else if b == 0x18 {
            match decode_u32(s, p) {
                Some((relative_depth, end)) => Some(
                    (InstructionKind::Delegate { relative_depth }, end),
                ),
                None => None,
            }
        } else if b == 0x1C {
            match decode_u32(s, p) {
                Some((count, p1)) => if count == 1 {
                    match read_valtype(s, p1) {
                        Some((ty, end)) => Some((InstructionKind::TypedSelect { ty }, end)),
                        None => None,
                    }
                } else {
                    None
                },
                None => None,
            }
        } else if b == 0x20 {
            match decode_u32(s, p) {
                Some((local_index, end)) => Some((InstructionKind::LocalGet { local_index }, end)),
                None => None,
            }
        } else if b == 0x21 {
            match decode_u32(s, p) {
                Some((local_index, end)) => Some((InstructionKind::LocalSet { local_index }, end)),
                None => None,
            }
        } else if b == 0x22 {
            match decode_u32(s, p) {
                Some((local_index, end)) => Some((InstructionKind::LocalTee { local_index }, end)),
                None => None,
            }
        } else if b == 0x23 {
            match decode_u32(s, p) {
                Some((global_index, end)) => Some(
                    (InstructionKind::GlobalGet { global_index }, end),
                ),
                None => None,
            }
        } else if b == 0x24 {
            match decode_u32(s, p) {
                Some((global_index, end)) => Some(
                    (InstructionKind::GlobalSet { global_index }, end),
                ),
                None => None,
            }
        } else if b == 0x25 {
            match decode_u32(s, p) {
                Some((table, end)) => Some((InstructionKind::TableGet { table }, end)),
                None => None,
            }
        } else if b == 0x26 {
            match decode_u32(s, p) {
                Some((table, end)) => Some((InstructionKind::TableSet { table }, end)),
                None => None,
            }
        } else if 0x28 <= b && b <= 0x3E {
            match read_memarg(s, p) {
                Some((m, end)) => match memarg_kind(b, m) {
                    Some(k) => Some((k, end)),
                    None => None,
                },
                None => None,
            }
        } else if b == 0x3F {
            match decode_u32(s, p) {
                Some((mem, end)) => Some(
                    (InstructionKind::MemorySize { mem, mem_byte: mem as u8 }, end),
                ),
                None => None,
            }
        } else if b == 0x40 {
            match decode_u32(s, p) {
                Some((mem, end)) => Some(
                    (InstructionKind::MemoryGrow { mem, mem_byte: mem as u8 }, end),
                ),
                None => None,
            }
        } else if b == 0x41 {
            match decode_i32(s, p) {
                Some((value, end)) => Some((InstructionKind::I32Const { value }, end)),
                None => None,
            }
        } else if b == 0x42 {
            match decode_i64(s, p) {
                Some((value, end)) => Some((InstructionKind::I64Const { value }, end)),
                None => None,
            }
        } else if b == 0x43 {
            match read_u32_le(s, p) {
                Some((value, end)) => Some((InstructionKind::F32Const { value }, end)),
                None => None,
            }
        } else if b == 0x44 {
            match read_u64_le(s, p) {
                Some((value, end)) => Some((InstructionKind::F64Const { value }, end)),
                None => None,
            }
        } else if b == 0xD0 {
            match read_valtype(s, p) {
                Some((ty, end)) => if ty == ValType::FuncRef || ty == ValType::ExternRef {
                    Some((InstructionKind::RefNull { ty }, end))
                } else {
                    None
                },
                None => None,
            }
        } else if b == 0xD2 {
            match decode_u32(s, p) {
                Some((function_index, end)) => Some(
                    (InstructionKind::RefFunc { function_index }, end),
                ),
                None => None,
            }
        } else if b == 0xFC {
            read_fc(s, p)
        } else {
            None
        },
    }
}



/// What the grammar yields for one operator: a complete kind, or the parts
/// of a branch table (whose executable form holds a `Vec` that
/// specification code cannot build).
pub enum DecodedKind {
    Plain(InstructionKind),
    Branches(Seq<u32>, u32),
}

/// Whether the executable kind `k` carries exactly what the grammar
/// yielded.
pub open spec fn kind_matches_decoded(k: InstructionKind, dk: DecodedKind) -> bool {
    match dk {
        DecodedKind::Plain(k2) => k == k2,
        DecodedKind::Branches(ts, d) => k matches InstructionKind::BrTable { table }
            && table.table@ == ts && table.default == d,
    }
}

/// A decoded number sequence only moves forward and ends inside the
/// sequence, strictly forward when it is non-empty.
pub proof fn lemma_u32_seq_advances(s: Seq<u8>, pos: int, n: nat)
    ensures
        spec_decode_u32_seq(s, pos, n) matches Some((_, end)) ==> pos <= end && (n > 0 ==> pos
            < end <= s.len()),
    decreases n,
{
    if n > 0 {
        lemma_unsigned_advances(s, pos, 5);
        match spec_decode_u32(s, pos) {
            Some((_, p1)) => {
                lemma_u32_seq_advances(s, p1, (n - 1) as nat);
            },
            None => {},
        }
    }
}

/// A decoded operator consumes at least one byte and ends inside the
/// sequence.
pub proof fn lemma_decode_kind_advances(s: Seq<u8>, pos: int)
    ensures
        spec_decode_kind(s, pos) matches Some((_, end)) ==> pos < end <= s.len(),
{
    if 0 <= pos < s.len() {
        let p = pos + 1;
        lemma_unsigned_advances(s, p, 5);
        lemma_signed_advances(s, p, 5);
        lemma_signed_advances(s, p, 10);
        match spec_decode_unsigned(s, p, 5) {
            Some((_, p1)) => {
                lemma_unsigned_advances(s, p1, 5);
                lemma_signed_advances(s, p1, 5);
                lemma_signed_advances(s, p1, 10);
                match spec_decode_unsigned(s, p1, 5) {
                    Some((_, p2)) => {
                        lemma_unsigned_advances(s, p2, 5);
                    },
                    None => {},
                }
                match spec_decode_u32(s, p) {
                    Some((n, _)) => {
                        lemma_u32_seq_advances(s, p1, n as nat);
                        match spec_decode_u32_seq(s, p1, n as nat) {
                            Some((_, p2)) => {
                                lemma_unsigned_advances(s, p2, 5);
                            },
                            None => {},
                        }
                    },
                    None => {},
                }
            },
            None => {},
        }
    }
}

/// Whether `insts` is exactly the instruction run that the bytes from `pos`
/// up to `endp` decode to, with offsets taken relative to `base`.
pub open spec fn spec_body_matches(
    s: Seq<u8>,
    pos: int,
    endp: int,
    base: int,
    insts: Seq<Instruction>,
) -> bool
    decreases insts.len(),
{
    if insts.len() == 0 {
        pos == endp
    } else {
        match spec_decode_kind(s, pos) {
            Some((dk, p)) => kind_matches_decoded(insts[0].kind, dk) && insts[0].offset as int
                == pos - base && p <= endp && spec_body_matches(s, p, endp, base, insts.drop_first()),
            None => false,
        }
    }
}

/// Whether decoding the instruction run from `pos` up to `endp` fails: an
/// operator is malformed, or one runs past the end.
pub open spec fn spec_body_fails(s: Seq<u8>, pos: int, endp: int) -> bool
    decreases endp - pos,
{
    if pos >= endp {
        pos != endp
    } else {
        match spec_decode_kind(s, pos) {
            Some((_, p)) => p > endp || (pos < p && spec_body_fails(s, p, endp)),
            None => true,
        }
    }
}

/// A failed decode, with the byte position where it stopped.
#[derive(Copy, Clone, PartialEq, Eq, Structural, Debug)]
pub struct DecodeError {
    pub offset: usize,
}

/// Reads one instruction at `pos`, annotating it with its offset relative
/// to `base_offset`.
pub fn transform_inst(s: &[u8], pos: usize, base_offset: usize) -> (r: Result<
    (Instruction, usize),
    DecodeError,
>)
    requires
        base_offset <= pos,
    ensures
        match r {
            Ok((inst, end)) => spec_decode_kind(s@, pos as int) matches Some((dk, e))
                && kind_matches_decoded(inst.kind, dk) && inst.offset as int == pos - base_offset
                && end as int == e,
            Err(e) => spec_decode_kind(s@, pos as int) is None && e.offset == pos,
        },
{
    proof {
        vstd::slice::axiom_spec_len(s);
    }
    match read_kind(s, pos) {
        Some((kind, end)) => Ok((Instruction { kind, offset: pos - base_offset }, end)),
        None => Err(DecodeError { offset: pos }),
    }
}

/// Decodes the instruction run between `start` and `endp`, annotating each
/// instruction with its offset relative to `base`.
pub fn decode_body(s: &[u8], start: usize, endp: usize, base: usize) -> (r: Result<
    Vec<Instruction>,
    DecodeError,
>)
    requires
        base <= start <= endp <= s@.len(),
    ensures
        match r {
            Ok(insts) => spec_body_matches(s@, start as int, endp as int, base as int, insts@),
            Err(e) => spec_body_fails(s@, start as int, endp as int) && start <= e.offset <= endp,
        },
{
    proof {
        vstd::slice::axiom_spec_len(s);
    }
    let mut insts: Vec<Instruction> = Vec::new();
    let mut cur = start;
    while cur < endp
        invariant
            base <= start <= cur <= endp <= s@.len(),
            forall|tail: Seq<Instruction>|
                spec_body_matches(s@, cur as int, endp as int, base as int, tail)
                    ==> spec_body_matches(s@, start as int, endp as int, base as int, insts@ + tail),
            spec_body_fails(s@, cur as int, endp as int) ==> spec_body_fails(
                s@,
                start as int,
                endp as int,
            ),
        decreases endp - cur,
    {
        proof {
            vstd::slice::axiom_spec_len(s);
            lemma_decode_kind_advances(s@, cur as int);
        }
        match read_kind(s, cur) {
            Some((kind, p)) => {
                if p > endp {
                    return Err(DecodeError { offset: cur });
                }
                let inst = Instruction { kind, offset: cur - base };
                let ghost pre = insts@;
                insts.push(inst);
                proof {
                    let dk = spec_decode_kind(s@, cur as int)->Some_0.0;
                    assert forall|tail: Seq<Instruction>|
                        spec_body_matches(s@, p as int, endp as int, base as int, tail)
                            implies spec_body_matches(
                        s@,
                        start as int,
                        endp as int,
                        base as int,
                        insts@ + tail,
                    ) by {
                        let with_inst = seq![inst] + tail;
                        assert(with_inst.drop_first() =~= tail);
                        assert(spec_body_matches(
                            s@,
                            cur as int,
                            endp as int,
                            base as int,
                            with_inst,
                        ));
                        assert(pre + with_inst =~= insts@ + tail);
                    }
                }
                cur = p;
            },
            None => {
                return Err(DecodeError { offset: cur });
            },
        }
    }
    proof {
        assert(spec_body_matches(s@, cur as int, endp as int, base as int, Seq::empty()));
        assert(insts@ + Seq::<Instruction>::empty() =~= insts@);
    }
    Ok(insts)
}



} // verus!
