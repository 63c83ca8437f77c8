//! The module-level binary format: sections to a parsed skeleton.
//!
//! The parser turns raw module bytes into a skeleton — types, imports,
//! exports, declarations, segments, start function, and per-function
//! instruction vectors — failing the whole load with the byte offset of the
//! first malformed piece. Custom sections are retained verbatim for the
//! debug-information consumers.

use vstd::prelude::*;
use vstd::utf8::{decode_utf8, valid_utf8};
use crate::inst::Instruction;
use crate::inst_decode::{
    decode_body, read_valtype, spec_body_fails, spec_body_matches, spec_valtype_of_byte_at,
    DecodeError,
};
use crate::leb::{decode_u32, spec_decode_u32};
use crate::value::ValType;
use crate::types::FuncType;

verus! {

/// Size bounds: a table or memory declaration.
#[derive(Copy, Clone, PartialEq, Eq, Structural, Debug)]
pub struct Limits {
    pub min: u32,
    pub max: Option<u32>,
}

/// A table declaration: element type and bounds.
#[derive(Copy, Clone, PartialEq, Eq, Structural, Debug)]
pub struct TableDecl {
    pub elem_ty: ValType,
    pub limits: Limits,
}

/// A constant initializer expression: one instruction, then `end`.
#[derive(Copy, Clone, PartialEq, Eq, Structural, Debug)]
pub enum InitExpr {
    I32Const(i32),
    I64Const(i64),
    F32Const(u32),
    F64Const(u64),
    GlobalGet(u32),
    RefNull(ValType),
    RefFunc(u32),
}

/// A global declaration: type, mutability, initializer.
#[derive(Copy, Clone, PartialEq, Eq, Structural, Debug)]
pub struct GlobalDecl {
    pub ty: ValType,
    pub mutable: bool,
    pub init: InitExpr,
}

/// What an import asks for.
pub enum ImportKind {
    Func(u32),
    Table(TableDecl),
    Memory(Limits),
    Global { ty: ValType, mutable: bool },
}

/// One import: providing module name, field name, and expected kind.
pub struct ImportEntry {
    pub module: String,
    pub field: String,
    pub kind: ImportKind,
}

/// The kind of an export entry.
#[derive(Copy, Clone, PartialEq, Eq, Structural, Debug)]
pub enum ExportKind {
    Func,
    Table,
    Memory,
    Global,
}

/// One export: name, kind, and index into that kind's index space.
pub struct ExportEntry {
    pub name: String,
    pub kind: ExportKind,
    pub index: u32,
}

/// How an element segment is applied.
#[derive(Copy, Clone, PartialEq, Eq, Structural, Debug)]
pub enum ElemMode {
    Active { table: u32, offset: InitExpr },
    Passive,
}

/// One element segment: mode and function indices.
pub struct ElemDecl {
    pub mode: ElemMode,
    pub items: Vec<u32>,
}

/// How a data segment is applied.
#[derive(Copy, Clone, PartialEq, Eq, Structural, Debug)]
pub enum DataMode {
    Active { memory: u32, offset: InitExpr },
    Passive,
}

/// One data segment: mode and raw bytes.
pub struct DataDecl {
    pub mode: DataMode,
    pub bytes: Vec<u8>,
}

/// One function body: expanded locals and the instruction vector, each
/// instruction annotated with its offset from the body's payload start.
pub struct FuncBody {
    pub locals: Vec<ValType>,
    pub insts: Vec<Instruction>,
}

/// The parsed skeleton of one module.
pub struct ParsedModule {
    pub types: Vec<FuncType>,
    pub imports: Vec<ImportEntry>,
    pub functions: Vec<u32>,
    pub tables: Vec<TableDecl>,
    pub memories: Vec<Limits>,
    pub globals: Vec<GlobalDecl>,
    pub exports: Vec<ExportEntry>,
    pub start: Option<u32>,
    pub elements: Vec<ElemDecl>,
    pub data: Vec<DataDecl>,
    pub code: Vec<FuncBody>,
    pub custom: Vec<(String, Vec<u8>)>,
}

/// Relies on `String::from_utf8`: the UTF-8 decoding of the bytes, exactly
/// as vstd's `decode_utf8` states it, succeeding exactly on valid UTF-8.
#[verifier::external_body]
fn string_from_utf8(bytes: Vec<u8>) -> (r: Option<String>)
    ensures
        match r {
            Some(s) => valid_utf8(bytes@) && s@ == decode_utf8(bytes@),
            None => !valid_utf8(bytes@),
        },
{
    match String::from_utf8(bytes) {
        Ok(s) => Some(s),
        Err(_) => None,
    }
}

/// The name at `pos`: a byte count, then that many bytes of UTF-8.
pub open spec fn spec_decode_name(s: Seq<u8>, pos: int) -> Option<(Seq<char>, int)> {
    match spec_decode_u32(s, pos) {
        Some((n, p1)) => if p1 + n <= s.len() && valid_utf8(s.subrange(p1, p1 + n)) {
            Some((decode_utf8(s.subrange(p1, p1 + n)), p1 + n))
        } else {
            None
        },
        None => None,
    }
}

/// Reads the name at `pos`.
pub fn read_name(s: &[u8], pos: usize) -> (r: Option<(String, usize)>)
    ensures
        match spec_decode_name(s@, pos as int) {
            Some((name, end)) => pos < end <= s@.len() && (r matches Some(p) && p.0@ == name
                && p.1 == end),
            None => r is None,
        },
{
    proof {
        vstd::slice::axiom_spec_len(s);
    }
    match decode_u32(s, pos) {
        Some((n, p1)) => {
            if n as u64 > (s.len() - p1) as u64 {
                return None;
            }
            let n = n as usize;
            let mut bytes: Vec<u8> = Vec::new();
            let mut i: usize = 0;
            while i < n
                invariant
                    i <= n,
                    p1 + n <= s@.len(),
                    bytes@ == s@.subrange(p1 as int, p1 + i),
                decreases n - i,
            {
                proof {
                    vstd::slice::axiom_spec_len(s);
                }
                bytes.push(s[p1 + i]);
                proof {
                    assert(bytes@ =~= s@.subrange(p1 as int, p1 + i + 1));
                }
                i = i + 1;
            }
            match string_from_utf8(bytes) {
                Some(name) => Some((name, p1 + n)),
                None => None,
            }
        },
        None => None,
    }
}

/// The limits at `pos`: a flag byte, a minimum, and under flag one also a
/// maximum.
pub open spec fn spec_decode_limits(s: Seq<u8>, pos: int) -> Option<(Limits, int)> {
    if pos < 0 || pos >= s.len() {
        None
    } else if s[pos] == 0x00 {
        match spec_decode_u32(s, pos + 1) {
            Some((min, end)) => Some((Limits { min, max: None }, end)),
            None => None,
        }
    } else if s[pos] == 0x01 {
        match spec_decode_u32(s, pos + 1) {
            Some((min, p1)) => match spec_decode_u32(s, p1) {
                Some((mx, end)) => Some((Limits { min, max: Some(mx) }, end)),
                None => None,
            },
            None => None,
        }
    } else {
        None
    }
}

/// Reads the limits at `pos`.
pub fn read_limits(s: &[u8], pos: usize) -> (r: Option<(Limits, usize)>)
    ensures
        match spec_decode_limits(s@, pos as int) {
            Some((l, end)) => pos < end <= s@.len() && r == Some((l, end as usize)),
            None => r is None,
        },
{
    proof {
        vstd::slice::axiom_spec_len(s);
    }
    if pos >= s.len() {
        return None;
    }
    if s[pos] == 0x00 {
        match decode_u32(s, pos + 1) {
            Some((min, end)) => Some((Limits { min, max: None }, end)),
            None => None,
        }
    } else if s[pos] == 0x01 {
        match decode_u32(s, pos + 1) {
            Some((min, p1)) => match decode_u32(s, p1) {
                Some((mx, end)) => Some((Limits { min, max: Some(mx) }, end)),
                None => None,
            },
            None => None,
        }
    } else {
        None
    }
}

/// The initializer expression at `pos`: one constant instruction, then the
/// `end` opcode.
pub open spec fn spec_decode_init_expr(s: Seq<u8>, pos: int) -> Option<(InitExpr, int)> {
    if pos < 0 || pos >= s.len() {
        None
    } else {
        let b = s[pos];
        let inner: Option<(InitExpr, int)> = if b == 0x41 {
            match crate::leb::spec_decode_i32(s, pos + 1) {
                Some((v, e)) => Some((InitExpr::I32Const(v), e)),
                None => None,
            }
        } else if b == 0x42 {
            match crate::leb::spec_decode_i64(s, pos + 1) {
                Some((v, e)) => Some((InitExpr::I64Const(v), e)),
                None => None,
            }
        } else if b == 0x43 {
            match crate::inst_decode::spec_decode_u32_le(s, pos + 1) {
                Some((v, e)) => Some((InitExpr::F32Const(v), e)),
                None => None,
            }
        } else if b == 0x44 {
            match crate::inst_decode::spec_decode_u64_le(s, pos + 1) {
                Some((v, e)) => Some((InitExpr::F64Const(v), e)),
                None => None,
            }
        } else if b == 0x23 {
            match spec_decode_u32(s, pos + 1) {
                Some((v, e)) => Some((InitExpr::GlobalGet(v), e)),
                None => None,
            }
        } else if b == 0xD0 {
            match spec_valtype_of_byte_at(s, pos + 1) {
                Some((t, e)) => if t == ValType::FuncRef || t == ValType::ExternRef {
                    Some((InitExpr::RefNull(t), e))
                } else {
                    None
                },
                None => None,
            }
        } else if b == 0xD2 {
            match spec_decode_u32(s, pos + 1) {
                Some((v, e)) => Some((InitExpr::RefFunc(v), e)),
                None => None,
            }
        } else {
            None
        };
        match inner {
            Some((expr, e)) => if 0 <= e < s.len() && s[e] == 0x0B {
                Some((expr, e + 1))
            } else {
                None
            },
            None => None,
        }
    }
}

/// Reads the initializer expression at `pos`.
pub fn read_init_expr(s: &[u8], pos: usize) -> (r: Option<(InitExpr, usize)>)
    ensures
        match spec_decode_init_expr(s@, pos as int) {
            Some((e, end)) => pos < end <= s@.len() && r == Some((e, end as usize)),
            None => r is None,
        },
{
    proof {
        vstd::slice::axiom_spec_len(s);
    }
    if pos >= s.len() {
        return None;
    }
    let b = s[pos];
    let inner: Option<(InitExpr, usize)> = if b == 0x41 {
        match crate::leb::decode_i32(s, pos + 1) {
            Some((v, e)) => Some((InitExpr::I32Const(v), e)),
            None => None,
        }
    } else if b == 0x42 {
        match crate::leb::decode_i64(s, pos + 1) {
            Some((v, e)) => Some((InitExpr::I64Const(v), e)),
            None => None,
        }
    } else if b == 0x43 {
        match crate::inst_decode::read_u32_le(s, pos + 1) {
            Some((v, e)) => Some((InitExpr::F32Const(v), e)),
            None => None,
        }
    } else if b == 0x44 {
        match crate::inst_decode::read_u64_le(s, pos + 1) {
            Some((v, e)) => Some((InitExpr::F64Const(v), e)),
            None => None,
        }
    } else if b == 0x23 {
        match decode_u32(s, pos + 1) {
            Some((v, e)) => Some((InitExpr::GlobalGet(v), e)),
            None => None,
        }
    } else if b == 0xD0 {
        match read_valtype(s, pos + 1) {
            Some((t, e)) => if t == ValType::FuncRef || t == ValType::ExternRef {
                Some((InitExpr::RefNull(t), e))
            } else {
                None
            },
            None => None,
        }
    } else if b == 0xD2 {
        match decode_u32(s, pos + 1) {
            Some((v, e)) => Some((InitExpr::RefFunc(v), e)),
            None => None,
        }
    } else {
        None
    };
    match inner {
        Some((expr, e)) => {
            if e < s.len() && s[e] == 0x0B {
                Some((expr, e + 1))
            } else {
                None
            }
        },
        None => None,
    }
}

/// The function type at `pos`: the 0x60 tag, parameter types, result
/// types.
pub fn read_func_type(s: &[u8], pos: usize) -> (r: Option<(FuncType, usize)>)
    ensures
        r matches Some(p) ==> pos < p.1 <= s@.len(),
{
    proof {
        vstd::slice::axiom_spec_len(s);
    }
    if pos >= s.len() || s[pos] != 0x60 {
        return None;
    }
    let (params, p1) = match read_valtype_vec(s, pos + 1) {
        Some(x) => x,
        None => {
            return None;
        },
    };
    let (results, end) = match read_valtype_vec(s, p1) {
        Some(x) => x,
        None => {
            return None;
        },
    };
    Some((FuncType::new(params, results), end))
}

/// Reads a counted run of value types at `pos`.
pub fn read_valtype_vec(s: &[u8], pos: usize) -> (r: Option<(Vec<ValType>, usize)>)
    ensures
        r matches Some(p) ==> pos < p.1 <= s@.len(),
{
    proof {
        vstd::slice::axiom_spec_len(s);
    }
    let (n, p1) = match decode_u32(s, pos) {
        Some(x) => x,
        None => {
            return None;
        },
    };
    let mut out: Vec<ValType> = Vec::new();
    let mut i: u32 = 0;
    let mut cur = p1;
    while i < n
        invariant
            pos < cur <= s@.len(),
        decreases n - i,
    {
        proof {
            vstd::slice::axiom_spec_len(s);
        }
        match read_valtype(s, cur) {
            Some((t, e)) => {
                out.push(t);
                cur = e;
                i = i + 1;
            },
            None => {
                return None;
            },
        }
    }
    Some((out, cur))
}

/// The table declaration at `pos`: a reference type, then limits.
pub fn read_table_decl(s: &[u8], pos: usize) -> (r: Option<(TableDecl, usize)>)
    ensures
        r matches Some(p) ==> pos < p.1 <= s@.len(),
{
    proof {
        vstd::slice::axiom_spec_len(s);
    }
    let (elem_ty, p1) = match read_valtype(s, pos) {
        Some(x) => x,
        None => {
            return None;
        },
    };
    if !(elem_ty == ValType::FuncRef || elem_ty == ValType::ExternRef) {
        return None;
    }
    match read_limits(s, p1) {
        Some((limits, end)) => Some((TableDecl { elem_ty, limits }, end)),
        None => None,
    }
}

/// The global type and initializer at `pos`.
pub fn read_global_decl(s: &[u8], pos: usize) -> (r: Option<(GlobalDecl, usize)>)
    ensures
        r matches Some(p) ==> pos < p.1 <= s@.len(),
{
    proof {
        vstd::slice::axiom_spec_len(s);
    }
    let (ty, p1) = match read_valtype(s, pos) {
        Some(x) => x,
        None => {
            return None;
        },
    };
    if p1 >= s.len() {
        return None;
    }
    let mut_byte = s[p1];
    if mut_byte != 0x00 && mut_byte != 0x01 {
        return None;
    }
    match read_init_expr(s, p1 + 1) {
        Some((init, end)) => Some((GlobalDecl { ty, mutable: mut_byte == 0x01, init }, end)),
        None => None,
    }
}

/// Reads one import entry at `pos`.
pub fn read_import(s: &[u8], pos: usize) -> (r: Option<(ImportEntry, usize)>)
    ensures
        r matches Some(p) ==> pos < p.1 <= s@.len(),
{
    proof {
        vstd::slice::axiom_spec_len(s);
    }
    let (module, p1) = match read_name(s, pos) {
        Some(x) => x,
        None => {
            return None;
        },
    };
    let (field, p2) = match read_name(s, p1) {
        Some(x) => x,
        None => {
            return None;
        },
    };
    if p2 >= s.len() {
        return None;
    }
    let kind_byte = s[p2];
    let p3 = p2 + 1;
    if kind_byte == 0x00 {
        match decode_u32(s, p3) {
            Some((idx, end)) => Some((ImportEntry { module, field, kind: ImportKind::Func(idx) }, end)),
            None => None,
        }
    } else if kind_byte == 0x01 {
        match read_table_decl(s, p3) {
            Some((t, end)) => Some((ImportEntry { module, field, kind: ImportKind::Table(t) }, end)),
            None => None,
        }
    } else if kind_byte == 0x02 {
        match read_limits(s, p3) {
            Some((l, end)) => Some((ImportEntry { module, field, kind: ImportKind::Memory(l) }, end)),
            None => None,
        }
    } else if kind_byte == 0x03 {
        let (ty, p4) = match read_valtype(s, p3) {
            Some(x) => x,
            None => {
                return None;
            },
        };
        if p4 >= s.len() {
            return None;
        }
        let mut_byte = s[p4];
        if mut_byte != 0x00 && mut_byte != 0x01 {
            return None;
        }
        Some(
            (
                ImportEntry { module, field, kind: ImportKind::Global { ty, mutable: mut_byte == 0x01 } },
                p4 + 1,
            ),
        )
    } else {
        None
    }
}

/// Reads one export entry at `pos`.
pub fn read_export(s: &[u8], pos: usize) -> (r: Option<(ExportEntry, usize)>)
    ensures
        r matches Some(p) ==> pos < p.1 <= s@.len(),
{
    proof {
        vstd::slice::axiom_spec_len(s);
    }
    let (name, p1) = match read_name(s, pos) {
        Some(x) => x,
        None => {
            return None;
        },
    };
    if p1 >= s.len() {
        return None;
    }
    let kind = if s[p1] == 0x00 {
        ExportKind::Func
    } else if s[p1] == 0x01 {
        ExportKind::Table
    } else if s[p1] == 0x02 {
        ExportKind::Memory
    } else if s[p1] == 0x03 {
        ExportKind::Global
    } else {
        return None;
    };
    match decode_u32(s, p1 + 1) {
        Some((index, end)) => Some((ExportEntry { name, kind, index }, end)),
        None => None,
    }
}

/// Reads a counted run of function indices at `pos`.
fn read_func_indices(s: &[u8], pos: usize) -> (r: Option<(Vec<u32>, usize)>)
    ensures
        r matches Some(p) ==> pos < p.1 <= s@.len(),
{
    proof {
        vstd::slice::axiom_spec_len(s);
    }
    let (n, p1) = match decode_u32(s, pos) {
        Some(x) => x,
        None => {
            return None;
        },
    };
    let mut out: Vec<u32> = Vec::new();
    let mut cur = p1;
    let mut i: u32 = 0;
    while i < n
        invariant
            pos < cur <= s@.len(),
        decreases n - i,
    {
        proof {
            vstd::slice::axiom_spec_len(s);
        }
        match decode_u32(s, cur) {
            Some((v, e)) => {
                out.push(v);
                cur = e;
                i = i + 1;
            },
            None => {
                return None;
            },
        }
    }
    Some((out, cur))
}

/// Reads one element segment at `pos`: the plain active form (tag zero) or
/// the passive function-index form (tag one).
pub fn read_elem(s: &[u8], pos: usize) -> (r: Option<(ElemDecl, usize)>)
    ensures
        r matches Some(p) ==> pos < p.1 <= s@.len(),
{
    proof {
        vstd::slice::axiom_spec_len(s);
    }
    let (flags, p1) = match decode_u32(s, pos) {
        Some(x) => x,
        None => {
            return None;
        },
    };
    if flags == 0 {
        let (offset, p2) = match read_init_expr(s, p1) {
            Some(x) => x,
            None => {
                return None;
            },
        };
        match read_func_indices(s, p2) {
            Some((items, end)) => Some(
                (ElemDecl { mode: ElemMode::Active { table: 0, offset }, items }, end),
            ),
            None => None,
        }
    } else if flags == 1 {
        if p1 >= s.len() || s[p1] != 0x00 {
            return None;
        }
        match read_func_indices(s, p1 + 1) {
            Some((items, end)) => Some((ElemDecl { mode: ElemMode::Passive, items }, end)),
            None => None,
        }
    } else if flags == 2 {
        let (table, p2) = match decode_u32(s, p1) {
            Some(x) => x,
            None => {
                return None;
            },
        };
        let (offset, p3) = match read_init_expr(s, p2) {
            Some(x) => x,
            None => {
                return None;
            },
        };
        if p3 >= s.len() || s[p3] != 0x00 {
            return None;
        }
        match read_func_indices(s, p3 + 1) {
            Some((items, end)) => Some(
                (ElemDecl { mode: ElemMode::Active { table, offset }, items }, end),
            ),
            None => None,
        }
    } else {
        None
    }
}

/// Reads the raw byte payload of a data segment at `pos`.
fn read_byte_vec(s: &[u8], pos: usize) -> (r: Option<(Vec<u8>, usize)>)
    ensures
        r matches Some(p) ==> pos < p.1 <= s@.len(),
{
    proof {
        vstd::slice::axiom_spec_len(s);
    }
    let (n, p1) = match decode_u32(s, pos) {
        Some(x) => x,
        None => {
            return None;
        },
    };
    if n as u64 > (s.len() - p1) as u64 {
        return None;
    }
    let n = n as usize;
    let mut out: Vec<u8> = Vec::new();
    let mut i: usize = 0;
    while i < n
        invariant
            i <= n,
            p1 + n <= s@.len(),
        decreases n - i,
    {
        proof {
            vstd::slice::axiom_spec_len(s);
        }
        out.push(s[p1 + i]);
        i = i + 1;
    }
    Some((out, p1 + n))
}

/// Reads one data segment at `pos`: active on memory zero (tag zero),
/// passive (tag one), or active on an explicit memory (tag two).
pub fn read_data(s: &[u8], pos: usize) -> (r: Option<(DataDecl, usize)>)
    ensures
        r matches Some(p) ==> pos < p.1 <= s@.len(),
{
    proof {
        vstd::slice::axiom_spec_len(s);
    }
    let (flags, p1) = match decode_u32(s, pos) {
        Some(x) => x,
        None => {
            return None;
        },
    };
    if flags == 0 {
        let (offset, p2) = match read_init_expr(s, p1) {
            Some(x) => x,
            None => {
                return None;
            },
        };
        match read_byte_vec(s, p2) {
            Some((bytes, end)) => Some(
                (DataDecl { mode: DataMode::Active { memory: 0, offset }, bytes }, end),
            ),
            None => None,
        }
    } else if flags == 1 {
        match read_byte_vec(s, p1) {
            Some((bytes, end)) => Some((DataDecl { mode: DataMode::Passive, bytes }, end)),
            None => None,
        }
    } else if flags == 2 {
        let (memory, p2) = match decode_u32(s, p1) {
            Some(x) => x,
            None => {
                return None;
            },
        };
        let (offset, p3) = match read_init_expr(s, p2) {
            Some(x) => x,
            None => {
                return None;
            },
        };
        match read_byte_vec(s, p3) {
            Some((bytes, end)) => Some(
                (DataDecl { mode: DataMode::Active { memory, offset }, bytes }, end),
            ),
            None => None,
        }
    } else {
        None
    }
}

/// The cap on expanded locals of one function body.
pub const MAX_LOCALS: u32 = 50000;

/// Reads one function body at `pos`: its byte size, its locals, and its
/// instruction run, which must fill the body exactly. Offsets are taken
/// relative to the body's payload start.
pub fn read_func_body(s: &[u8], pos: usize) -> (r: Option<(FuncBody, usize)>)
    ensures
        r matches Some(p) ==> pos < p.1 <= s@.len(),
{
    proof {
        vstd::slice::axiom_spec_len(s);
    }
    let (size, p1) = match decode_u32(s, pos) {
        Some(x) => x,
        None => {
            return None;
        },
    };
    if size as u64 > (s.len() - p1) as u64 {
        return None;
    }
    let endp = p1 + (size as usize);
    // locals: a counted run of (count, type) groups, expanded
    let (ngroups, mut cur) = match decode_u32(s, p1) {
        Some(x) => x,
        None => {
            return None;
        },
    };
    if cur > endp {
        return None;
    }
    let mut locals: Vec<ValType> = Vec::new();
    let mut g: u32 = 0;
    while g < ngroups
        invariant
            p1 <= cur <= s@.len(),
            cur <= endp <= s@.len(),
            locals@.len() <= MAX_LOCALS,
        decreases ngroups - g,
    {
        proof {
            vstd::slice::axiom_spec_len(s);
        }
        let (count, q1) = match decode_u32(s, cur) {
            Some(x) => x,
            None => {
                return None;
            },
        };
        let (ty, q2) = match read_valtype(s, q1) {
            Some(x) => x,
            None => {
                return None;
            },
        };
        if q2 > endp {
            return None;
        }
        if count > MAX_LOCALS || locals.len() as u64 + count as u64 > MAX_LOCALS as u64 {
            return None;
        }
        let mut c: u32 = 0;
        while c < count
            invariant
                c <= count,
                locals@.len() + count as nat - c as nat <= MAX_LOCALS,
            decreases count - c,
        {
            locals.push(ty);
            c = c + 1;
        }
        cur = q2;
        g = g + 1;
    }
    match decode_body(s, cur, endp, p1) {
        Ok(insts) => Some((FuncBody { locals, insts }, endp)),
        Err(_) => None,
    }
}

/// Reads the module magic and version at the start of `s`.
fn check_magic(s: &[u8]) -> (r: bool)
    ensures
        r ==> s@.len() >= 8,
{
    if s.len() < 8 {
        return false;
    }
    s[0] == 0x00 && s[1] == 0x61 && s[2] == 0x73 && s[3] == 0x6D && s[4] == 0x01 && s[5] == 0x00
        && s[6] == 0x00 && s[7] == 0x00
}

/// Parses a whole module: magic and version, then the sequence of sections.
/// The skeleton keeps one instruction vector per defined function, and the
/// parse fails, with the byte offset of the first malformed piece, rather
/// than skip anything it does not understand.
pub fn parse_module(s: &[u8]) -> (r: Result<ParsedModule, DecodeError>)
    ensures
        r matches Ok(m) ==> m.code@.len() == m.functions@.len(),
{
    proof {
        vstd::slice::axiom_spec_len(s);
    }
    if !check_magic(s) {
        return Err(DecodeError { offset: 0 });
    }
    let mut m = ParsedModule {
        types: Vec::new(),
        imports: Vec::new(),
        functions: Vec::new(),
        tables: Vec::new(),
        memories: Vec::new(),
        globals: Vec::new(),
        exports: Vec::new(),
        start: None,
        elements: Vec::new(),
        data: Vec::new(),
        code: Vec::new(),
        custom: Vec::new(),
    };
    let mut pos: usize = 8;
    while pos < s.len()
        invariant
            pos <= s@.len(),
        decreases s@.len() - pos,
    {
        proof {
            vstd::slice::axiom_spec_len(s);
        }
        let section_id = s[pos];
        let (size, p1) = match decode_u32(s, pos + 1) {
            Some(x) => x,
            None => {
                return Err(DecodeError { offset: pos });
            },
        };
        if size as u64 > (s.len() - p1) as u64 {
            return Err(DecodeError { offset: pos });
        }
        let endp = p1 + (size as usize);
        if section_id == 0 {
            // custom section: name, then opaque bytes retained verbatim
            let (name, q1) = match read_name(s, p1) {
                Some(x) => x,
                None => {
                    return Err(DecodeError { offset: p1 });
                },
            };
            if q1 > endp {
                return Err(DecodeError { offset: p1 });
            }
            let mut bytes: Vec<u8> = Vec::new();
            let mut i = q1;
            while i < endp
                invariant
                    i <= endp <= s@.len(),
                decreases endp - i,
            {
                proof {
                    vstd::slice::axiom_spec_len(s);
                }
                bytes.push(s[i]);
                i = i + 1;
            }
            m.custom.push((name, bytes));
        } else if section_id == 1 {
            let (n, mut cur) = match decode_u32(s, p1) {
                Some(x) => x,
                None => {
                    return Err(DecodeError { offset: p1 });
                },
            };
            let mut i: u32 = 0;
            while i < n
                invariant
                    cur <= s@.len(),
                decreases n - i,
            {
                match read_func_type(s, cur) {
                    Some((t, e)) => {
                        m.types.push(t);
                        cur = e;
                        i = i + 1;
                    },
                    None => {
                        return Err(DecodeError { offset: cur });
                    },
                }
            }
            if cur != endp {
                return Err(DecodeError { offset: cur });
            }
        } else if section_id == 2 {
            let (n, mut cur) = match decode_u32(s, p1) {
                Some(x) => x,
                None => {
                    return Err(DecodeError { offset: p1 });
                },
            };
            let mut i: u32 = 0;
            while i < n
                invariant
                    cur <= s@.len(),
                decreases n - i,
            {
                match read_import(s, cur) {
                    Some((entry, e)) => {
                        m.imports.push(entry);
                        cur = e;
                        i = i + 1;
                    },
                    None => {
                        return Err(DecodeError { offset: cur });
                    },
                }
            }
            if cur != endp {
                return Err(DecodeError { offset: cur });
            }
        } else if section_id == 3 {
            let (indices, e) = match read_func_indices(s, p1) {
                Some(x) => x,
                None => {
                    return Err(DecodeError { offset: p1 });
                },
            };
            if e != endp {
                return Err(DecodeError { offset: e });
            }
            m.functions = indices;
            if m.code.len() != 0 {
                return Err(DecodeError { offset: pos });
            }
        } else if section_id == 4 {
            let (n, mut cur) = match decode_u32(s, p1) {
                Some(x) => x,
                None => {
                    return Err(DecodeError { offset: p1 });
                },
            };
            let mut i: u32 = 0;
            while i < n
                invariant
                    cur <= s@.len(),
                decreases n - i,
            {
                match read_table_decl(s, cur) {
                    Some((t, e)) => {
                        m.tables.push(t);
                        cur = e;
                        i = i + 1;
                    },
                    None => {
                        return Err(DecodeError { offset: cur });
                    },
                }
            }
            if cur != endp {
                return Err(DecodeError { offset: cur });
            }
        } else if section_id == 5 {
            let (n, mut cur) = match decode_u32(s, p1) {
                Some(x) => x,
                None => {
                    return Err(DecodeError { offset: p1 });
                },
            };
            let mut i: u32 = 0;
            while i < n
                invariant
                    cur <= s@.len(),
                decreases n - i,
            {
                match read_limits(s, cur) {
                    Some((l, e)) => {
                        m.memories.push(l);
                        cur = e;
                        i = i + 1;
                    },
                    None => {
                        return Err(DecodeError { offset: cur });
                    },
                }
            }
            if cur != endp {
                return Err(DecodeError { offset: cur });
            }
        } else if section_id == 6 {
            let (n, mut cur) = match decode_u32(s, p1) {
                Some(x) => x,
                None => {
                    return Err(DecodeError { offset: p1 });
                },
            };
            let mut i: u32 = 0;
            while i < n
                invariant
                    cur <= s@.len(),
                decreases n - i,
            {
                match read_global_decl(s, cur) {
                    Some((g, e)) => {
                        m.globals.push(g);
                        cur = e;
                        i = i + 1;
                    },
                    None => {
                        return Err(DecodeError { offset: cur });
                    },
                }
            }
            if cur != endp {
                return Err(DecodeError { offset: cur });
            }
        } else if section_id == 7 {
            let (n, mut cur) = match decode_u32(s, p1) {
                Some(x) => x,
                None => {
                    return Err(DecodeError { offset: p1 });
                },
            };
            let mut i: u32 = 0;
            while i < n
                invariant
                    cur <= s@.len(),
                decreases n - i,
            {
                match read_export(s, cur) {
                    Some((entry, e)) => {
                        m.exports.push(entry);
                        cur = e;
                        i = i + 1;
                    },
                    None => {
                        return Err(DecodeError { offset: cur });
                    },
                }
            }
            if cur != endp {
                return Err(DecodeError { offset: cur });
            }
        } else if section_id == 8 {
            let (idx, e) = match decode_u32(s, p1) {
                Some(x) => x,
                None => {
                    return Err(DecodeError { offset: p1 });
                },
            };
            if e != endp {
                return Err(DecodeError { offset: e });
            }
            m.start = Some(idx);
        } else if section_id == 9 {
            let (n, mut cur) = match decode_u32(s, p1) {
                Some(x) => x,
                None => {
                    return Err(DecodeError { offset: p1 });
                },
            };
            let mut i: u32 = 0;
            while i < n
                invariant
                    cur <= s@.len(),
                decreases n - i,
            {
                match read_elem(s, cur) {
                    Some((seg, e)) => {
                        m.elements.push(seg);
                        cur = e;
                        i = i + 1;
                    },
                    None => {
                        return Err(DecodeError { offset: cur });
                    },
                }
            }
            if cur != endp {
                return Err(DecodeError { offset: cur });
            }
        } else if section_id == 10 {
            let (n, mut cur) = match decode_u32(s, p1) {
                Some(x) => x,
                None => {
                    return Err(DecodeError { offset: p1 });
                },
            };
            let mut i: u32 = 0;
            while i < n
                invariant
                    cur <= s@.len(),
                decreases n - i,
            {
                match read_func_body(s, cur) {
                    Some((body, e)) => {
                        m.code.push(body);
                        cur = e;
                        i = i + 1;
                    },
                    None => {
                        return Err(DecodeError { offset: cur });
                    },
                }
            }
            if cur != endp {
                return Err(DecodeError { offset: cur });
            }
            if m.code.len() != m.functions.len() {
                return Err(DecodeError { offset: pos });
            }
        } else if section_id == 11 {
            let (n, mut cur) = match decode_u32(s, p1) {
                Some(x) => x,
                None => {
                    return Err(DecodeError { offset: p1 });
                },
            };
            let mut i: u32 = 0;
            while i < n
                invariant
                    cur <= s@.len(),
                decreases n - i,
            {
                match read_data(s, cur) {
                    Some((seg, e)) => {
                        m.data.push(seg);
                        cur = e;
                        i = i + 1;
                    },
                    None => {
                        return Err(DecodeError { offset: cur });
                    },
                }
            }
            if cur != endp {
                return Err(DecodeError { offset: cur });
            }
        } else if section_id == 12 {
            // data count: read and accept; the count is rechecked by use
            match decode_u32(s, p1) {
                Some((_count, e)) => {
                    if e != endp {
                        return Err(DecodeError { offset: e });
                    }
                },
                None => {
                    return Err(DecodeError { offset: p1 });
                },
            }
        } else {
            return Err(DecodeError { offset: pos });
        }
        pos = endp;
    }
    if m.code.len() != m.functions.len() {
        return Err(DecodeError { offset: s.len() });
    }
    Ok(m)
}

} // verus!
