//! Function types and export records.

use vstd::prelude::*;
use crate::address::{FuncAddr, GlobalAddr, MemoryAddr, ModuleIndex, TableAddr};
use crate::value::ValType;

verus! {

/// The signature of a function: parameter types and result types.
pub struct FuncType {
    pub params: Vec<ValType>,
    pub returns: Vec<ValType>,
}

/// Copies a list of value types.
pub fn copy_valtypes(v: &Vec<ValType>) -> (r: Vec<ValType>)
    ensures
        r@ == v@,
{
    let mut out: Vec<ValType> = Vec::new();
    let mut i: usize = 0;
    while i < v.len()
        invariant
            i <= v@.len(),
            out@ == v@.subrange(0, i as int),
        decreases v@.len() - i,
    {
        out.push(v[i]);
        proof {
            assert(out@ =~= v@.subrange(0, i + 1));
        }
        i = i + 1;
    }
    proof {
        assert(out@ =~= v@);
    }
    out
}

/// Compares two lists of value types.
pub fn valtypes_eq(a: &Vec<ValType>, b: &Vec<ValType>) -> (r: bool)
    ensures
        r == (a@ == b@),
{
    if a.len() != b.len() {
        proof {
            assert(a@.len() != b@.len());
        }
        return false;
    }
    let mut i: usize = 0;
    while i < a.len()
        invariant
            i <= a@.len(),
            a@.len() == b@.len(),
            forall|j: int| 0 <= j < i ==> a@[j] == b@[j],
        decreases a@.len() - i,
    {
        if a[i] != b[i] {
            return false;
        }
        i = i + 1;
    }
    proof {
        assert(a@ =~= b@);
    }
    true
}

impl FuncType {
    /// Creates the signature with the given parameter and result types.
    pub fn new(params: Vec<ValType>, returns: Vec<ValType>) -> (t: Self)
        ensures
            t.params@ == params@,
            t.returns@ == returns@,
    {
        FuncType { params, returns }
    }

    /// A structural copy of the signature.
    pub fn duplicate(&self) -> (r: Self)
        ensures
            r.params@ == self.params@,
            r.returns@ == self.returns@,
    {
        FuncType { params: copy_valtypes(&self.params), returns: copy_valtypes(&self.returns) }
    }

    /// Whether two signatures are equal: WebAssembly subtyping for
    /// functions is exact signature equality.
    pub fn matches(&self, other: &FuncType) -> (r: bool)
        ensures
            r == (self.params@ == other.params@ && self.returns@ == other.returns@),
    {
        let p = valtypes_eq(&self.params, &other.params);
        let q = valtypes_eq(&self.returns, &other.returns);
        p && q
    }
}

/// A typed handle exported under a name: the target of an export entry.
#[derive(Copy, Clone, PartialEq, Eq, Structural, Debug)]
pub enum ExternalValue {
    Func(FuncAddr),
    Global(GlobalAddr),
    Mem(MemoryAddr),
    Table(TableAddr),
}

/// The kind of an exported handle, as the word the errors use.
pub open spec fn spec_kind_name(v: ExternalValue) -> Seq<char> {
    match v {
        ExternalValue::Func(_) => "function"@,
        ExternalValue::Global(_) => "global"@,
        ExternalValue::Mem(_) => "memory"@,
        ExternalValue::Table(_) => "table"@,
    }
}

impl ExternalValue {
    /// The kind of the handle, as a human-readable word.
    pub fn ty(&self) -> (r: &'static str)
        ensures
            r@ == spec_kind_name(*self),
    {
        match self {
            ExternalValue::Func(_) => "function",
            ExternalValue::Global(_) => "global",
            ExternalValue::Mem(_) => "memory",
            ExternalValue::Table(_) => "table",
        }
    }
}

/// One export of a module: a name bound to a typed handle.
pub struct ExportInstance {
    name: String,
    value: ExternalValue,
}

impl ExportInstance {
    /// The exported name, as a specification-level character sequence.
    pub closed spec fn spec_name(&self) -> Seq<char> {
        self.name@
    }

    /// The exported handle.
    pub closed spec fn spec_value(&self) -> ExternalValue {
        self.value
    }

    /// Creates an export record.
    pub fn new(name: String, value: ExternalValue) -> (e: Self)
        ensures
            e.spec_name() == name@,
            e.spec_value() == value,
    {
        ExportInstance { name, value }
    }

    /// The exported name.
    pub fn name(&self) -> (r: &String)
        ensures
            r@ == self.spec_name(),
    {
        &self.name
    }

    /// The exported handle.
    pub fn value(&self) -> (r: ExternalValue)
        ensures
            r == self.spec_value(),
    {
        self.value
    }
}

} // verus!
