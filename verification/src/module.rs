//! Module instances: defined (user-loaded) and host (embedder-provided).
//!
//! A defined instance keeps its type table, its exports and its optional
//! start function; a host instance maps names to handles of
//! embedder-provided entities. Handles, never owning references, point at
//! store-owned slots, which keeps ownership flat.

use vstd::prelude::*;
use crate::address::{ExecutableFuncAddr, FuncAddr, GlobalAddr, MemoryAddr, TableAddr};
use crate::types::{spec_kind_name, ExportInstance, ExternalValue, FuncType};

verus! {

/// A loaded module: defined by bytes, or provided by the host.
pub enum ModuleInstance {
    Defined(DefinedModuleInstance),
    Host(HostModuleInstance),
}

impl ModuleInstance {
    /// The defined instance inside, if this is one.
    pub fn defined(&self) -> (r: Option<&DefinedModuleInstance>)
        ensures
            match r {
                Some(d) => self matches ModuleInstance::Defined(d2) && d == &d2,
                None => self is Host,
            },
    {
        match self {
            ModuleInstance::Defined(defined) => Some(defined),
            _ => None,
        }
    }
}

/// A user-loaded module instance: its type table, exports, and start
/// function.
pub struct DefinedModuleInstance {
    pub types: Vec<FuncType>,
    pub exports: Vec<ExportInstance>,
    pub start_func: Option<FuncAddr>,
}

/// An error raised while resolving a defined module's exports.
#[derive(Debug)]
pub enum DefinedModuleError {
    TypeMismatch(&'static str, String),
}

impl DefinedModuleError {
    /// The error rendered as one line.
    pub fn message(&self) -> (r: String)
        ensures
            self matches DefinedModuleError::TypeMismatch(expected, actual) && r@
                == "incompatible import type, expected "@ + expected@ + " but actual "@ + actual@,
    {
        match self {
            DefinedModuleError::TypeMismatch(expected, actual) => {
                let mut s = String::from_str("incompatible import type, expected ");
                s.append(expected);
                s.append(" but actual ");
                s.append(actual.as_str());
                s
            },
        }
    }
}

pub type DefinedModuleResult<T> = Result<T, DefinedModuleError>;

/// The first export of `s` carrying `name`, if any.
pub open spec fn spec_find_export(s: Seq<ExportInstance>, name: Seq<char>) -> Option<
    ExportInstance,
>
    decreases s.len(),
{
    if s.len() == 0 {
        None
    } else if s[0].spec_name() == name {
        Some(s[0])
    } else {
        spec_find_export(s.drop_first(), name)
    }
}

impl DefinedModuleInstance {
    /// Creates an instance from its parts.
    pub fn new(
        types: Vec<FuncType>,
        exports: Vec<ExportInstance>,
        start_func: Option<FuncAddr>,
    ) -> (m: Self)
        ensures
            m.spec_types() == types@,
            m.exports@ == exports@,
            m.spec_start_func() == start_func,
    {
        DefinedModuleInstance { types, exports, start_func }
    }

    /// The start function handle, if the module declared one.
    pub open spec fn spec_start_func(&self) -> Option<FuncAddr> {
        self.start_func
    }

    /// The type table.
    pub open spec fn spec_types(&self) -> Seq<FuncType> {
        self.types@
    }

    /// The first export carrying `name`, if any.
    pub fn exported_by_name(&self, name: String) -> (r: Option<&ExportInstance>)
        ensures
            match r {
                Some(e) => spec_find_export(self.exports@, name@) == Some(*e),
                None => spec_find_export(self.exports@, name@) is None,
            },
    {
        proof {
            assert(self.exports@.skip(0) =~= self.exports@);
        }
        let mut i: usize = 0;
        while i < self.exports.len()
            invariant
                i <= self.exports@.len(),
                spec_find_export(self.exports@, name@) == spec_find_export(
                    self.exports@.skip(i as int),
                    name@,
                ),
            decreases self.exports@.len() - i,
        {
            proof {
                assert(self.exports@.skip(i as int)[0] == self.exports@[i as int]);
                assert(self.exports@.skip(i as int).drop_first() =~= self.exports@.skip(
                    i as int + 1,
                ));
            }
            if self.exports[i].name().eq(&name) {
                return Some(&self.exports[i]);
            }
            i = i + 1;
        }
        proof {
            assert(self.exports@.skip(i as int) =~= Seq::<ExportInstance>::empty());
        }
        None
    }

    /// The handle of the global exported under `name`: `Ok(None)` when
    /// nothing is exported under the name, and a type mismatch when the
    /// export is not a global.
    pub fn exported_global(&self, name: String) -> (r: DefinedModuleResult<Option<GlobalAddr>>)
        ensures
            match spec_find_export(self.exports@, name@) {
                Some(e) => match e.spec_value() {
                    ExternalValue::Global(addr) => r == Ok::<_, DefinedModuleError>(
                        Some(addr),
                    ),
                    _ => r matches Err(DefinedModuleError::TypeMismatch(expected, actual))
                        && expected@ == "global"@ && actual@ == spec_kind_name(e.spec_value()),
                },
                None => r == Ok::<Option<GlobalAddr>, DefinedModuleError>(None),
            },
    {
        let export = self.exported_by_name(name);
        match export {
            Some(e) => match e.value() {
                ExternalValue::Global(addr) => Ok(Some(addr)),
                _ => {
                    let actual = e.value().ty();
                    Err(DefinedModuleError::TypeMismatch("global", actual.to_owned()))
                },
            },
            None => Ok(None),
        }
    }

    /// The handle of the function exported under `name`, in the same shape
    /// as `exported_global`.
    pub fn exported_func(&self, name: String) -> (r: DefinedModuleResult<Option<FuncAddr>>)
        ensures
            match spec_find_export(self.exports@, name@) {
                Some(e) => match e.spec_value() {
                    ExternalValue::Func(addr) => r == Ok::<_, DefinedModuleError>(Some(addr)),
                    _ => r matches Err(DefinedModuleError::TypeMismatch(expected, actual))
                        && expected@ == "function"@ && actual@ == spec_kind_name(e.spec_value()),
                },
                None => r == Ok::<Option<FuncAddr>, DefinedModuleError>(None),
            },
    {
        let export = self.exported_by_name(name);
        match export {
            Some(e) => match e.value() {
                ExternalValue::Func(addr) => Ok(Some(addr)),
                _ => {
                    let actual = e.value().ty();
                    Err(DefinedModuleError::TypeMismatch("function", actual.to_owned()))
                },
            },
            None => Ok(None),
        }
    }

    /// The handle of the table exported under `name`, in the same shape as
    /// `exported_global`.
    pub fn exported_table(&self, name: String) -> (r: DefinedModuleResult<Option<TableAddr>>)
        ensures
            match spec_find_export(self.exports@, name@) {
                Some(e) => match e.spec_value() {
                    ExternalValue::Table(addr) => r == Ok::<_, DefinedModuleError>(Some(addr)),
                    _ => r matches Err(DefinedModuleError::TypeMismatch(expected, actual))
                        && expected@ == "table"@ && actual@ == spec_kind_name(e.spec_value()),
                },
                None => r == Ok::<Option<TableAddr>, DefinedModuleError>(None),
            },
    {
        let export = self.exported_by_name(name);
        match export {
            Some(e) => match e.value() {
                ExternalValue::Table(addr) => Ok(Some(addr)),
                _ => {
                    let actual = e.value().ty();
                    Err(DefinedModuleError::TypeMismatch("table", actual.to_owned()))
                },
            },
            None => Ok(None),
        }
    }

    /// The handle of the memory exported under `name`, in the same shape as
    /// `exported_global`.
    pub fn exported_memory(&self, name: String) -> (r: DefinedModuleResult<Option<MemoryAddr>>)
        ensures
            match spec_find_export(self.exports@, name@) {
                Some(e) => match e.spec_value() {
                    ExternalValue::Mem(addr) => r == Ok::<_, DefinedModuleError>(Some(addr)),
                    _ => r matches Err(DefinedModuleError::TypeMismatch(expected, actual))
                        && expected@ == "memory"@ && actual@ == spec_kind_name(e.spec_value()),
                },
                None => r == Ok::<Option<MemoryAddr>, DefinedModuleError>(None),
            },
    {
        let export = self.exported_by_name(name);
        match export {
            Some(e) => match e.value() {
                ExternalValue::Mem(addr) => Ok(Some(addr)),
                _ => {
                    let actual = e.value().ty();
                    Err(DefinedModuleError::TypeMismatch("memory", actual.to_owned()))
                },
            },
            None => Ok(None),
        }
    }

    /// The start function handle, if the module declared one.
    pub fn start_func_addr(&self) -> (r: &Option<FuncAddr>)
        ensures
            r == &self.spec_start_func(),
    {
        &self.start_func
    }

    /// The function type at `index` of the type table.
    pub fn get_type(&self, index: usize) -> (r: &FuncType)
        requires
            index < self.spec_types().len(),
        ensures
            r == &self.spec_types()[index as int],
    {
        &self.types[index]
    }

    /// The number of entries of the type table.
    pub fn type_count(&self) -> (r: usize)
        ensures
            r == self.spec_types().len(),
    {
        self.types.len()
    }
}

/// An error raised while resolving a host module's entries.
#[derive(Debug)]
pub enum HostModuleError {
    TypeMismatch(&'static str, String),
}

impl HostModuleError {
    /// The error rendered as one line.
    pub fn message(&self) -> (r: String)
        ensures
            self matches HostModuleError::TypeMismatch(expected, actual) && r@
                == "incompatible import type, expected "@ + expected@ + " but actual "@ + actual@,
    {
        match self {
            HostModuleError::TypeMismatch(expected, actual) => {
                let mut s = String::from_str("incompatible import type, expected ");
                s.append(expected);
                s.append(" but actual ");
                s.append(actual.as_str());
                s
            },
        }
    }
}

pub type HostModuleResult<T> = Result<T, HostModuleError>;

/// The value paired with the first occurrence of `name`, if any.
pub open spec fn spec_assoc_get<V>(s: Seq<(String, V)>, name: Seq<char>) -> Option<V>
    decreases s.len(),
{
    if s.len() == 0 {
        None
    } else if s[0].0@ == name {
        Some(s[0].1)
    } else {
        spec_assoc_get(s.drop_first(), name)
    }
}

/// An embedder-provided module instance: names bound to handles of host
/// entities already installed in the store.
pub struct HostModuleInstance {
    funcs: Vec<(String, ExecutableFuncAddr)>,
    globals: Vec<(String, GlobalAddr)>,
    tables: Vec<(String, TableAddr)>,
    mems: Vec<(String, MemoryAddr)>,
}

impl HostModuleInstance {
    /// The function entries.
    pub closed spec fn spec_funcs(&self) -> Seq<(String, ExecutableFuncAddr)> {
        self.funcs@
    }

    /// The global entries.
    pub closed spec fn spec_globals(&self) -> Seq<(String, GlobalAddr)> {
        self.globals@
    }

    /// The table entries.
    pub closed spec fn spec_tables(&self) -> Seq<(String, TableAddr)> {
        self.tables@
    }

    /// The memory entries.
    pub closed spec fn spec_mems(&self) -> Seq<(String, MemoryAddr)> {
        self.mems@
    }

    /// Creates a host module instance from its name-to-handle bindings.
    pub fn new(
        funcs: Vec<(String, ExecutableFuncAddr)>,
        globals: Vec<(String, GlobalAddr)>,
        tables: Vec<(String, TableAddr)>,
        mems: Vec<(String, MemoryAddr)>,
    ) -> (m: Self)
        ensures
            m.spec_funcs() == funcs@,
            m.spec_globals() == globals@,
            m.spec_tables() == tables@,
            m.spec_mems() == mems@,
    {
        HostModuleInstance { funcs, globals, tables, mems }
    }

    /// The global bound to `name`, if any.
    pub fn global_by_name(&self, name: String) -> (r: HostModuleResult<Option<GlobalAddr>>)
        ensures
            r == Ok::<_, HostModuleError>(spec_assoc_get(self.spec_globals(), name@)),
    {
        Ok(assoc_get_global(&self.globals, &name))
    }

    /// The function bound to `name`, if any.
    pub fn func_by_name(&self, name: String) -> (r: Option<ExecutableFuncAddr>)
        ensures
            r == spec_assoc_get(self.spec_funcs(), name@),
    {
        assoc_get_func(&self.funcs, &name)
    }

    /// The table bound to `name`, if any.
    pub fn table_by_name(&self, name: String) -> (r: HostModuleResult<Option<TableAddr>>)
        ensures
            r == Ok::<_, HostModuleError>(spec_assoc_get(self.spec_tables(), name@)),
    {
        Ok(assoc_get_table(&self.tables, &name))
    }

    /// The memory bound to `name`, if any.
    pub fn memory_by_name(&self, name: String) -> (r: HostModuleResult<Option<MemoryAddr>>)
        ensures
            r == Ok::<_, HostModuleError>(spec_assoc_get(self.spec_mems(), name@)),
    {
        Ok(assoc_get_mem(&self.mems, &name))
    }
}

/// Looks `name` up among the function entries.
fn assoc_get_func(s: &Vec<(String, ExecutableFuncAddr)>, name: &String) -> (r: Option<
    ExecutableFuncAddr,
>)
    ensures
        r == spec_assoc_get(s@, name@),
{
    proof {
        assert(s@.skip(0) =~= s@);
    }
    let mut i: usize = 0;
    while i < s.len()
        invariant
            i <= s@.len(),
            spec_assoc_get(s@, name@) == spec_assoc_get(s@.skip(i as int), name@),
        decreases s@.len() - i,
    {
        proof {
            assert(s@.skip(i as int)[0] == s@[i as int]);
            assert(s@.skip(i as int).drop_first() =~= s@.skip(i as int + 1));
        }
        if s[i].0.eq(name) {
            return Some(s[i].1);
        }
        i = i + 1;
    }
    proof {
        assert(s@.skip(i as int) =~= Seq::<(String, ExecutableFuncAddr)>::empty());
    }
    None
}

/// Looks `name` up among the global entries.
fn assoc_get_global(s: &Vec<(String, GlobalAddr)>, name: &String) -> (r: Option<GlobalAddr>)
    ensures
        r == spec_assoc_get(s@, name@),
{
    proof {
        assert(s@.skip(0) =~= s@);
    }
    let mut i: usize = 0;
    while i < s.len()
        invariant
            i <= s@.len(),
            spec_assoc_get(s@, name@) == spec_assoc_get(s@.skip(i as int), name@),
        decreases s@.len() - i,
    {
        proof {
            assert(s@.skip(i as int)[0] == s@[i as int]);
            assert(s@.skip(i as int).drop_first() =~= s@.skip(i as int + 1));
        }
        if s[i].0.eq(name) {
            return Some(s[i].1);
        }
        i = i + 1;
    }
    proof {
        assert(s@.skip(i as int) =~= Seq::<(String, GlobalAddr)>::empty());
    }
    None
}

/// Looks `name` up among the table entries.
fn assoc_get_table(s: &Vec<(String, TableAddr)>, name: &String) -> (r: Option<TableAddr>)
    ensures
        r == spec_assoc_get(s@, name@),
{
    proof {
        assert(s@.skip(0) =~= s@);
    }
    let mut i: usize = 0;
    while i < s.len()
        invariant
            i <= s@.len(),
            spec_assoc_get(s@, name@) == spec_assoc_get(s@.skip(i as int), name@),
        decreases s@.len() - i,
    {
        proof {
            assert(s@.skip(i as int)[0] == s@[i as int]);
            assert(s@.skip(i as int).drop_first() =~= s@.skip(i as int + 1));
        }
        if s[i].0.eq(name) {
            return Some(s[i].1);
        }
        i = i + 1;
    }
    proof {
        assert(s@.skip(i as int) =~= Seq::<(String, TableAddr)>::empty());
    }
    None
}

/// Looks `name` up among the memory entries.
fn assoc_get_mem(s: &Vec<(String, MemoryAddr)>, name: &String) -> (r: Option<MemoryAddr>)
    ensures
        r == spec_assoc_get(s@, name@),
{
    proof {
        assert(s@.skip(0) =~= s@);
    }
    let mut i: usize = 0;
    while i < s.len()
        invariant
            i <= s@.len(),
            spec_assoc_get(s@, name@) == spec_assoc_get(s@.skip(i as int), name@),
        decreases s@.len() - i,
    {
        proof {
            assert(s@.skip(i as int)[0] == s@[i as int]);
            assert(s@.skip(i as int).drop_first() =~= s@.skip(i as int + 1));
        }
        if s[i].0.eq(name) {
            return Some(s[i].1);
        }
        i = i + 1;
    }
    proof {
        assert(s@.skip(i as int) =~= Seq::<(String, MemoryAddr)>::empty());
    }
    None
}

} // verus!
