//! The store: the owning registry of everything loaded.
//!
//! Instances live in flat per-kind vectors owned by the store; each module
//! carries link tables from its local index spaces into those vectors, so
//! lookup by handle is constant-time and an import is a link into the
//! exporter's slot, never an owning reference. The store is append-only
//! between resets: a reset releases every module together.

use vstd::prelude::*;
use crate::address::{ExecutableFuncAddr, FuncAddr, GlobalAddr, MemoryAddr, ModuleIndex, TableAddr};
use crate::global::DefinedGlobalInstance;
use crate::host::{HostFuncBody, HostValue};
use crate::inst::Instruction;
use crate::memory::{DefinedMemoryInstance, MAX_PAGES, PAGE_SIZE};
use crate::module::{
    DefinedModuleInstance, HostModuleInstance, ModuleInstance, spec_assoc_get,
};
use crate::module_binary::{
    DataMode, ElemMode, ExportKind, ImportKind, InitExpr, Limits, ParsedModule,
};
use crate::table::DefinedTableInstance;
use crate::types::{ExportInstance, ExternalValue, FuncType};
use crate::value::{ValType, WasmValue};

verus! {

/// A function instance: bytecode of a defined module, or a host behavior.
pub enum FunctionInstance {
    Defined(DefinedFunc),
    Host(HostFuncBody),
}

/// A defined function: signature, owning module, locals prelude, and body.
pub struct DefinedFunc {
    pub ty: FuncType,
    pub module_index: ModuleIndex,
    pub locals: Vec<ValType>,
    pub body: Vec<Instruction>,
}

impl FunctionInstance {
    /// The signature of the instance.
    pub fn get_ty(&self) -> (r: &FuncType)
        ensures
            match self {
                FunctionInstance::Defined(d) => r == &d.ty,
                FunctionInstance::Host(h) => r == &h.spec_ty(),
            },
    {
        match self {
            FunctionInstance::Defined(d) => &d.ty,
            FunctionInstance::Host(h) => h.ty(),
        }
    }
}

/// A data segment instance: its bytes and whether it was dropped.
pub struct DataSegmentInst {
    pub bytes: Vec<u8>,
    pub dropped: bool,
}

/// An element segment instance: its resolved items and whether it was
/// dropped.
pub struct ElemSegmentInst {
    pub items: Vec<Option<FuncAddr>>,
    pub dropped: bool,
}

/// A module's link tables: local index to flat store index, one table per
/// kind.
pub struct ModuleLinks {
    pub funcs: Vec<usize>,
    pub mems: Vec<usize>,
    pub tables: Vec<usize>,
    pub globals: Vec<usize>,
    pub datas: Vec<usize>,
    pub elems: Vec<usize>,
}

/// Whether every link lands inside the respective flat vector.
pub open spec fn link_wf(
    l: &ModuleLinks,
    nf: nat,
    nm: nat,
    nt: nat,
    ng: nat,
    nd: nat,
    ne: nat,
) -> bool {
    &&& forall|i: int| 0 <= i < l.funcs@.len() ==> (#[trigger] l.funcs@[i]) < nf
    &&& forall|i: int| 0 <= i < l.mems@.len() ==> (#[trigger] l.mems@[i]) < nm
    &&& forall|i: int| 0 <= i < l.tables@.len() ==> (#[trigger] l.tables@[i]) < nt
    &&& forall|i: int| 0 <= i < l.globals@.len() ==> (#[trigger] l.globals@[i]) < ng
    &&& forall|i: int| 0 <= i < l.datas@.len() ==> (#[trigger] l.datas@[i]) < nd
    &&& forall|i: int| 0 <= i < l.elems@.len() ==> (#[trigger] l.elems@[i]) < ne
}

/// A link error: an import that cannot be satisfied, or a module the
/// executor refuses to instantiate.
pub enum LinkError {
    TypeMismatch(&'static str, String),
    UnknownImport(String, String),
    MultipleMemories,
    BadModule,
    OutOfBoundsInstantiation,
}

/// The store.
pub struct Store {
    pub modules: Vec<ModuleInstance>,
    pub links: Vec<ModuleLinks>,
    pub module_names: Vec<(String, usize)>,
    pub funcs: Vec<FunctionInstance>,
    pub mems: Vec<DefinedMemoryInstance>,
    pub tables: Vec<DefinedTableInstance>,
    pub globals: Vec<DefinedGlobalInstance>,
    pub datas: Vec<DataSegmentInst>,
    pub elems: Vec<ElemSegmentInst>,
}


/// The flat function slot a handle names: the handle's entry of its
/// module's link table.
pub open spec fn spec_resolve_func(s: &Store, addr: FuncAddr) -> Option<ExecutableFuncAddr> {
    if addr.0.0 < s.links@.len() && addr.1 < s.links@[addr.0.0 as int].funcs@.len() {
        Some(ExecutableFuncAddr(s.links@[addr.0.0 as int].funcs@[addr.1 as int]))
    } else {
        None
    }
}

/// The flat slot of a module's entity at local index `k`, per kind.
pub open spec fn spec_resolve_mem(s: &Store, mi: ModuleIndex, k: usize) -> Option<usize> {
    if mi.0 < s.links@.len() && k < s.links@[mi.0 as int].mems@.len() {
        Some(s.links@[mi.0 as int].mems@[k as int])
    } else {
        None
    }
}

/// The flat slot of a module's table at local index `k`.
pub open spec fn spec_resolve_table(s: &Store, mi: ModuleIndex, k: usize) -> Option<usize> {
    if mi.0 < s.links@.len() && k < s.links@[mi.0 as int].tables@.len() {
        Some(s.links@[mi.0 as int].tables@[k as int])
    } else {
        None
    }
}

/// The flat slot of a module's global at local index `k`.
pub open spec fn spec_resolve_global(s: &Store, mi: ModuleIndex, k: usize) -> Option<usize> {
    if mi.0 < s.links@.len() && k < s.links@[mi.0 as int].globals@.len() {
        Some(s.links@[mi.0 as int].globals@[k as int])
    } else {
        None
    }
}

/// The flat slot of a module's data segment at local index `k`.
pub open spec fn spec_resolve_data(s: &Store, mi: ModuleIndex, k: usize) -> Option<usize> {
    if mi.0 < s.links@.len() && k < s.links@[mi.0 as int].datas@.len() {
        Some(s.links@[mi.0 as int].datas@[k as int])
    } else {
        None
    }
}

/// The flat slot of a module's element segment at local index `k`.
pub open spec fn spec_resolve_elem(s: &Store, mi: ModuleIndex, k: usize) -> Option<usize> {
    if mi.0 < s.links@.len() && k < s.links@[mi.0 as int].elems@.len() {
        Some(s.links@[mi.0 as int].elems@[k as int])
    } else {
        None
    }
}

/// The handle an export entry of the given kind and index names, within
/// the index spaces of module `mi`.
pub open spec fn spec_export_value(kind: ExportKind, index: u32, mi: ModuleIndex) -> ExternalValue {
    match kind {
        ExportKind::Func => ExternalValue::Func(FuncAddr(mi, index as usize)),
        ExportKind::Table => ExternalValue::Table(TableAddr(mi, index as usize)),
        ExportKind::Memory => ExternalValue::Mem(MemoryAddr(mi, index as usize)),
        ExportKind::Global => ExternalValue::Global(GlobalAddr(mi, index as usize)),
    }
}

/// The signature of the function instance in a flat slot.
pub open spec fn spec_func_ty(s: &Store, ea: ExecutableFuncAddr) -> FuncType {
    match s.funcs@[ea.0 as int] {
        FunctionInstance::Defined(d) => d.ty,
        FunctionInstance::Host(h) => h.spec_ty(),
    }
}

impl Store {
    /// Every module has link tables, every link lands in its flat vector,
    /// every name registration names a module, and every memory is
    /// well-formed.
    pub open spec fn wf(&self) -> bool {
        &&& self.modules@.len() == self.links@.len()
        &&& forall|m: int|
            0 <= m < self.links@.len() ==> link_wf(
                #[trigger] &self.links@[m],
                self.funcs@.len(),
                self.mems@.len(),
                self.tables@.len(),
                self.globals@.len(),
                self.datas@.len(),
                self.elems@.len(),
            )
        &&& forall|i: int|
            0 <= i < self.module_names@.len() ==> (#[trigger] self.module_names@[i]).1
                < self.modules@.len()
    }

    /// Creates an empty store.
    pub fn new() -> (s: Self)
        ensures
            s.wf(),
            s.modules@.len() == 0,
    {
        Store {
            modules: Vec::new(),
            links: Vec::new(),
            module_names: Vec::new(),
            funcs: Vec::new(),
            mems: Vec::new(),
            tables: Vec::new(),
            globals: Vec::new(),
            datas: Vec::new(),
            elems: Vec::new(),
        }
    }

    /// Releases every module and instance together.
    pub fn reset_store(&mut self)
        ensures
            final(self).wf(),
            final(self).modules@.len() == 0,
    {
        self.modules = Vec::new();
        self.links = Vec::new();
        self.module_names = Vec::new();
        self.funcs = Vec::new();
        self.mems = Vec::new();
        self.tables = Vec::new();
        self.globals = Vec::new();
        self.datas = Vec::new();
        self.elems = Vec::new();
    }

    /// The number of loaded modules.
    pub fn module_count(&self) -> (r: usize)
        ensures
            r == self.modules@.len(),
    {
        self.modules.len()
    }

    /// Resolves a function handle to its flat slot, through any import
    /// indirections; fails exactly when the handle does not name a slot.
    pub fn resolve_func(&self, addr: FuncAddr) -> (r: Option<ExecutableFuncAddr>)
        requires
            self.wf(),
        ensures
            r == spec_resolve_func(self, addr),
            match r {
                Some(e) => e.0 < self.funcs@.len(),
                None => true,
            },
    {
        let ModuleIndex(mi) = addr.0;
        let fi = addr.1;
        if (mi as usize) < self.links.len() {
            let l = &self.links[mi as usize];
            if fi < l.funcs.len() {
                return Some(ExecutableFuncAddr(l.funcs[fi]));
            }
        }
        None
    }

    /// The flat slot of the module's memory at local index `k`.
    pub fn resolve_mem(&self, mi: ModuleIndex, k: usize) -> (r: Option<usize>)
        requires
            self.wf(),
        ensures
            r == spec_resolve_mem(self, mi, k),
            match r {
                Some(idx) => idx < self.mems@.len(),
                None => true,
            },
    {
        let ModuleIndex(m) = mi;
        if (m as usize) < self.links.len() {
            let l = &self.links[m as usize];
            if k < l.mems.len() {
                return Some(l.mems[k]);
            }
        }
        None
    }

    /// The flat slot of the module's table at local index `k`.
    pub fn resolve_table(&self, mi: ModuleIndex, k: usize) -> (r: Option<usize>)
        requires
            self.wf(),
        ensures
            r == spec_resolve_table(self, mi, k),
            match r {
                Some(idx) => idx < self.tables@.len(),
                None => true,
            },
    {
        let ModuleIndex(m) = mi;
        if (m as usize) < self.links.len() {
            let l = &self.links[m as usize];
            if k < l.tables.len() {
                return Some(l.tables[k]);
            }
        }
        None
    }

    /// The flat slot of the module's global at local index `k`.
    pub fn resolve_global(&self, mi: ModuleIndex, k: usize) -> (r: Option<usize>)
        requires
            self.wf(),
        ensures
            r == spec_resolve_global(self, mi, k),
            match r {
                Some(idx) => idx < self.globals@.len(),
                None => true,
            },
    {
        let ModuleIndex(m) = mi;
        if (m as usize) < self.links.len() {
            let l = &self.links[m as usize];
            if k < l.globals.len() {
                return Some(l.globals[k]);
            }
        }
        None
    }

    /// The flat slot of the module's data segment at local index `k`.
    pub fn resolve_data(&self, mi: ModuleIndex, k: usize) -> (r: Option<usize>)
        requires
            self.wf(),
        ensures
            r == spec_resolve_data(self, mi, k),
            match r {
                Some(idx) => idx < self.datas@.len(),
                None => true,
            },
    {
        let ModuleIndex(m) = mi;
        if (m as usize) < self.links.len() {
            let l = &self.links[m as usize];
            if k < l.datas.len() {
                return Some(l.datas[k]);
            }
        }
        None
    }

    /// The flat slot of the module's element segment at local index `k`.
    pub fn resolve_elem(&self, mi: ModuleIndex, k: usize) -> (r: Option<usize>)
        requires
            self.wf(),
        ensures
            r == spec_resolve_elem(self, mi, k),
            match r {
                Some(idx) => idx < self.elems@.len(),
                None => true,
            },
    {
        let ModuleIndex(m) = mi;
        if (m as usize) < self.links.len() {
            let l = &self.links[m as usize];
            if k < l.elems.len() {
                return Some(l.elems[k]);
            }
        }
        None
    }

    /// How many memories the module's index space holds.
    pub fn memory_count(&self, mi: ModuleIndex) -> (r: usize)
        ensures
            ({
                let m = mi.0 as int;
                if 0 <= m < self.links@.len() {
                    r == self.links@[m].mems@.len()
                } else {
                    r == 0
                }
            }),
    {
        let ModuleIndex(m) = mi;
        if (m as usize) < self.links.len() {
            self.links[m as usize].mems.len()
        } else {
            0
        }
    }

    /// The registered module index under `name`, if any.
    pub fn module_by_name(&self, name: &String) -> (r: Option<usize>)
        requires
            self.wf(),
        ensures
            match r {
                Some(idx) => idx < self.modules@.len(),
                None => spec_assoc_get(self.module_names@, name@) is None,
            },
    {
        let mut i: usize = 0;
        proof {
            assert(self.module_names@.skip(0) =~= self.module_names@);
        }
        while i < self.module_names.len()
            invariant
                self.wf(),
                i <= self.module_names@.len(),
                spec_assoc_get(self.module_names@, name@) == spec_assoc_get(
                    self.module_names@.skip(i as int),
                    name@,
                ),
            decreases self.module_names@.len() - i,
        {
            proof {
                assert(self.module_names@.skip(i as int)[0] == self.module_names@[i as int]);
                assert(self.module_names@.skip(i as int).drop_first() =~= self.module_names@.skip(
                    i as int + 1,
                ));
            }
            if self.module_names[i].0.eq(name) {
                return Some(self.module_names[i].1);
            }
            i = i + 1;
        }
        proof {
            assert(self.module_names@.skip(i as int) =~= Seq::<(String, usize)>::empty());
        }
        None
    }

    /// Evaluates a constant initializer against the module's global link
    /// table.
    fn eval_init_expr(&self, e: InitExpr, lg: &Vec<usize>, mi: ModuleIndex) -> (r: Result<
        WasmValue,
        LinkError,
    >)
        requires
            forall|i: int| 0 <= i < lg@.len() ==> (#[trigger] lg@[i]) < self.globals@.len(),
        ensures
            match e {
                InitExpr::I32Const(v) => r == Ok::<_, LinkError>(WasmValue::I32(v)),
                InitExpr::I64Const(v) => r == Ok::<_, LinkError>(WasmValue::I64(v)),
                InitExpr::F32Const(v) => r == Ok::<_, LinkError>(WasmValue::F32(v)),
                InitExpr::F64Const(v) => r == Ok::<_, LinkError>(WasmValue::F64(v)),
                InitExpr::RefNull(t) => r == Ok::<_, LinkError>(
                    WasmValue::spec_default_for(t),
                ),
                InitExpr::RefFunc(idx) => r == Ok::<_, LinkError>(
                    WasmValue::FuncRef(Some(FuncAddr(mi, idx as usize))),
                ),
                InitExpr::GlobalGet(idx) => if idx < lg@.len() {
                    r == Ok::<_, LinkError>(
                        self.globals@[lg@[idx as int] as int].spec_value(),
                    )
                } else {
                    r is Err
                },
            },
    {
        match e {
            InitExpr::I32Const(v) => Ok(WasmValue::I32(v)),
            InitExpr::I64Const(v) => Ok(WasmValue::I64(v)),
            InitExpr::F32Const(v) => Ok(WasmValue::F32(v)),
            InitExpr::F64Const(v) => Ok(WasmValue::F64(v)),
            InitExpr::RefNull(t) => Ok(WasmValue::default_for(t)),
            InitExpr::RefFunc(idx) => Ok(WasmValue::FuncRef(Some(FuncAddr(mi, idx as usize)))),
            InitExpr::GlobalGet(idx) => {
                if (idx as usize) < lg.len() {
                    Ok(self.globals[lg[idx as usize]].value())
                } else {
                    Err(LinkError::BadModule)
                }
            },
        }
    }

    /// Instantiates a parsed module: resolves its imports against
    /// registered host modules, allocates its defined entities, applies its
    /// active segments, and installs the instance. On failure no new module
    /// becomes visible.
    pub fn load_parsed_module(&mut self, pm: ParsedModule) -> (r: Result<ModuleIndex, LinkError>)
        requires
            old(self).wf(),
            old(self).modules@.len() < u32::MAX,
        ensures
            final(self).wf(),
            match r {
                Ok(mi) => final(self).modules@.len() == old(self).modules@.len() + 1
                    && mi.0 as nat == old(self).modules@.len() && (final(self).modules@[
                    mi.0 as int
                ] matches ModuleInstance::Defined(dm) && {
                    // the installed instance mirrors the parsed skeleton
                    &&& dm.spec_types() == pm.types@
                    &&& dm.exports@.len() == pm.exports@.len()
                    &&& forall|k: int|
                        0 <= k < pm.exports@.len() ==> (#[trigger] dm.exports@[k]).spec_name()
                            == pm.exports@[k].name@ && dm.exports@[k].spec_value()
                            == spec_export_value(pm.exports@[k].kind, pm.exports@[k].index, mi)
                    &&& dm.spec_start_func() == match pm.start {
                        Some(i) => Some(FuncAddr(mi, i as usize)),
                        None => None,
                    }
                }),
                Err(_) => final(self).modules@.len() == old(self).modules@.len(),
            },
    {
        let mi_raw = self.modules.len() as u32;
        let mi = ModuleIndex(mi_raw);
        let mut lf: Vec<usize> = Vec::new();
        let mut lm: Vec<usize> = Vec::new();
        let mut lt: Vec<usize> = Vec::new();
        let mut lg: Vec<usize> = Vec::new();
        let mut ld: Vec<usize> = Vec::new();
        let mut le: Vec<usize> = Vec::new();
        let ParsedModule {
            types,
            imports,
            functions,
            tables,
            memories,
            globals,
            exports,
            start,
            elements,
            data,
            code,
            custom,
        } = pm;
        let _ = custom;
        // imports: each must name a registered module exporting the field
        // with a compatible type
        let mut imports = imports;
        loop
            invariant
                self.wf(),
                self.modules@.len() == old(self).modules@.len(),
                forall|i: int| 0 <= i < lf@.len() ==> (#[trigger] lf@[i]) < self.funcs@.len(),
                forall|i: int| 0 <= i < lm@.len() ==> (#[trigger] lm@[i]) < self.mems@.len(),
                forall|i: int| 0 <= i < lt@.len() ==> (#[trigger] lt@[i]) < self.tables@.len(),
                forall|i: int| 0 <= i < lg@.len() ==> (#[trigger] lg@[i]) < self.globals@.len(),
            decreases imports@.len(),
        {
            if imports.len() == 0 {
                break ;
            }
            let entry = imports.remove(0);
            let midx = match self.module_by_name(&entry.module) {
                Some(x) => x,
                None => {
                    return Err(LinkError::UnknownImport(entry.module, entry.field));
                },
            };
            match &self.modules[midx] {
                ModuleInstance::Host(h) => {
                    match entry.kind {
                        ImportKind::Func(tyidx) => {
                            let ea = h.func_by_name(entry.field.clone());
                            match ea {
                                Some(ExecutableFuncAddr(slot)) => {
                                    if slot >= self.funcs.len() {
                                        return Err(LinkError::BadModule);
                                    }
                                    if (tyidx as usize) >= types.len() {
                                        return Err(LinkError::BadModule);
                                    }
                                    let expected = &types[tyidx as usize];
                                    let actual = self.funcs[slot].get_ty();
                                    if !expected.matches(actual) {
                                        return Err(
                                            LinkError::TypeMismatch(
                                                "function",
                                                String::from_str("function signature differs"),
                                            ),
                                        );
                                    }
                                    lf.push(slot);
                                },
                                None => {
                                    return Err(
                                        LinkError::UnknownImport(entry.module, entry.field),
                                    );
                                },
                            }
                        },
                        ImportKind::Memory(limits) => {
                            let found = match h.memory_by_name(entry.field.clone()) {
                                Ok(x) => x,
                                Err(_) => None,
                            };
                            match found {
                                Some(addr) => {
                                    let slot = match self.resolve_mem(addr.0, addr.1) {
                                        Some(x) => x,
                                        None => {
                                            return Err(LinkError::BadModule);
                                        },
                                    };
                                    let pages = self.mems[slot].page_count();
                                    if pages < limits.min {
                                        return Err(
                                            LinkError::TypeMismatch(
                                                "memory",
                                                String::from_str("memory is below the wanted minimum"),
                                            ),
                                        );
                                    }
                                    let compatible: bool = match limits.max {
                                        None => true,
                                        Some(want_max) => match self.mems[slot].max_pages() {
                                            Some(have_max) => have_max <= want_max,
                                            None => false,
                                        },
                                    };
                                    if !compatible {
                                        return Err(
                                            LinkError::TypeMismatch(
                                                "memory",
                                                String::from_str("memory maximum is incompatible"),
                                            ),
                                        );
                                    }
                                    lm.push(slot);
                                },
                                None => {
                                    return Err(
                                        LinkError::UnknownImport(entry.module, entry.field),
                                    );
                                },
                            }
                        },
                        ImportKind::Table(decl) => {
                            let found = match h.table_by_name(entry.field.clone()) {
                                Ok(x) => x,
                                Err(_) => None,
                            };
                            match found {
                                Some(addr) => {
                                    let slot = match self.resolve_table(addr.0, addr.1) {
                                        Some(x) => x,
                                        None => {
                                            return Err(LinkError::BadModule);
                                        },
                                    };
                                    if (self.tables[slot].len() as u64) < (decl.limits.min as u64) {
                                        return Err(
                                            LinkError::TypeMismatch(
                                                "table",
                                                String::from_str("table is below the wanted minimum"),
                                            ),
                                        );
                                    }
                                    let compatible: bool = match decl.limits.max {
                                        None => true,
                                        Some(want_max) => match self.tables[slot].max_size() {
                                            Some(have_max) => have_max <= want_max,
                                            None => false,
                                        },
                                    };
                                    if !compatible {
                                        return Err(
                                            LinkError::TypeMismatch(
                                                "table",
                                                String::from_str("table maximum is incompatible"),
                                            ),
                                        );
                                    }
                                    lt.push(slot);
                                },
                                None => {
                                    return Err(
                                        LinkError::UnknownImport(entry.module, entry.field),
                                    );
                                },
                            }
                        },
                        ImportKind::Global { ty, mutable } => {
                            let found = match h.global_by_name(entry.field.clone()) {
                                Ok(x) => x,
                                Err(_) => None,
                            };
                            match found {
                                Some(addr) => {
                                    let slot = match self.resolve_global(addr.0, addr.1) {
                                        Some(x) => x,
                                        None => {
                                            return Err(LinkError::BadModule);
                                        },
                                    };
                                    let have = &self.globals[slot];
                                    if have.is_mutable() != mutable || have.value().value_type()
                                        != ty {
                                        return Err(
                                            LinkError::TypeMismatch(
                                                "global",
                                                String::from_str("global type or mutability differs"),
                                            ),
                                        );
                                    }
                                    lg.push(slot);
                                },
                                None => {
                                    return Err(
                                        LinkError::UnknownImport(entry.module, entry.field),
                                    );
                                },
                            }
                        },
                    }
                },
                ModuleInstance::Defined(_) => {
                    return Err(LinkError::UnknownImport(entry.module, entry.field));
                },
            }
        }
        // defined memories: at most one memory in the whole index space
        if memories.len() > 1 || (memories.len() == 1 && lm.len() > 0) || lm.len() > 1 {
            return Err(LinkError::MultipleMemories);
        }
        let mut memories = memories;
        loop
            invariant
                self.wf(),
                self.modules@.len() == old(self).modules@.len(),
                forall|i: int| 0 <= i < lf@.len() ==> (#[trigger] lf@[i]) < self.funcs@.len(),
                forall|i: int| 0 <= i < lm@.len() ==> (#[trigger] lm@[i]) < self.mems@.len(),
                forall|i: int| 0 <= i < lt@.len() ==> (#[trigger] lt@[i]) < self.tables@.len(),
                forall|i: int| 0 <= i < lg@.len() ==> (#[trigger] lg@[i]) < self.globals@.len(),
            decreases memories@.len(),
        {
            if memories.len() == 0 {
                break ;
            }
            let limits = memories.remove(0);
            if limits.min > MAX_PAGES {
                return Err(LinkError::BadModule);
            }
            let ok_max = match limits.max {
                Some(mx) => limits.min <= mx && mx <= MAX_PAGES,
                None => true,
            };
            if !ok_max {
                return Err(LinkError::BadModule);
            }
            if (limits.min as u64) > (usize::MAX / PAGE_SIZE) as u64 {
                return Err(LinkError::BadModule);
            }
            proof {
                assert(limits.min as nat * PAGE_SIZE as nat <= usize::MAX as nat)
                    by (nonlinear_arith)
                    requires
                        limits.min as nat <= (usize::MAX as nat) / (PAGE_SIZE as nat),
                ;
            }
            let inst = DefinedMemoryInstance::new(limits.min, limits.max);
            let slot = self.mems.len();
            self.mems.push(inst);
            lm.push(slot);
        }
        // defined tables
        let mut tables = tables;
        loop
            invariant
                self.wf(),
                self.modules@.len() == old(self).modules@.len(),
                forall|i: int| 0 <= i < lf@.len() ==> (#[trigger] lf@[i]) < self.funcs@.len(),
                forall|i: int| 0 <= i < lm@.len() ==> (#[trigger] lm@[i]) < self.mems@.len(),
                forall|i: int| 0 <= i < lt@.len() ==> (#[trigger] lt@[i]) < self.tables@.len(),
                forall|i: int| 0 <= i < lg@.len() ==> (#[trigger] lg@[i]) < self.globals@.len(),
            decreases tables@.len(),
        {
            if tables.len() == 0 {
                break ;
            }
            let decl = tables.remove(0);
            let inst = DefinedTableInstance::new(decl.limits.min, decl.limits.max);
            let slot = self.tables.len();
            self.tables.push(inst);
            lt.push(slot);
        }
        // defined globals, whose initializers may read imported globals
        let mut globals = globals;
        loop
            invariant
                self.wf(),
                self.modules@.len() == old(self).modules@.len(),
                forall|i: int| 0 <= i < lf@.len() ==> (#[trigger] lf@[i]) < self.funcs@.len(),
                forall|i: int| 0 <= i < lm@.len() ==> (#[trigger] lm@[i]) < self.mems@.len(),
                forall|i: int| 0 <= i < lt@.len() ==> (#[trigger] lt@[i]) < self.tables@.len(),
                forall|i: int| 0 <= i < lg@.len() ==> (#[trigger] lg@[i]) < self.globals@.len(),
            decreases globals@.len(),
        {
            if globals.len() == 0 {
                break ;
            }
            let decl = globals.remove(0);
            let value = match self.eval_init_expr(decl.init, &lg, mi) {
                Ok(v) => v,
                Err(e) => {
                    return Err(e);
                },
            };
            let inst = DefinedGlobalInstance::new(value, decl.mutable);
            let slot = self.globals.len();
            self.globals.push(inst);
            lg.push(slot);
        }
        // defined functions: one body per declared type index
        if functions.len() != code.len() {
            return Err(LinkError::BadModule);
        }
        let mut functions = functions;
        let mut code = code;
        loop
            invariant
                self.wf(),
                self.modules@.len() == old(self).modules@.len(),
                functions@.len() == code@.len(),
                forall|i: int| 0 <= i < lf@.len() ==> (#[trigger] lf@[i]) < self.funcs@.len(),
                forall|i: int| 0 <= i < lm@.len() ==> (#[trigger] lm@[i]) < self.mems@.len(),
                forall|i: int| 0 <= i < lt@.len() ==> (#[trigger] lt@[i]) < self.tables@.len(),
                forall|i: int| 0 <= i < lg@.len() ==> (#[trigger] lg@[i]) < self.globals@.len(),
            decreases functions@.len(),
        {
            if functions.len() == 0 {
                break ;
            }
            let tyidx = functions.remove(0);
            let body = code.remove(0);
            if (tyidx as usize) >= types.len() {
                return Err(LinkError::BadModule);
            }
            let ty = types[tyidx as usize].duplicate();
            let slot = self.funcs.len();
            self.funcs.push(
                FunctionInstance::Defined(
                    DefinedFunc { ty, module_index: mi, locals: body.locals, body: body.insts },
                ),
            );
            lf.push(slot);
        }
        // exports, resolved to handles of this module's index spaces
        let mut exports = exports;
        let mut export_instances: Vec<ExportInstance> = Vec::new();
        proof {
            assert(exports@ =~= pm.exports@.skip(0));
        }
        loop
            invariant
                self.wf(),
                self.modules@.len() == old(self).modules@.len(),
                export_instances@.len() + exports@.len() == pm.exports@.len(),
                exports@ == pm.exports@.skip(export_instances@.len() as int),
                forall|k: int|
                    0 <= k < export_instances@.len() ==> (#[trigger] export_instances@[
                        k
                    ]).spec_name() == pm.exports@[k].name@ && export_instances@[k].spec_value()
                        == spec_export_value(pm.exports@[k].kind, pm.exports@[k].index, mi),
                forall|i: int| 0 <= i < lf@.len() ==> (#[trigger] lf@[i]) < self.funcs@.len(),
                forall|i: int| 0 <= i < lm@.len() ==> (#[trigger] lm@[i]) < self.mems@.len(),
                forall|i: int| 0 <= i < lt@.len() ==> (#[trigger] lt@[i]) < self.tables@.len(),
                forall|i: int| 0 <= i < lg@.len() ==> (#[trigger] lg@[i]) < self.globals@.len(),
            ensures
                exports@.len() == 0,
            decreases exports@.len(),
        {
            if exports.len() == 0 {
                break ;
            }
            let ghost built = export_instances@.len() as int;
            proof {
                assert(pm.exports@.skip(built)[0] == pm.exports@[built]);
                assert(pm.exports@.skip(built).drop_first() =~= pm.exports@.skip(built + 1));
            }
            let entry = exports.remove(0);
            let idx = entry.index as usize;
            let value = match entry.kind {
                ExportKind::Func => {
                    if idx >= lf.len() {
                        return Err(LinkError::BadModule);
                    }
                    ExternalValue::Func(FuncAddr(mi, idx))
                },
                ExportKind::Table => {
                    if idx >= lt.len() {
                        return Err(LinkError::BadModule);
                    }
                    ExternalValue::Table(TableAddr(mi, idx))
                },
                ExportKind::Memory => {
                    if idx >= lm.len() {
                        return Err(LinkError::BadModule);
                    }
                    ExternalValue::Mem(MemoryAddr(mi, idx))
                },
                ExportKind::Global => {
                    if idx >= lg.len() {
                        return Err(LinkError::BadModule);
                    }
                    ExternalValue::Global(GlobalAddr(mi, idx))
                },
            };
            export_instances.push(ExportInstance::new(entry.name, value));
        }
        proof {
            assert(export_instances@.len() == pm.exports@.len());
        }
        // the start function must be a declared function
        let start_addr = match start {
            Some(idx) => {
                if (idx as usize) >= lf.len() {
                    return Err(LinkError::BadModule);
                }
                Some(FuncAddr(mi, idx as usize))
            },
            None => None,
        };
        // element segments: active ones are applied now and retired
        let mut elements = elements;
        loop
            invariant
                self.wf(),
                self.modules@.len() == old(self).modules@.len(),
                forall|i: int| 0 <= i < lf@.len() ==> (#[trigger] lf@[i]) < self.funcs@.len(),
                forall|i: int| 0 <= i < lm@.len() ==> (#[trigger] lm@[i]) < self.mems@.len(),
                forall|i: int| 0 <= i < lt@.len() ==> (#[trigger] lt@[i]) < self.tables@.len(),
                forall|i: int| 0 <= i < lg@.len() ==> (#[trigger] lg@[i]) < self.globals@.len(),
                forall|i: int| 0 <= i < ld@.len() ==> (#[trigger] ld@[i]) < self.datas@.len(),
                forall|i: int| 0 <= i < le@.len() ==> (#[trigger] le@[i]) < self.elems@.len(),
            decreases elements@.len(),
        {
            if elements.len() == 0 {
                break ;
            }
            let seg = elements.remove(0);
            let mut items: Vec<Option<FuncAddr>> = Vec::new();
            let mut raw = seg.items;
            loop
                invariant_except_break
                    true,
                decreases raw@.len(),
            {
                if raw.len() == 0 {
                    break ;
                }
                let fi = raw.remove(0);
                items.push(Some(FuncAddr(mi, fi as usize)));
            }
            match seg.mode {
                ElemMode::Active { table, offset } => {
                    if (table as usize) >= lt.len() {
                        return Err(LinkError::BadModule);
                    }
                    let slot = lt[table as usize];
                    let off_val = match self.eval_init_expr(offset, &lg, mi) {
                        Ok(WasmValue::I32(v)) => v as u32,
                        Ok(_) => {
                            return Err(LinkError::BadModule);
                        },
                        Err(e) => {
                            return Err(e);
                        },
                    };
                    let table_len = self.tables[slot].len();
                    if items.len() > table_len || (off_val as usize) > table_len - items.len() {
                        return Err(LinkError::OutOfBoundsInstantiation);
                    }
                    let mut k: usize = 0;
                    while k < items.len()
                        invariant
                            self.wf(),
                            self.modules@.len() == old(self).modules@.len(),
                            slot < self.tables@.len(),
                            k <= items@.len(),
                            off_val as nat + items@.len() <= self.tables@[slot as int].view().len(),
                            off_val as nat + items@.len() <= usize::MAX,
                            forall|i: int| 0 <= i < lf@.len() ==> (#[trigger] lf@[i]) < self.funcs@.len(),
                            forall|i: int| 0 <= i < lm@.len() ==> (#[trigger] lm@[i]) < self.mems@.len(),
                            forall|i: int| 0 <= i < lt@.len() ==> (#[trigger] lt@[i]) < self.tables@.len(),
                            forall|i: int| 0 <= i < lg@.len() ==> (#[trigger] lg@[i]) < self.globals@.len(),
                            forall|i: int| 0 <= i < ld@.len() ==> (#[trigger] ld@[i]) < self.datas@.len(),
                            forall|i: int| 0 <= i < le@.len() ==> (#[trigger] le@[i]) < self.elems@.len(),
                        decreases items@.len() - k,
                    {
                        let ghost pre_tables = self.tables@;
                        let tref = &mut self.tables[slot];
                        let res = tref.set(off_val as usize + k, items[k]);
                        proof {
                            assert(self.tables@.len() == pre_tables.len());
                            assert(self.tables@[slot as int].view().len()
                                == pre_tables[slot as int].view().len());
                        }
                        if res.is_err() {
                            return Err(LinkError::OutOfBoundsInstantiation);
                        }
                        k = k + 1;
                    }
                    let eslot = self.elems.len();
                    self.elems.push(ElemSegmentInst { items: Vec::new(), dropped: true });
                    le.push(eslot);
                },
                ElemMode::Passive => {
                    let eslot = self.elems.len();
                    self.elems.push(ElemSegmentInst { items, dropped: false });
                    le.push(eslot);
                },
            }
        }
        // data segments: active ones are written to memory now and retired
        let mut data = data;
        loop
            invariant
                self.wf(),
                self.modules@.len() == old(self).modules@.len(),
                forall|i: int| 0 <= i < lf@.len() ==> (#[trigger] lf@[i]) < self.funcs@.len(),
                forall|i: int| 0 <= i < lm@.len() ==> (#[trigger] lm@[i]) < self.mems@.len(),
                forall|i: int| 0 <= i < lt@.len() ==> (#[trigger] lt@[i]) < self.tables@.len(),
                forall|i: int| 0 <= i < lg@.len() ==> (#[trigger] lg@[i]) < self.globals@.len(),
                forall|i: int| 0 <= i < ld@.len() ==> (#[trigger] ld@[i]) < self.datas@.len(),
                forall|i: int| 0 <= i < le@.len() ==> (#[trigger] le@[i]) < self.elems@.len(),
            decreases data@.len(),
        {
            if data.len() == 0 {
                break ;
            }
            let seg = data.remove(0);
            match seg.mode {
                DataMode::Active { memory, offset } => {
                    if (memory as usize) >= lm.len() {
                        return Err(LinkError::BadModule);
                    }
                    let slot = lm[memory as usize];
                    let off_val = match self.eval_init_expr(offset, &lg, mi) {
                        Ok(WasmValue::I32(v)) => v as u32,
                        Ok(_) => {
                            return Err(LinkError::BadModule);
                        },
                        Err(e) => {
                            return Err(e);
                        },
                    };
                    let ghost pre_mems = self.mems@;
                    let mref = &mut self.mems[slot];
                    let res = mref.store_bytes(off_val as usize, seg.bytes.as_slice());
                    proof {
                        assert(self.mems@.len() == pre_mems.len());
                    }
                    if res.is_err() {
                        return Err(LinkError::OutOfBoundsInstantiation);
                    }
                    let dslot = self.datas.len();
                    self.datas.push(DataSegmentInst { bytes: Vec::new(), dropped: true });
                    ld.push(dslot);
                },
                DataMode::Passive => {
                    let dslot = self.datas.len();
                    self.datas.push(DataSegmentInst { bytes: seg.bytes, dropped: false });
                    ld.push(dslot);
                },
            }
        }
        // install the instance and its link tables
        let instance = DefinedModuleInstance::new(types, export_instances, start_addr);
        self.modules.push(ModuleInstance::Defined(instance));
        self.links.push(
            ModuleLinks { funcs: lf, mems: lm, tables: lt, globals: lg, datas: ld, elems: le },
        );
        Ok(mi)
    }

    /// Registers an embedder-provided module under `name`: installs each
    /// entity into the store and binds the names to the new handles.
    pub fn load_host_module(&mut self, name: String, values: Vec<(String, HostValue)>) -> (r:
        ModuleIndex)
        requires
            old(self).wf(),
            old(self).modules@.len() < u32::MAX,
        ensures
            final(self).wf(),
            final(self).modules@.len() == old(self).modules@.len() + 1,
            r.0 as nat == old(self).modules@.len(),
            // the registration binds the module name to the new index, and
            // every function binding names an installed host instance
            final(self).module_names@ == old(self).module_names@.push((name, r.0 as usize)),
            final(self).modules@[r.0 as int] matches ModuleInstance::Host(h) && forall|j: int|
                0 <= j < h.spec_funcs().len() ==> (#[trigger] h.spec_funcs()[j]).1.0 < final(self).funcs@.len() && final(self).funcs@[h.spec_funcs()[j].1.0 as int] is Host,
    {
        let mi = self.modules.len() as u32;
        let mut funcs: Vec<(String, ExecutableFuncAddr)> = Vec::new();
        let mut globals: Vec<(String, GlobalAddr)> = Vec::new();
        let mut tables: Vec<(String, TableAddr)> = Vec::new();
        let mut mems: Vec<(String, MemoryAddr)> = Vec::new();
        let mut lf: Vec<usize> = Vec::new();
        let mut lm: Vec<usize> = Vec::new();
        let mut lt: Vec<usize> = Vec::new();
        let mut lg: Vec<usize> = Vec::new();
        let mut vs = values;
        loop
            invariant
                self.wf(),
                self.modules@.len() == old(self).modules@.len(),
                self.module_names@ == old(self).module_names@,
                forall|i: int| 0 <= i < lf@.len() ==> (#[trigger] lf@[i]) < self.funcs@.len(),
                forall|i: int| 0 <= i < lm@.len() ==> (#[trigger] lm@[i]) < self.mems@.len(),
                forall|i: int| 0 <= i < lt@.len() ==> (#[trigger] lt@[i]) < self.tables@.len(),
                forall|i: int| 0 <= i < lg@.len() ==> (#[trigger] lg@[i]) < self.globals@.len(),
                forall|j: int|
                    0 <= j < funcs@.len() ==> (#[trigger] funcs@[j]).1.0 < self.funcs@.len()
                        && self.funcs@[funcs@[j].1.0 as int] is Host,
            decreases vs@.len(),
        {
            if vs.len() == 0 {
                break ;
            }
            let (field, value) = vs.remove(0);
            match value {
                HostValue::Func(body) => {
                    let slot = self.funcs.len();
                    self.funcs.push(FunctionInstance::Host(body));
                    funcs.push((field, ExecutableFuncAddr(slot)));
                    lf.push(slot);
                },
                HostValue::Global(g) => {
                    let slot = self.globals.len();
                    self.globals.push(g);
                    globals.push((field, GlobalAddr(ModuleIndex(mi), lg.len())));
                    lg.push(slot);
                },
                HostValue::Mem(m) => {
                    let slot = self.mems.len();
                    self.mems.push(m);
                    mems.push((field, MemoryAddr(ModuleIndex(mi), lm.len())));
                    lm.push(slot);
                },
                HostValue::Table(t) => {
                    let slot = self.tables.len();
                    self.tables.push(t);
                    tables.push((field, TableAddr(ModuleIndex(mi), lt.len())));
                    lt.push(slot);
                },
            }
        }
        let instance = HostModuleInstance::new(funcs, globals, tables, mems);
        self.modules.push(ModuleInstance::Host(instance));
        self.links.push(
            ModuleLinks {
                funcs: lf,
                mems: lm,
                tables: lt,
                globals: lg,
                datas: Vec::new(),
                elems: Vec::new(),
            },
        );
        self.module_names.push((name, mi as usize));
        ModuleIndex(mi)
    }
}

} // verus!
