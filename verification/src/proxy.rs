//! The request broker of the out-of-process interface.
//!
//! One request comes in, one outcome goes out: either a finished response,
//! or a decision the embedder-facing layer must carry further — an `Init`
//! whose imported functions need remote host bodies, a `CallExported`
//! whose client numbers need coercion to the target's parameter types, or
//! a pause at a breakpoint that hands control to the interactive loop.
//! Every decision is made here; the layer around only moves bytes and
//! coerces numbers.

use vstd::prelude::*;
use crate::address::FuncAddr;
use crate::debugger::{DebuggerState, MainDebugger, PausedReason, RunError, RunResult};
use crate::module::ModuleInstance;
use crate::module_binary::{ImportEntry, ImportKind, ParsedModule};
use crate::rpc::{
    from_vm_wasm_value, BinaryRequestKind, JSNumber, Request, RequestError, Response, TextRequest,
    TextResponse, WasmExport,
};
use crate::trap::Trap;
use crate::types::{ExternalValue, FuncType};
use crate::value::WasmValue;

verus! {

/// One imported function of a module: its providing module name, its field
/// name, and its signature. The embedder-facing layer turns each into a
/// remote host body before instantiation.
pub struct RemoteImportSpec {
    pub module: String,
    pub field: String,
    pub ty: FuncType,
}

/// What handling a request decided: a ready response, or work only the
/// embedder-facing layer can do.
pub enum HandleOutcome {
    Reply(Response),
    InitModule { bytes: Vec<u8> },
    CallExported { addr: FuncAddr, ty: FuncType, args: Vec<JSNumber> },
}

/// The message of a request error.
pub fn request_error_message(e: RequestError) -> (r: String)
    ensures
        e is CallArgumentLengthMismatch ==> r@ == "the argument count differs from the parameter count"@,
        e is UnexpectedCallResult ==> r@ == "a call result arrived with no call outstanding"@,
        e is NoModuleLoaded ==> r@ == "no module is loaded"@,
{
    match e {
        RequestError::CallArgumentLengthMismatch => String::from_str(
            "the argument count differs from the parameter count",
        ),
        RequestError::UnexpectedCallResult => String::from_str(
            "a call result arrived with no call outstanding",
        ),
        RequestError::NoModuleLoaded => String::from_str("no module is loaded"),
    }
}

/// The version of the wire protocol.
pub fn protocol_version() -> (r: String)
    ensures
        r@ == "0.1.0"@,
{
    String::from_str("0.1.0")
}

/// The function imports of a module, in section order.
pub open spec fn spec_func_imports(imports: Seq<ImportEntry>) -> Seq<ImportEntry>
    decreases imports.len(),
{
    if imports.len() == 0 {
        Seq::empty()
    } else {
        let rest = spec_func_imports(imports.drop_first());
        if imports[0].kind is Func {
            seq![imports[0]] + rest
        } else {
            rest
        }
    }
}

/// Taking one more import appends it to the function imports exactly when
/// it is one.
proof fn lemma_func_imports_snoc(imports: Seq<ImportEntry>, k: int)
    requires
        0 <= k < imports.len(),
    ensures
        spec_func_imports(imports.take(k + 1)) == spec_func_imports(imports.take(k)) + (
        if imports[k].kind is Func {
            seq![imports[k]]
        } else {
            Seq::<ImportEntry>::empty()
        }),
    decreases k,
{
    if k == 0 {
        assert(imports.take(1) =~= seq![imports[0]]);
        assert(imports.take(1).drop_first() =~= Seq::<ImportEntry>::empty());
        assert(imports.take(0) =~= Seq::<ImportEntry>::empty());
        if imports[0].kind is Func {
            assert(seq![imports[0]] + Seq::<ImportEntry>::empty() =~= seq![imports[0]]);
            assert(Seq::<ImportEntry>::empty() + seq![imports[0]] =~= seq![imports[0]]);
        } else {
            assert(Seq::<ImportEntry>::empty() + Seq::<ImportEntry>::empty() =~= Seq::<
                ImportEntry,
            >::empty());
        }
    } else {
        lemma_func_imports_snoc(imports.drop_first(), k - 1);
        assert(imports.take(k + 1).drop_first() =~= imports.drop_first().take(k));
        assert(imports.take(k).drop_first() =~= imports.drop_first().take(k - 1));
        assert(imports.take(k + 1)[0] == imports[0]);
        assert(imports.take(k)[0] == imports[0]);
        assert(imports.drop_first()[k - 1] == imports[k]);
        let tail = if imports[k].kind is Func {
            seq![imports[k]]
        } else {
            Seq::<ImportEntry>::empty()
        };
        if imports[0].kind is Func {
            assert(seq![imports[0]] + (spec_func_imports(imports.drop_first().take(k - 1))
                + tail) =~= (seq![imports[0]] + spec_func_imports(
                imports.drop_first().take(k - 1),
            )) + tail);
        }
    }
}

/// Scans the imported functions of a parsed module: each becomes a remote
/// host body on the embedder-facing side. The entries come back one per
/// function import, in section order, carrying that import's module name,
/// field name and declared signature; only a type index past the module's
/// type table fails the scan.
pub fn remote_import_specs(pm: &ParsedModule) -> (r: Result<Vec<RemoteImportSpec>, String>)
    ensures
        match r {
            Ok(v) => v@.len() == spec_func_imports(pm.imports@).len() && (forall|i: int|
                0 <= i < v@.len() ==> (#[trigger] v@[i]).module@ == spec_func_imports(
                    pm.imports@,
                )[i].module@ && v@[i].field@ == spec_func_imports(pm.imports@)[i].field@ && (
                spec_func_imports(pm.imports@)[i].kind matches ImportKind::Func(t) && t
                    < pm.types@.len() && v@[i].ty.params@ == pm.types@[t as int].params@
                    && v@[i].ty.returns@ == pm.types@[t as int].returns@)),
            Err(_) => exists|i: int|
                0 <= i < pm.imports@.len() && ((#[trigger] pm.imports@[i].kind) matches
                    ImportKind::Func(t) && t >= pm.types@.len()),
        },
{
    let mut out: Vec<RemoteImportSpec> = Vec::new();
    let mut k: usize = 0;
    proof {
        assert(pm.imports@.take(0) =~= Seq::<ImportEntry>::empty());
    }
    while k < pm.imports.len()
        invariant
            k <= pm.imports@.len(),
            out@.len() == spec_func_imports(pm.imports@.take(k as int)).len(),
            forall|i: int|
                0 <= i < out@.len() ==> (#[trigger] out@[i]).module@ == spec_func_imports(
                    pm.imports@.take(k as int),
                )[i].module@ && out@[i].field@ == spec_func_imports(
                    pm.imports@.take(k as int),
                )[i].field@ && (spec_func_imports(pm.imports@.take(k as int))[i].kind matches
                    ImportKind::Func(t) && t < pm.types@.len() && out@[i].ty.params@ == pm.types@[
                    t as int
                ].params@ && out@[i].ty.returns@ == pm.types@[t as int].returns@),
        decreases pm.imports@.len() - k,
    {
        proof {
            lemma_func_imports_snoc(pm.imports@, k as int);
        }
        let entry = &pm.imports[k];
        match &entry.kind {
            ImportKind::Func(tyidx) => {
                if (*tyidx as usize) >= pm.types.len() {
                    return Err(String::from_str("the module refers outside its type table"));
                }
                let ty = pm.types[*tyidx as usize].duplicate();
                out.push(
                    RemoteImportSpec {
                        module: entry.module.clone(),
                        field: entry.field.clone(),
                        ty,
                    },
                );
            },
            _ => {},
        }
        k = k + 1;
    }
    proof {
        assert(pm.imports@.take(pm.imports@.len() as int) =~= pm.imports@);
    }
    Ok(out)
}

/// Whether one named export is reported faithfully: the same name, the
/// matching kind, and for a memory the main memory's byte length.
pub open spec fn spec_export_reported(
    w: WasmExport,
    e: crate::types::ExportInstance,
    mem_size: nat,
) -> bool {
    match e.spec_value() {
        ExternalValue::Func(_) => w matches WasmExport::Function { name } && name@
            == e.spec_name(),
        ExternalValue::Mem(_) => w matches WasmExport::Memory { name, memory_size } && name@
            == e.spec_name() && memory_size as nat == mem_size,
        ExternalValue::Global(_) => w matches WasmExport::Global { name } && name@
            == e.spec_name(),
        ExternalValue::Table(_) => w matches WasmExport::Table { name } && name@ == e.spec_name(),
    }
}

/// The byte length of the main module's first memory, zero when none
/// resolves.
pub open spec fn spec_reported_mem_size(dbg: &MainDebugger) -> nat {
    match crate::debugger::spec_main_memory(dbg) {
        Some(mem) => mem.len(),
        None => 0,
    }
}

/// The exports of the main module, with each memory's current byte length,
/// which is always a whole number of pages.
pub fn module_exports(dbg: &MainDebugger) -> (r: Result<Vec<WasmExport>, RequestError>)
    requires
        dbg.wf(),
    ensures
        match r {
            Ok(v) => dbg.main_module matches Some(mi) && (dbg.store.modules@[
                mi.0 as int
            ] matches ModuleInstance::Defined(dm) && v@.len() == dm.exports@.len() && (forall|k: int|
                0 <= k < v@.len() ==> spec_export_reported(
                    #[trigger] v@[k],
                    dm.exports@[k],
                    spec_reported_mem_size(dbg),
                ))) && spec_reported_mem_size(dbg) % 65536 == 0,
            Err(e) => e is NoModuleLoaded && (dbg.main_module is None || dbg.store.modules@[
                dbg.main_module->Some_0.0 as int
            ] is Host),
        },
{
    let mi = match dbg.main_module {
        Some(mi) => mi,
        None => {
            return Err(RequestError::NoModuleLoaded);
        },
    };
    // the memory type's invariant makes any reported length a whole number
    // of pages
    match dbg.store.resolve_mem(mi, 0) {
        Some(slot) => {
            let mref = &dbg.store.mems[slot];
            proof {
                use_type_invariant(mref);
            }
        },
        None => {},
    }
    let mem_len: usize = match dbg.memory() {
        Ok(bytes) => bytes.len(),
        Err(_) => 0,
    };
    match &dbg.store.modules[mi.0 as usize] {
        ModuleInstance::Defined(dm) => {
            let mut out: Vec<WasmExport> = Vec::new();
            let mut k: usize = 0;
            while k < dm.exports.len()
                invariant
                    k <= dm.exports@.len(),
                    out@.len() == k,
                    dbg.wf(),
                    mi.0 < dbg.store.modules@.len(),
                    dbg.store.modules@[mi.0 as int] matches ModuleInstance::Defined(dm2) && dm2
                        == *dm,
                    mem_len as nat == spec_reported_mem_size(dbg),
                    forall|j: int|
                        0 <= j < k ==> spec_export_reported(
                            #[trigger] out@[j],
                            dm.exports@[j],
                            mem_len as nat,
                        ),
                decreases dm.exports@.len() - k,
            {
                let name = dm.exports[k].name().clone();
                match dm.exports[k].value() {
                    ExternalValue::Func(_) => {
                        out.push(WasmExport::Function { name });
                    },
                    ExternalValue::Mem(_) => {
                        out.push(WasmExport::Memory { name, memory_size: mem_len });
                    },
                    ExternalValue::Global(_) => {
                        out.push(WasmExport::Global { name });
                    },
                    ExternalValue::Table(_) => {
                        out.push(WasmExport::Table { name });
                    },
                }
                k = k + 1;
            }
            Ok(out)
        },
        ModuleInstance::Host(_) => Err(RequestError::NoModuleLoaded),
    }
}

/// Builds the message a remote host call sends to the client.
pub fn make_call_host(module: String, field: String, args: &Vec<WasmValue>) -> (r: Result<
    TextResponse,
    Trap,
>)
    ensures
        match r {
            // the message carries the given names and exactly the wire forms
            // of the given values, in order
            Ok(t) => t matches TextResponse::CallHost { module: m2, field: f2, args: wire }
                && m2 == module && f2 == field && wire@.len() == args@.len() && (forall|i: int|
                0 <= i < args@.len() ==> crate::rpc::spec_from_vm(args@[i]) == Some(
                    #[trigger] wire@[i],
                )),
            // only a value with no wire form fails the call
            Err(_) => exists|i: int|
                0 <= i < args@.len() && crate::rpc::spec_from_vm(#[trigger] args@[i]) is None,
        },
{
    let mut wire: Vec<crate::rpc::WasmValue> = Vec::new();
    let mut k: usize = 0;
    while k < args.len()
        invariant
            k <= args@.len(),
            wire@.len() == k,
            forall|i: int|
                0 <= i < k ==> crate::rpc::spec_from_vm(args@[i]) == Some(#[trigger] wire@[i]),
        decreases args@.len() - k,
    {
        match from_vm_wasm_value(&args[k]) {
            Some(w) => {
                wire.push(w);
            },
            None => {
                return Err(
                    Trap::HostFunctionError(
                        String::from_str("a host argument has no wire form"),
                    ),
                );
            },
        }
        k = k + 1;
    }
    Ok(TextResponse::CallHost { module, field, args: wire })
}

/// Handles one request as far as a verified decision can: `Version`,
/// `LoadMemory` and `StoreMemory` are answered here; `Init` and
/// `CallExported` come back as outcomes for the embedder-facing layer; a
/// stray `CallResult` is an error, and every error becomes an `Error`
/// response, keeping the session alive.
pub fn handle_request(dbg: &mut MainDebugger, req: Request) -> (r: HandleOutcome)
    requires
        old(dbg).wf(),
    ensures
        final(dbg).wf(),
        // a version request is answered in place, with nothing changed
        req matches Request::Text(TextRequest::Version) ==> *final(dbg) == *old(dbg) && (
        r matches HandleOutcome::Reply(Response::Text(TextResponse::Version { value })) && value@
            == "0.1.0"@),
        // a binary request hands its bytes to the embedder-facing layer
        req matches Request::Binary(b) ==> *final(dbg) == *old(dbg) && (
        r matches HandleOutcome::InitModule { bytes } && bytes == b.bytes),
        // a stray reply is an error, and the session stays alive
        req matches Request::Text(TextRequest::CallResult { .. }) ==> *final(dbg) == *old(dbg) && (
        r matches HandleOutcome::Reply(Response::Text(TextResponse::Error { .. }))),
        // a call of an export comes back for coercion exactly when the name
        // resolves to a function taking one parameter per given argument
        req matches Request::Text(TextRequest::CallExported { name, args }) ==> *final(dbg) == *old(dbg) && match crate::debugger::spec_lookup_func(&*old(dbg), name@) {
            Some(a) => match crate::store::spec_resolve_func(&old(dbg).store, a) {
                Some(ea) => if crate::store::spec_func_ty(&old(dbg).store, ea).params@.len()
                    == args@.len() {
                    r matches HandleOutcome::CallExported { addr, ty, args: args2 } && addr == a
                        && args2 == args && ty.params@ == crate::store::spec_func_ty(
                        &old(dbg).store,
                        ea,
                    ).params@ && ty.returns@ == crate::store::spec_func_ty(
                        &old(dbg).store,
                        ea,
                    ).returns@
                } else {
                    r matches HandleOutcome::Reply(Response::Text(TextResponse::Error { .. }))
                },
                None => r matches HandleOutcome::Reply(
                    Response::Text(TextResponse::Error { .. }),
                ),
            },
            None => r matches HandleOutcome::Reply(Response::Text(TextResponse::Error { .. })),
        },
        // a memory read is answered with exactly the asked slice when it is
        // in range, and with an error otherwise
        req matches Request::Text(TextRequest::LoadMemory { offset, length }) ==> *final(dbg)
            == *old(dbg) && match crate::debugger::spec_main_memory(&*old(dbg)) {
            Some(mem) => if offset + length <= mem.len() {
                r matches HandleOutcome::Reply(
                    Response::Text(TextResponse::LoadMemoryResult { bytes }),
                ) && bytes@ == mem.subrange(offset as int, offset + length)
            } else {
                r matches HandleOutcome::Reply(Response::Text(TextResponse::Error { .. }))
            },
            None => r matches HandleOutcome::Reply(Response::Text(TextResponse::Error { .. })),
        },
        // a memory write splices the bytes in when in range, and reports an
        // error, changing nothing, otherwise
        req matches Request::Text(TextRequest::StoreMemory { offset, bytes }) ==> final(dbg).main_module == old(dbg).main_module && match crate::debugger::spec_main_memory(
            old(dbg),
        ) {
            Some(mem) => if offset + bytes@.len() <= mem.len() {
                r matches HandleOutcome::Reply(Response::Text(TextResponse::StoreMemoryResult))
                    && crate::debugger::spec_main_memory(&*final(dbg)) == Some(
                    mem.subrange(0, offset as int) + bytes@ + mem.subrange(
                        offset + bytes@.len(),
                        mem.len() as int,
                    ),
                )
            } else {
                r matches HandleOutcome::Reply(Response::Text(TextResponse::Error { .. }))
                    && crate::debugger::spec_main_memory(&*final(dbg)) == Some(mem)
            },
            None => r matches HandleOutcome::Reply(Response::Text(TextResponse::Error { .. })),
        },
{
    match req {
        Request::Binary(breq) => {
            match breq.kind {
                BinaryRequestKind::Init => HandleOutcome::InitModule { bytes: breq.bytes },
            }
        },
        Request::Text(TextRequest::Version) => {
            HandleOutcome::Reply(
                Response::Text(TextResponse::Version { value: protocol_version() }),
            )
        },
        Request::Text(TextRequest::CallResult { .. }) => {
            HandleOutcome::Reply(
                Response::Text(
                    TextResponse::Error {
                        message: request_error_message(RequestError::UnexpectedCallResult),
                    },
                ),
            )
        },
        Request::Text(TextRequest::CallExported { name, args }) => {
            let addr = match dbg.lookup_func(&name) {
                Ok(a) => a,
                Err(m) => {
                    return HandleOutcome::Reply(
                        Response::Text(TextResponse::Error { message: String::from_str(m) }),
                    );
                },
            };
            let ty = match dbg.func_type(addr) {
                Ok(t) => t,
                Err(m) => {
                    return HandleOutcome::Reply(
                        Response::Text(TextResponse::Error { message: String::from_str(m) }),
                    );
                },
            };
            if ty.params.len() != args.len() {
                return HandleOutcome::Reply(
                    Response::Text(
                        TextResponse::Error {
                            message: request_error_message(
                                RequestError::CallArgumentLengthMismatch,
                            ),
                        },
                    ),
                );
            }
            HandleOutcome::CallExported { addr, ty, args }
        },
        Request::Text(TextRequest::LoadMemory { offset, length }) => {
            let mem = match dbg.memory() {
                Ok(m) => m,
                Err(m) => {
                    return HandleOutcome::Reply(
                        Response::Text(TextResponse::Error { message: String::from_str(m) }),
                    );
                },
            };
            if length > mem.len() || offset > mem.len() - length {
                return HandleOutcome::Reply(
                    Response::Text(
                        TextResponse::Error {
                            message: String::from_str("the read falls outside the memory"),
                        },
                    ),
                );
            }
            let mut bytes: Vec<u8> = Vec::new();
            let mut k: usize = 0;
            while k < length
                invariant
                    k <= length,
                    offset + length <= mem@.len(),
                    offset + length <= usize::MAX,
                    bytes@ == mem@.subrange(offset as int, offset + k),
                decreases length - k,
            {
                bytes.push(mem[offset + k]);
                proof {
                    assert(bytes@ =~= mem@.subrange(offset as int, offset + (k + 1)));
                }
                k = k + 1;
            }
            HandleOutcome::Reply(Response::Text(TextResponse::LoadMemoryResult { bytes }))
        },
        Request::Text(TextRequest::StoreMemory { offset, bytes }) => {
            match dbg.write_memory(offset, bytes.as_slice()) {
                Ok(()) => HandleOutcome::Reply(Response::Text(TextResponse::StoreMemoryResult)),
                Err(m) => HandleOutcome::Reply(
                    Response::Text(TextResponse::Error { message: String::from_str(m) }),
                ),
            }
        },
    }
}

/// Finishes an `Init` after the embedder-facing layer has registered the
/// remote host modules: loads the module and enumerates its exports.
pub fn finish_init(dbg: &mut MainDebugger, bytes: &[u8]) -> (r: Response)
    requires
        old(dbg).wf(),
    ensures
        final(dbg).wf(),
        r matches Response::Text(t) ==> (t is Init || t is Error),
        // a successful init installed the module as the main one and names
        // its exports faithfully, memory sizes as whole pages
        r matches Response::Text(TextResponse::Init { exports }) ==> final(dbg).main_module matches Some(mi) && (final(dbg).store.modules@[
            mi.0 as int
        ] matches ModuleInstance::Defined(dm) && exports@.len() == dm.exports@.len() && (forall|k: int|
            0 <= k < exports@.len() ==> spec_export_reported(
                #[trigger] exports@[k],
                dm.exports@[k],
                spec_reported_mem_size(&*final(dbg)),
            )) && spec_reported_mem_size(&*final(dbg)) % 65536 == 0),
{
    match dbg.load_module(bytes) {
        Ok(_) => {},
        Err(m) => {
            return Response::Text(TextResponse::Error { message: m });
        },
    }
    match module_exports(dbg) {
        Ok(exports) => Response::Text(TextResponse::Init { exports }),
        Err(e) => Response::Text(TextResponse::Error { message: request_error_message(e) }),
    }
}

/// What running an exported function left for the client: a response, or a
/// pause that hands control to the interactive loop first.
pub enum CallOutcome {
    Reply(Response),
    Paused,
}

/// Runs an exported function on already-coerced arguments. A finished run
/// answers with its values on the wire; a breakpoint pauses instead, and
/// the interactive loop answers later through `finish_values_response`.
pub fn run_exported(dbg: &mut MainDebugger, addr: FuncAddr, args: Vec<WasmValue>) -> (r:
    CallOutcome)
    requires
        old(dbg).wf(),
    ensures
        final(dbg).wf(),
        final(dbg).main_module == old(dbg).main_module,
        final(dbg).store.modules@ == old(dbg).store.modules@,
        // the client sees the run's values or an error, never silence
        r matches CallOutcome::Reply(Response::Text(t)) ==> (t is CallResult || t is Error),
        // a pause left the machine suspended at a breakpoint for the
        // interactive loop
        r is Paused ==> final(dbg).state matches DebuggerState::Paused(
            PausedReason::HitBreakpoint,
        ),
        // from an idle machine, a reply carrying values carries one wire
        // value per declared result of the target
        (old(dbg).executor.frames@.len() == 0 && old(dbg).executor.stack@.len() == 0)
            ==> match crate::store::spec_resolve_func(&old(dbg).store, addr) {
            Some(ea) => args@.len() == crate::store::spec_func_ty(
                &old(dbg).store,
                ea,
            ).params@.len() ==> (r matches CallOutcome::Reply(
                Response::Text(TextResponse::CallResult { values: wire }),
            ) ==> wire@.len() == crate::store::spec_func_ty(&old(dbg).store, ea).returns@.len()),
            None => r matches CallOutcome::Reply(Response::Text(TextResponse::Error { .. })),
        },
{
    match dbg.execute_func(addr, args) {
        Ok(RunResult::Finish(values)) => CallOutcome::Reply(finish_values_response(&values)),
        Ok(RunResult::Breakpoint) => CallOutcome::Paused,
        Err(RunError::Trap(t)) => {
            let message = match t {
                Trap::HostFunctionError(m) => m,
                Trap::Unreachable => String::from_str("the computation trapped: unreachable"),
                Trap::DivisionByZero => String::from_str("the computation trapped: division by zero"),
                Trap::IntegerOverflow => String::from_str("the computation trapped: integer overflow"),
                Trap::InvalidConversionToInt => String::from_str(
                    "the computation trapped: invalid conversion to integer",
                ),
                Trap::OutOfBoundsMemoryAccess => String::from_str(
                    "the computation trapped: out-of-bounds memory access",
                ),
                Trap::OutOfBoundsTableAccess => String::from_str(
                    "the computation trapped: out-of-bounds table access",
                ),
                Trap::UninitializedElement => String::from_str(
                    "the computation trapped: uninitialized element",
                ),
                Trap::UndefinedElement => String::from_str(
                    "the computation trapped: undefined element",
                ),
                Trap::IndirectCallTypeMismatch => String::from_str(
                    "the computation trapped: indirect call type mismatch",
                ),
                Trap::StackOverflow => String::from_str("the computation trapped: stack overflow"),
            };
            CallOutcome::Reply(Response::Text(TextResponse::Error { message }))
        },
        Err(RunError::Fault(m)) => CallOutcome::Reply(
            Response::Text(TextResponse::Error { message: String::from_str(m) }),
        ),
    }
}

/// Wraps finished values as the client's `CallResult`; a value with no wire
/// form becomes an error response.
pub fn finish_values_response(values: &Vec<WasmValue>) -> (r: Response)
    ensures
        // when every value has a wire form the reply carries them in order;
        // otherwise the reply is an error
        (forall|i: int| 0 <= i < values@.len() ==> crate::rpc::spec_from_vm(#[trigger] values@[i]) is Some)
            ==> (r matches Response::Text(TextResponse::CallResult { values: wire })
            && wire@.len() == values@.len() && (forall|i: int|
            0 <= i < values@.len() ==> crate::rpc::spec_from_vm(values@[i]) == Some(
                #[trigger] wire@[i],
            ))),
        r matches Response::Text(t) ==> (t is CallResult || t is Error),
        r matches Response::Text(TextResponse::CallResult { values: wire }) ==> wire@.len()
            == values@.len(),
{
    let mut wire: Vec<crate::rpc::WasmValue> = Vec::new();
    let mut k: usize = 0;
    while k < values.len()
        invariant
            k <= values@.len(),
            wire@.len() == k,
            forall|i: int|
                0 <= i < k ==> crate::rpc::spec_from_vm(values@[i]) == Some(#[trigger] wire@[i]),
        decreases values@.len() - k,
    {
        match from_vm_wasm_value(&values[k]) {
            Some(w) => {
                wire.push(w);
            },
            None => {
                return Response::Text(
                    TextResponse::Error {
                        message: String::from_str("a result has no wire form"),
                    },
                );
            },
        }
        k = k + 1;
    }
    Response::Text(TextResponse::CallResult { values: wire })
}

} // verus!
