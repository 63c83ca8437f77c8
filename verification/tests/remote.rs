//! The proxy layer: wire-value round trips and the full request exchange of
//! a remote session, with the transport scripted in place.

use std::cell::RefCell;
use std::rc::Rc;

use wasminspect::debugger::MainDebugger;
use wasminspect::host::{HostCode, HostContext, HostFuncBody, HostValue};
use wasminspect::leb::encode_u32;
use wasminspect::proxy::{
    finish_init, handle_request, make_call_host, run_exported, CallOutcome, HandleOutcome,
};
use wasminspect::rpc;
use wasminspect::rpc::{
    from_vm_wasm_value, to_vm_wasm_value, BinaryRequest, BinaryRequestKind, Request, Response,
    TextRequest, TextResponse, WasmExport,
};
use wasminspect::trap::Trap;
use wasminspect::value::WasmValue;

#[test]
fn wire_values_round_trip_on_integers_and_bit_identically_on_floats() {
    let values = vec![
        WasmValue::I32(0),
        WasmValue::I32(-1),
        WasmValue::I32(i32::MIN),
        WasmValue::I64(i64::MAX),
        WasmValue::F32(0x7FC0_0000),          // a quiet-NaN pattern survives verbatim
        WasmValue::F64(0x7FF8_0000_0000_0001),
    ];
    for v in values {
        let w = from_vm_wasm_value(&v).expect("numeric values have a wire form");
        assert_eq!(to_vm_wasm_value(&w), v);
    }
    // references have no wire form
    assert!(from_vm_wasm_value(&WasmValue::FuncRef(None)).is_none());
}

#[test]
fn wire_values_put_back_on_the_wire_are_reproduced() {
    let wires = vec![
        rpc::WasmValue::I32 { value: 7 },
        rpc::WasmValue::I64 { value: -7 },
        rpc::WasmValue::F32 { value: 0x3F80_0000 },
        rpc::WasmValue::F64 { value: 0x3FF0_0000_0000_0000 },
    ];
    for w in wires {
        assert_eq!(from_vm_wasm_value(&to_vm_wasm_value(&w)), Some(w));
    }
}

fn section(id: u8, payload: &[u8], out: &mut Vec<u8>) {
    out.push(id);
    encode_u32(payload.len() as u32, out);
    out.extend_from_slice(payload);
}

fn module(sections: &[(u8, Vec<u8>)]) -> Vec<u8> {
    let mut out = vec![0x00, 0x61, 0x73, 0x6D, 0x01, 0x00, 0x00, 0x00];
    for (id, payload) in sections {
        section(*id, payload, &mut out);
    }
    out
}

fn drive_module() -> Vec<u8> {
    module(&[
        (1, vec![0x02, 0x60, 0x01, 0x7F, 0x00, 0x60, 0x00, 0x00]),
        (
            2,
            vec![
                0x01, 0x03, b'e', b'n', b'v', 0x03, b'l', b'o', b'g', 0x00, 0x00,
            ],
        ),
        (3, vec![0x01, 0x01]),
        (7, vec![0x01, 0x05, b'd', b'r', b'i', b'v', b'e', 0x00, 0x01]),
        (
            10,
            vec![
                0x01, 0x0A, 0x00, 0x41, 0x07, 0x10, 0x00, 0x41, 0x0B, 0x10, 0x00, 0x0B,
            ],
        ),
    ])
}

/// A remote host body with the transport scripted in place: each call sends
/// a `CallHost` message and takes the next scripted client reply.
struct ScriptedRemote {
    module: String,
    field: String,
    sent: Rc<RefCell<Vec<TextResponse>>>,
    replies: Rc<RefCell<Vec<Vec<WasmValue>>>>,
}

impl HostCode for ScriptedRemote {
    fn call(
        &self,
        args: &Vec<WasmValue>,
        results: &mut Vec<WasmValue>,
        _ctx: &mut HostContext,
    ) -> Result<(), Trap> {
        let msg = make_call_host(self.module.clone(), self.field.clone(), args)?;
        self.sent.borrow_mut().push(msg);
        let mut replies = self.replies.borrow_mut();
        if replies.is_empty() {
            return Err(Trap::HostFunctionError(
                "unexpected end of message".to_string(),
            ));
        }
        let reply = replies.remove(0);
        *results = reply;
        Ok(())
    }
}

#[test]
fn a_remote_session_runs_init_and_call_exported_in_order() {
    let bytes = drive_module();
    let mut dbg = MainDebugger::new();

    // the client sends Init with the module bytes
    let outcome = handle_request(
        &mut dbg,
        Request::Binary(BinaryRequest { kind: BinaryRequestKind::Init, bytes: bytes.clone() }),
    );
    let init_bytes = match outcome {
        HandleOutcome::InitModule { bytes } => bytes,
        _ => panic!("an init must come back for the embedder-facing layer"),
    };

    // the embedder-facing layer builds a remote host body per imported function
    let pm = wasminspect::module_binary::parse_module(&init_bytes).expect("the module parses");
    let specs = wasminspect::proxy::remote_import_specs(&pm).expect("the imports must scan");
    assert_eq!(specs.len(), 1);
    let sent = Rc::new(RefCell::new(Vec::new()));
    let replies = Rc::new(RefCell::new(vec![Vec::new(), Vec::new()]));
    let mut host_values = Vec::new();
    for spec in specs {
        assert_eq!(spec.module, "env");
        assert_eq!(spec.field, "log");
        let remote = ScriptedRemote {
            module: spec.module.clone(),
            field: spec.field.clone(),
            sent: sent.clone(),
            replies: replies.clone(),
        };
        host_values.push((spec.field, HostValue::Func(HostFuncBody::new(spec.ty, Box::new(remote)))));
    }
    dbg.load_host_module("env".to_string(), host_values)
        .expect("the host module registers");

    // the server finishes the init and names the exports
    let reply = finish_init(&mut dbg, &init_bytes);
    match reply {
        Response::Text(TextResponse::Init { exports }) => {
            assert_eq!(exports.len(), 1);
            match &exports[0] {
                WasmExport::Function { name } => assert_eq!(name, "drive"),
                _ => panic!("the one export is a function"),
            }
        },
        _ => panic!("the init must succeed"),
    }

    // the client calls the export; its arguments need no coercion
    let outcome = handle_request(
        &mut dbg,
        Request::Text(TextRequest::CallExported { name: "drive".to_string(), args: Vec::new() }),
    );
    let (addr, _ty, raw_args) = match outcome {
        HandleOutcome::CallExported { addr, ty, args } => (addr, ty, args),
        _ => panic!("the call must come back for coercion"),
    };
    assert_eq!(raw_args.len(), 0);
    let call_reply = match run_exported(&mut dbg, addr, Vec::new()) {
        CallOutcome::Reply(r) => r,
        CallOutcome::Paused => panic!("nothing suspends this run"),
    };
    match call_reply {
        Response::Text(TextResponse::CallResult { values }) => assert_eq!(values.len(), 0),
        _ => panic!("the call must answer with its values"),
    }

    // the host calls went to the client in program order
    let sent = sent.borrow();
    assert_eq!(sent.len(), 2);
    match &sent[0] {
        TextResponse::CallHost { module, field, args } => {
            assert_eq!(module, "env");
            assert_eq!(field, "log");
            assert_eq!(args, &vec![rpc::WasmValue::I32 { value: 7 }]);
        },
        _ => panic!("the first message is a host call"),
    }
    match &sent[1] {
        TextResponse::CallHost { args, .. } => {
            assert_eq!(args, &vec![rpc::WasmValue::I32 { value: 11 }]);
        },
        _ => panic!("the second message is a host call"),
    }
}

#[test]
fn version_load_memory_and_store_memory_are_answered_in_place() {
    let bytes = module(&[
        (1, vec![0x01, 0x60, 0x00, 0x00]),
        (3, vec![0x01, 0x00]),
        (5, vec![0x01, 0x00, 0x01]),
        (7, vec![0x01, 0x01, b'f', 0x00, 0x00]),
        (10, vec![0x01, 0x03, 0x00, 0x00, 0x0B]),
    ]);
    let mut dbg = MainDebugger::new();
    dbg.load_module(&bytes).expect("the module must load");

    match handle_request(&mut dbg, Request::Text(TextRequest::Version)) {
        HandleOutcome::Reply(Response::Text(TextResponse::Version { value })) => {
            assert_eq!(value, "0.1.0")
        },
        _ => panic!("the version is answered in place"),
    }
    match handle_request(
        &mut dbg,
        Request::Text(TextRequest::StoreMemory { offset: 8, bytes: vec![5, 6, 7] }),
    ) {
        HandleOutcome::Reply(Response::Text(TextResponse::StoreMemoryResult)) => {},
        _ => panic!("the store is answered in place"),
    }
    match handle_request(
        &mut dbg,
        Request::Text(TextRequest::LoadMemory { offset: 7, length: 5 }),
    ) {
        HandleOutcome::Reply(Response::Text(TextResponse::LoadMemoryResult { bytes })) => {
            assert_eq!(bytes, vec![0, 5, 6, 7, 0]);
        },
        _ => panic!("the load is answered in place"),
    }
    // a stray CallResult is an error, and the session stays alive
    match handle_request(
        &mut dbg,
        Request::Text(TextRequest::CallResult { values: Vec::new() }),
    ) {
        HandleOutcome::Reply(Response::Text(TextResponse::Error { .. })) => {},
        _ => panic!("the stray reply is an error"),
    }
}

#[test]
fn a_call_with_the_wrong_argument_count_is_refused_in_place() {
    let bytes = drive_module();
    let mut dbg = MainDebugger::new();
    let pm = wasminspect::module_binary::parse_module(&bytes).expect("the module parses");
    let specs = wasminspect::proxy::remote_import_specs(&pm).expect("the imports must scan");
    let sent = Rc::new(RefCell::new(Vec::new()));
    let replies = Rc::new(RefCell::new(vec![Vec::new(), Vec::new()]));
    let mut host_values = Vec::new();
    for spec in specs {
        let remote = ScriptedRemote {
            module: spec.module.clone(),
            field: spec.field.clone(),
            sent: sent.clone(),
            replies: replies.clone(),
        };
        host_values.push((spec.field, HostValue::Func(HostFuncBody::new(spec.ty, Box::new(remote)))));
    }
    dbg.load_host_module("env".to_string(), host_values)
        .expect("the host module registers");
    dbg.load_module(&bytes).expect("the module must load");
    // drive takes no parameters; one argument is a length mismatch
    match handle_request(
        &mut dbg,
        Request::Text(TextRequest::CallExported { name: "drive".to_string(), args: vec![7] }),
    ) {
        HandleOutcome::Reply(Response::Text(TextResponse::Error { message })) => {
            assert_eq!(message, "the argument count differs from the parameter count");
        },
        _ => panic!("the mismatch is refused in place"),
    }
    // and an unknown export likewise
    match handle_request(
        &mut dbg,
        Request::Text(TextRequest::CallExported { name: "absent".to_string(), args: Vec::new() }),
    ) {
        HandleOutcome::Reply(Response::Text(TextResponse::Error { .. })) => {},
        _ => panic!("the unknown name is refused in place"),
    }
}

#[test]
fn import_scanning_refuses_a_type_index_past_the_table() {
    // an import section naming type index 5 with a one-entry type table
    let bytes = module(&[
        (1, vec![0x01, 0x60, 0x00, 0x00]),
        (
            2,
            vec![
                0x01, 0x03, b'e', b'n', b'v', 0x03, b'l', b'o', b'g', 0x00, 0x05,
            ],
        ),
    ]);
    let pm = wasminspect::module_binary::parse_module(&bytes).expect("the module parses");
    assert!(wasminspect::proxy::remote_import_specs(&pm).is_err());
}
