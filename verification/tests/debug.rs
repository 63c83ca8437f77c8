//! The debugger control surface: breakpoints, stepping, and host functions
//! observed from outside.

use std::cell::RefCell;
use std::rc::Rc;

use wasminspect::debugger::{Breakpoint, MainDebugger, RunResult, StepStyle};
use wasminspect::host::{HostCode, HostContext, HostFuncBody, HostValue};
use wasminspect::leb::encode_u32;
use wasminspect::trap::Trap;
use wasminspect::types::FuncType;
use wasminspect::value::{ValType, WasmValue};

fn section(id: u8, payload: &[u8], out: &mut Vec<u8>) {
    out.push(id);
    encode_u32(payload.len() as u32, out);
    out.extend_from_slice(payload);
}

fn module(sections: &[(u8, Vec<u8>)]) -> Vec<u8> {
    let mut out = vec![0x00, 0x61, 0x73, 0x6D, 0x01, 0x00, 0x00, 0x00];
    for (id, payload) in sections {
        section(*id, payload, &mut out);
    }
    out
}

/// (func (export "main") (param i32) (result i32)
///     local.get 0  i32.const 1  i32.add)
fn main_module() -> Vec<u8> {
    module(&[
        (1, vec![0x01, 0x60, 0x01, 0x7F, 0x01, 0x7F]),
        (3, vec![0x01, 0x00]),
        (7, vec![0x01, 0x04, b'm', b'a', b'i', b'n', 0x00, 0x00]),
        (10, vec![0x01, 0x07, 0x00, 0x20, 0x00, 0x41, 0x01, 0x6A, 0x0B]),
    ])
}

#[test]
fn breakpoint_suspends_before_the_first_instruction() {
    let mut dbg = MainDebugger::new();
    dbg.load_module(&main_module()).expect("the module must load");
    dbg.set_breakpoint(Breakpoint::Function { name: "main".to_string() });
    let addr = dbg.lookup_func(&"main".to_string()).expect("the export must exist");
    let r = dbg.execute_func(addr, vec![WasmValue::I32(5)]);
    match r {
        Ok(RunResult::Breakpoint) => {},
        _ => panic!("the run must suspend at the breakpoint"),
    }
    // the innermost frame reports the declared parameter count
    let frame = dbg.current_frame().expect("a frame is live");
    assert_eq!(frame.argument_count, 1);
    // no instruction ran yet
    let (_insts, pc) = dbg.instructions().expect("a body is live");
    assert_eq!(pc, 0);
}

#[test]
fn step_inst_in_executes_exactly_one_instruction() {
    let mut dbg = MainDebugger::new();
    dbg.load_module(&main_module()).expect("the module must load");
    dbg.set_breakpoint(Breakpoint::Function { name: "main".to_string() });
    let addr = dbg.lookup_func(&"main".to_string()).expect("the export must exist");
    dbg.execute_func(addr, vec![WasmValue::I32(5)]).expect("suspends");
    dbg.step(StepStyle::StepInstIn).expect("one step");
    let (_insts, pc) = dbg.instructions().expect("a body is live");
    assert_eq!(pc, 1);
    // the local was pushed by that one instruction
    assert_eq!(dbg.stack_values(), vec![WasmValue::I32(5)]);
    assert_eq!(dbg.locals(), vec![WasmValue::I32(5)]);
    // continuing finishes the call
    match dbg.process() {
        Ok(RunResult::Finish(values)) => assert_eq!(values, vec![WasmValue::I32(6)]),
        _ => panic!("the continuation must finish"),
    }
}

/// (func $g (result i32) i32.const 7)
/// (func (export "h") (result i32) call $g  i32.const 3  i32.add)
fn call_module() -> Vec<u8> {
    module(&[
        (1, vec![0x01, 0x60, 0x00, 0x01, 0x7F]),
        (3, vec![0x02, 0x00, 0x00]),
        (7, vec![0x01, 0x01, b'h', 0x00, 0x01]),
        (
            10,
            vec![
                0x02, // two bodies
                0x04, 0x00, 0x41, 0x07, 0x0B, // g: i32.const 7
                0x07, 0x00, 0x10, 0x00, 0x41, 0x03, 0x6A, 0x0B, // h
            ],
        ),
    ])
}

#[test]
fn step_over_a_direct_call_lands_after_it_with_the_result_on_the_stack() {
    let mut dbg = MainDebugger::new();
    dbg.load_module(&call_module()).expect("the module must load");
    dbg.set_breakpoint(Breakpoint::Function { name: "h".to_string() });
    let addr = dbg.lookup_func(&"h".to_string()).expect("the export must exist");
    dbg.execute_func(addr, Vec::new()).expect("suspends");
    let depth_at_entry = dbg.frame().len();
    dbg.step(StepStyle::StepInstOver).expect("a step across the call");
    // back in h, right after the call, with the call's result on the stack
    let (_insts, pc) = dbg.instructions().expect("a body is live");
    assert_eq!(pc, 1);
    assert_eq!(dbg.stack_values(), vec![WasmValue::I32(7)]);
    assert_eq!(dbg.frame().len(), depth_at_entry);
    match dbg.process() {
        Ok(RunResult::Finish(values)) => assert_eq!(values, vec![WasmValue::I32(10)]),
        _ => panic!("the continuation must finish"),
    }
}

#[test]
fn step_out_returns_to_the_caller() {
    let mut dbg = MainDebugger::new();
    dbg.load_module(&call_module()).expect("the module must load");
    dbg.set_breakpoint(Breakpoint::Function { name: "g".to_string() });
    // g is not exported: the breakpoint binds to nothing and the run finishes
    let addr = dbg.lookup_func(&"h".to_string()).expect("the export must exist");
    match dbg.execute_func(addr, Vec::new()) {
        Ok(RunResult::Finish(values)) => assert_eq!(values, vec![WasmValue::I32(10)]),
        _ => panic!("the run must finish"),
    }
}

/// A host function that records every argument list it was called on.
struct Recorder {
    calls: Rc<RefCell<Vec<Vec<WasmValue>>>>,
}

impl HostCode for Recorder {
    fn call(
        &self,
        args: &Vec<WasmValue>,
        _results: &mut Vec<WasmValue>,
        _ctx: &mut HostContext,
    ) -> Result<(), Trap> {
        self.calls.borrow_mut().push(args.clone());
        Ok(())
    }
}

/// imports (env.log (param i32));
/// (func (export "drive") call $log(7) call $log(11))
fn drive_module() -> Vec<u8> {
    module(&[
        (
            1,
            vec![0x02, 0x60, 0x01, 0x7F, 0x00, 0x60, 0x00, 0x00],
        ),
        (
            2,
            vec![
                0x01, 0x03, b'e', b'n', b'v', 0x03, b'l', b'o', b'g', 0x00, 0x00,
            ],
        ),
        (3, vec![0x01, 0x01]),
        (7, vec![0x01, 0x05, b'd', b'r', b'i', b'v', b'e', 0x00, 0x01]),
        (
            10,
            vec![
                0x01, 0x0A, 0x00, // one body, size, no locals
                0x41, 0x07, 0x10, 0x00, // i32.const 7, call 0
                0x41, 0x0B, 0x10, 0x00, // i32.const 11, call 0
                0x0B,
            ],
        ),
    ])
}

#[test]
fn a_registered_host_records_its_arguments_in_call_order() {
    let calls = Rc::new(RefCell::new(Vec::new()));
    let recorder = Recorder { calls: calls.clone() };
    let ty = FuncType::new(vec![ValType::I32], Vec::new());
    let body = HostFuncBody::new(ty, Box::new(recorder));
    let mut dbg = MainDebugger::new();
    dbg.load_host_module(
        "env".to_string(),
        vec![("log".to_string(), HostValue::Func(body))],
    )
    .expect("the host module registers");
    dbg.load_module(&drive_module()).expect("the module must load");
    let addr = dbg.lookup_func(&"drive".to_string()).expect("the export must exist");
    match dbg.execute_func(addr, Vec::new()) {
        Ok(RunResult::Finish(values)) => assert_eq!(values.len(), 0),
        _ => panic!("the run must finish"),
    }
    assert_eq!(
        &*calls.borrow(),
        &vec![vec![WasmValue::I32(7)], vec![WasmValue::I32(11)]]
    );
    // the executor's value stack is empty again
    assert_eq!(dbg.stack_values().len(), 0);
}

#[test]
fn every_frame_holds_one_local_slot_per_parameter_and_per_declared_local() {
    // (func (export "main") (param i32) (result i32) (local i64 i64) ...)
    let bytes = module(&[
        (1, vec![0x01, 0x60, 0x01, 0x7F, 0x01, 0x7F]),
        (3, vec![0x01, 0x00]),
        (7, vec![0x01, 0x04, b'm', b'a', b'i', b'n', 0x00, 0x00]),
        (
            10,
            vec![0x01, 0x06, 0x01, 0x02, 0x7E, 0x20, 0x00, 0x0B],
        ),
    ]);
    let mut dbg = MainDebugger::new();
    dbg.load_module(&bytes).expect("the module must load");
    dbg.set_breakpoint(Breakpoint::Function { name: "main".to_string() });
    let addr = dbg.lookup_func(&"main".to_string()).expect("the export must exist");
    dbg.execute_func(addr, vec![WasmValue::I32(9)]).expect("suspends");
    // one parameter slot and two declared local slots
    let locals = dbg.locals();
    assert_eq!(locals.len(), 3);
    assert_eq!(locals[0], WasmValue::I32(9));
    assert_eq!(locals[1], WasmValue::I64(0));
    assert_eq!(locals[2], WasmValue::I64(0));
}

/// (func $p (result i32) i32.const 5)
/// (func (export "outer") (result i32) call $p  i32.const 2  i32.add)
/// with $p also exported, so a breakpoint can bind to it
fn two_exports_module() -> Vec<u8> {
    module(&[
        (1, vec![0x01, 0x60, 0x00, 0x01, 0x7F]),
        (3, vec![0x02, 0x00, 0x00]),
        (
            7,
            vec![
                0x02, 0x01, b'p', 0x00, 0x00, 0x05, b'o', b'u', b't', b'e', b'r', 0x00, 0x01,
            ],
        ),
        (
            10,
            vec![
                0x02, // two bodies
                0x04, 0x00, 0x41, 0x05, 0x0B, // p: i32.const 5
                0x07, 0x00, 0x10, 0x00, 0x41, 0x02, 0x6A, 0x0B, // outer
            ],
        ),
    ])
}

#[test]
fn a_breakpoint_hit_during_step_over_pauses_as_a_breakpoint() {
    let mut dbg = MainDebugger::new();
    dbg.load_module(&two_exports_module()).expect("the module must load");
    dbg.set_breakpoint(Breakpoint::Function { name: "outer".to_string() });
    dbg.set_breakpoint(Breakpoint::Function { name: "p".to_string() });
    let addr = dbg.lookup_func(&"outer".to_string()).expect("the export must exist");
    match dbg.execute_func(addr, Vec::new()) {
        Ok(RunResult::Breakpoint) => {},
        _ => panic!("the run must suspend at the outer breakpoint"),
    }
    // stepping over the call runs into the inner breakpoint and pauses there
    dbg.step(StepStyle::StepInstOver).expect("the step completes at the breakpoint");
    match dbg.state {
        wasminspect::debugger::DebuggerState::Paused(
            wasminspect::debugger::PausedReason::HitBreakpoint,
        ) => {},
        _ => panic!("the pause keeps the breakpoint as its reason"),
    }
    // continuing finishes the whole call
    match dbg.process() {
        Ok(RunResult::Finish(values)) => assert_eq!(values, vec![WasmValue::I32(7)]),
        _ => panic!("the continuation must finish"),
    }
}
