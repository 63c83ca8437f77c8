//! The virtual machine end to end: modules assembled by hand, loaded,
//! executed, trapped and grown.

use wasminspect::debugger::{MainDebugger, RunError, RunResult};
use wasminspect::leb::encode_u32;
use wasminspect::memory::DefinedMemoryInstance;
use wasminspect::trap::Trap;
use wasminspect::value::WasmValue;

fn section(id: u8, payload: &[u8], out: &mut Vec<u8>) {
    out.push(id);
    encode_u32(payload.len() as u32, out);
    out.extend_from_slice(payload);
}

fn module(sections: &[(u8, Vec<u8>)]) -> Vec<u8> {
    let mut out = vec![0x00, 0x61, 0x73, 0x6D, 0x01, 0x00, 0x00, 0x00];
    for (id, payload) in sections {
        section(*id, payload, &mut out);
    }
    out
}

/// (func (export "add") (param i32 i32) (result i32)
///     local.get 0  local.get 1  i32.add)
fn add_module() -> Vec<u8> {
    module(&[
        (1, vec![0x01, 0x60, 0x02, 0x7F, 0x7F, 0x01, 0x7F]),
        (3, vec![0x01, 0x00]),
        (7, vec![0x01, 0x03, b'a', b'd', b'd', 0x00, 0x00]),
        (10, vec![0x01, 0x07, 0x00, 0x20, 0x00, 0x20, 0x01, 0x6A, 0x0B]),
    ])
}

/// (func (export "trap") unreachable)
fn trap_module() -> Vec<u8> {
    module(&[
        (1, vec![0x01, 0x60, 0x00, 0x00]),
        (3, vec![0x01, 0x00]),
        (7, vec![0x01, 0x04, b't', b'r', b'a', b'p', 0x00, 0x00]),
        (10, vec![0x01, 0x03, 0x00, 0x00, 0x0B]),
    ])
}

fn run(bytes: &[u8], name: &str, args: Vec<WasmValue>) -> Result<RunResult, RunError> {
    let mut dbg = MainDebugger::new();
    dbg.load_module(bytes).expect("the module must load");
    let addr = dbg.lookup_func(&name.to_string()).expect("the export must exist");
    dbg.execute_func(addr, args)
}

#[test]
fn add_of_two_and_three_finishes_with_five() {
    let r = run(&add_module(), "add", vec![WasmValue::I32(2), WasmValue::I32(3)]);
    match r {
        Ok(RunResult::Finish(values)) => assert_eq!(values, vec![WasmValue::I32(5)]),
        _ => panic!("the run must finish"),
    }
}

#[test]
fn finished_run_returns_as_many_values_as_the_result_arity() {
    let r = run(&add_module(), "add", vec![WasmValue::I32(-7), WasmValue::I32(7)]);
    match r {
        Ok(RunResult::Finish(values)) => assert_eq!(values.len(), 1),
        _ => panic!("the run must finish"),
    }
}

#[test]
fn unreachable_traps_and_pauses_with_one_frame() {
    let mut dbg = MainDebugger::new();
    dbg.load_module(&trap_module()).expect("the module must load");
    let addr = dbg.lookup_func(&"trap".to_string()).expect("the export must exist");
    let r = dbg.execute_func(addr, Vec::new());
    match r {
        Err(RunError::Trap(Trap::Unreachable)) => {},
        _ => panic!("the run must trap as unreachable"),
    }
    match dbg.state {
        wasminspect::debugger::DebuggerState::Paused(
            wasminspect::debugger::PausedReason::Trapped(Trap::Unreachable),
        ) => {},
        _ => panic!("the machine must pause on the trap"),
    }
    assert_eq!(dbg.frame().len(), 1);
}

/// (func (export "quot") (param i32 i32) (result i32)
///     local.get 0  local.get 1  i32.div_s)
fn div_module() -> Vec<u8> {
    module(&[
        (1, vec![0x01, 0x60, 0x02, 0x7F, 0x7F, 0x01, 0x7F]),
        (3, vec![0x01, 0x00]),
        (7, vec![0x01, 0x04, b'q', b'u', b'o', b't', 0x00, 0x00]),
        (10, vec![0x01, 0x07, 0x00, 0x20, 0x00, 0x20, 0x01, 0x6D, 0x0B]),
    ])
}

#[test]
fn minimum_divided_by_minus_one_traps_as_integer_overflow() {
    let r = run(
        &div_module(),
        "quot",
        vec![WasmValue::I32(i32::MIN), WasmValue::I32(-1)],
    );
    match r {
        Err(RunError::Trap(Trap::IntegerOverflow)) => {},
        _ => panic!("the division must trap as integer overflow"),
    }
}

#[test]
fn division_by_zero_traps() {
    let r = run(&div_module(), "quot", vec![WasmValue::I32(5), WasmValue::I32(0)]);
    match r {
        Err(RunError::Trap(Trap::DivisionByZero)) => {},
        _ => panic!("the division must trap"),
    }
}

#[test]
fn ordinary_signed_division_truncates_toward_zero() {
    let r = run(&div_module(), "quot", vec![WasmValue::I32(-7), WasmValue::I32(2)]);
    match r {
        Ok(RunResult::Finish(values)) => assert_eq!(values, vec![WasmValue::I32(-3)]),
        _ => panic!("the run must finish"),
    }
}

/// (func (export "sel") (param i32) (result i32)
///   block block local.get 0 br_table 0 1 end i32.const 100 return end
///   i32.const 200)
fn br_table_module() -> Vec<u8> {
    module(&[
        (1, vec![0x01, 0x60, 0x01, 0x7F, 0x01, 0x7F]),
        (3, vec![0x01, 0x00]),
        (7, vec![0x01, 0x03, b's', b'e', b'l', 0x00, 0x00]),
        (
            10,
            vec![
                0x01, 0x15, 0x00, // one body, size, no locals
                0x02, 0x40, // block
                0x02, 0x40, // block
                0x20, 0x00, // local.get 0
                0x0E, 0x01, 0x00, 0x01, // br_table [0] default 1
                0x0B, // end (inner)
                0x41, 0xE4, 0x00, // i32.const 100
                0x0F, // return
                0x0B, // end (outer)
                0x41, 0xC8, 0x01, // i32.const 200
                0x0B, // end
            ],
        ),
    ])
}

#[test]
fn br_table_in_range_takes_the_listed_target() {
    let r = run(&br_table_module(), "sel", vec![WasmValue::I32(0)]);
    match r {
        Ok(RunResult::Finish(values)) => assert_eq!(values, vec![WasmValue::I32(100)]),
        _ => panic!("the run must finish"),
    }
}

#[test]
fn br_table_past_the_table_selects_the_default() {
    for idx in [1, 2, 1000] {
        let r = run(&br_table_module(), "sel", vec![WasmValue::I32(idx)]);
        match r {
            Ok(RunResult::Finish(values)) => assert_eq!(values, vec![WasmValue::I32(200)]),
            _ => panic!("the run must finish"),
        }
    }
}

/// A module with one function table of two slots, only slot zero filled:
/// (type (func (result i32)))  (func $f (result i32) i32.const 42)
/// (func (export "callit") (param i32) (result i32)
///     local.get 0 call_indirect (type 0))
/// (table 2 funcref)  (elem (i32.const 0) $f)
fn call_indirect_module() -> Vec<u8> {
    module(&[
        (
            1,
            vec![0x02, 0x60, 0x00, 0x01, 0x7F, 0x60, 0x01, 0x7F, 0x01, 0x7F],
        ),
        (3, vec![0x02, 0x00, 0x01]),
        (4, vec![0x01, 0x70, 0x00, 0x02]),
        (
            7,
            vec![0x01, 0x06, b'c', b'a', b'l', b'l', b'i', b't', 0x00, 0x01],
        ),
        (9, vec![0x01, 0x00, 0x41, 0x00, 0x0B, 0x01, 0x00]),
        (
            10,
            vec![
                0x02, // two bodies
                0x04, 0x00, 0x41, 0x2A, 0x0B, // f: i32.const 42
                0x07, 0x00, 0x20, 0x00, 0x11, 0x00, 0x00, 0x0B, // callit
            ],
        ),
    ])
}

#[test]
fn call_indirect_through_a_filled_slot_calls_the_function() {
    let r = run(&call_indirect_module(), "callit", vec![WasmValue::I32(0)]);
    match r {
        Ok(RunResult::Finish(values)) => assert_eq!(values, vec![WasmValue::I32(42)]),
        _ => panic!("the run must finish"),
    }
}

#[test]
fn call_indirect_through_an_uninitialized_slot_traps() {
    let r = run(&call_indirect_module(), "callit", vec![WasmValue::I32(1)]);
    match r {
        Err(RunError::Trap(Trap::UninitializedElement)) => {},
        _ => panic!("the call must trap as an uninitialized element"),
    }
}

#[test]
fn call_indirect_past_the_table_traps_as_undefined() {
    let r = run(&call_indirect_module(), "callit", vec![WasmValue::I32(7)]);
    match r {
        Err(RunError::Trap(Trap::UndefinedElement)) => {},
        _ => panic!("the call must trap as an undefined element"),
    }
}

/// (memory 1) (data passive "abc")
/// (func (export "dropinit") data.drop 0
///     i32.const 0 i32.const 0 i32.const 1 memory.init 0)
fn drop_init_module() -> Vec<u8> {
    module(&[
        (1, vec![0x01, 0x60, 0x00, 0x00]),
        (3, vec![0x01, 0x00]),
        (5, vec![0x01, 0x00, 0x01]),
        (
            7,
            vec![0x01, 0x08, b'd', b'r', b'o', b'p', b'i', b'n', b'i', b't', 0x00, 0x00],
        ),
        (12, vec![0x01]),
        (
            10,
            vec![
                0x01, 0x0F, 0x00, // one body, size, no locals
                0xFC, 0x09, 0x00, // data.drop 0
                0x41, 0x00, // i32.const 0 (dst)
                0x41, 0x00, // i32.const 0 (src)
                0x41, 0x01, // i32.const 1 (n)
                0xFC, 0x08, 0x00, 0x00, // memory.init 0
                0x0B,
            ],
        ),
        (11, vec![0x01, 0x01, 0x03, b'a', b'b', b'c']),
    ])
}

#[test]
fn memory_init_after_data_drop_traps_out_of_bounds() {
    let r = run(&drop_init_module(), "dropinit", Vec::new());
    match r {
        Err(RunError::Trap(Trap::OutOfBoundsMemoryAccess)) => {},
        _ => panic!("the init of a dropped segment must trap"),
    }
}

/// (memory 1 2) (func (export "grow") (param i32) (result i32)
///     local.get 0 memory.grow)
fn grow_module() -> Vec<u8> {
    module(&[
        (1, vec![0x01, 0x60, 0x01, 0x7F, 0x01, 0x7F]),
        (3, vec![0x01, 0x00]),
        (5, vec![0x01, 0x01, 0x01, 0x02]),
        (7, vec![0x01, 0x04, b'g', b'r', b'o', b'w', 0x00, 0x00]),
        (10, vec![0x01, 0x06, 0x00, 0x20, 0x00, 0x40, 0x00, 0x0B]),
    ])
}

#[test]
fn grow_past_the_maximum_returns_minus_one_and_leaves_memory_unchanged() {
    let mut dbg = MainDebugger::new();
    dbg.load_module(&grow_module()).expect("the module must load");
    let addr = dbg.lookup_func(&"grow".to_string()).expect("the export must exist");
    let before = dbg.memory().expect("the module has a memory");
    let r = dbg.execute_func(addr, vec![WasmValue::I32(5)]);
    match r {
        Ok(RunResult::Finish(values)) => assert_eq!(values, vec![WasmValue::I32(-1)]),
        _ => panic!("the run must finish"),
    }
    let after = dbg.memory().expect("the module has a memory");
    assert_eq!(before, after);
}

#[test]
fn grow_within_the_maximum_returns_the_old_page_count() {
    let mut dbg = MainDebugger::new();
    dbg.load_module(&grow_module()).expect("the module must load");
    let addr = dbg.lookup_func(&"grow".to_string()).expect("the export must exist");
    let r = dbg.execute_func(addr, vec![WasmValue::I32(1)]);
    match r {
        Ok(RunResult::Finish(values)) => assert_eq!(values, vec![WasmValue::I32(1)]),
        _ => panic!("the run must finish"),
    }
    let mem = dbg.memory().expect("the module has a memory");
    assert_eq!(mem.len(), 2 * 65536);
    assert_eq!(mem.len() % 65536, 0);
}

#[test]
fn memory_size_is_always_a_multiple_of_the_page_size() {
    let mut m = DefinedMemoryInstance::new(1, Some(3));
    assert_eq!(m.byte_len() % 65536, 0);
    assert_eq!(m.grow(1), 1);
    assert_eq!(m.byte_len() % 65536, 0);
    assert_eq!(m.grow(5), -1);
    assert_eq!(m.byte_len() % 65536, 0);
    assert_eq!(m.byte_len(), 2 * 65536);
}

/// (memory 1) (func (export "rw") (result i32)
///     i32.const 16 i32.const -559038737 i32.store
///     i32.const 16 i32.load)
fn load_store_module() -> Vec<u8> {
    module(&[
        (1, vec![0x01, 0x60, 0x00, 0x01, 0x7F]),
        (3, vec![0x01, 0x00]),
        (5, vec![0x01, 0x00, 0x01]),
        (7, vec![0x01, 0x02, b'r', b'w', 0x00, 0x00]),
        (
            10,
            vec![
                0x01, 0x12, 0x00, // one body, size, no locals
                0x41, 0x10, // i32.const 16
                0x41, 0xEF, 0xFD, 0xB6, 0xF5, 0x7D, // i32.const -559038737
                0x36, 0x02, 0x00, // i32.store align 2 offset 0
                0x41, 0x10, // i32.const 16
                0x28, 0x02, 0x00, // i32.load align 2 offset 0
                0x0B,
            ],
        ),
    ])
}

#[test]
fn a_stored_word_loads_back_bit_identically() {
    let r = run(&load_store_module(), "rw", Vec::new());
    match r {
        Ok(RunResult::Finish(values)) => {
            assert_eq!(values, vec![WasmValue::I32(-559038737)])
        },
        _ => panic!("the run must finish"),
    }
}

#[test]
fn out_of_bounds_store_traps() {
    // same module, but the address falls past the one page
    let mut dbg = MainDebugger::new();
    dbg.load_module(&load_store_module()).expect("the module must load");
    // write directly through the debugger inspection interface instead
    let err = dbg.write_memory(65533, &[1, 2, 3, 4]).unwrap_err();
    assert!(!err.is_empty());
    // an in-bounds write succeeds and reads back
    dbg.write_memory(65532, &[1, 2, 3, 4]).expect("in bounds");
    let mem = dbg.memory().expect("the module has a memory");
    assert_eq!(&mem[65532..], &[1, 2, 3, 4]);
}
