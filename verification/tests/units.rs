//! Unit-level checks: values, names, lookups, linking errors, numerics and
//! the offset translation.

use wasminspect::address::{ExecutableFuncAddr, FuncAddr, GlobalAddr, ModuleIndex};
use wasminspect::debugger::MainDebugger;
use wasminspect::dwarf::{unit_ref_offset_to_absolute_offset, UnitSectionOffset};
use wasminspect::global::DefinedGlobalInstance;
use wasminspect::leb::encode_u32;
use wasminspect::memory::DefinedMemoryInstance;
use wasminspect::module::{DefinedModuleError, DefinedModuleInstance, HostModuleInstance};
use wasminspect::module_binary::read_name;
use wasminspect::numeric;
use wasminspect::table::DefinedTableInstance;
use wasminspect::trap::Trap;
use wasminspect::types::{ExportInstance, ExternalValue, FuncType};
use wasminspect::value::{ValType, WasmValue};

#[test]
fn default_values_are_zeros_and_null_references() {
    assert_eq!(WasmValue::default_for(ValType::I32), WasmValue::I32(0));
    assert_eq!(WasmValue::default_for(ValType::F64), WasmValue::F64(0));
    assert_eq!(WasmValue::default_for(ValType::FuncRef), WasmValue::FuncRef(None));
    assert_eq!(WasmValue::I64(9).value_type(), ValType::I64);
    assert_eq!(WasmValue::f32_from_bits(0x7FC0_0000), WasmValue::F32(0x7FC0_0000));
}

#[test]
fn names_decode_as_utf8_and_reject_malformed_bytes() {
    // "héllo": the accented letter is two bytes
    let mut bytes = Vec::new();
    let payload = [b'h', 0xC3, 0xA9, b'l', b'l', b'o'];
    encode_u32(payload.len() as u32, &mut bytes);
    bytes.extend_from_slice(&payload);
    let (name, end) = read_name(&bytes, 0).expect("valid UTF-8 decodes");
    assert_eq!(name, "h\u{e9}llo");
    assert_eq!(end, bytes.len());
    // a lone continuation byte is not UTF-8
    assert!(read_name(&[0x01, 0xFF], 0).is_none());
    // a count running past the end is malformed
    assert!(read_name(&[0x05, b'a'], 0).is_none());
}

#[test]
fn exported_lookups_distinguish_kinds_and_report_mismatches() {
    let mi = ModuleIndex(0);
    let exports = vec![
        ExportInstance::new("f".to_string(), ExternalValue::Func(FuncAddr(mi, 0))),
        ExportInstance::new("g".to_string(), ExternalValue::Global(GlobalAddr(mi, 0))),
    ];
    let m = DefinedModuleInstance::new(Vec::new(), exports, None);
    assert_eq!(m.exported_func("f".to_string()).unwrap(), Some(FuncAddr(mi, 0)));
    assert_eq!(m.exported_func("missing".to_string()).unwrap(), None);
    match m.exported_func("g".to_string()) {
        Err(e @ DefinedModuleError::TypeMismatch(expected, _)) => {
            assert_eq!(expected, "function");
            assert_eq!(
                e.message(),
                "incompatible import type, expected function but actual global"
            );
        },
        _ => panic!("a global under the name is a mismatch"),
    }
    match m.exported_global("f".to_string()) {
        Err(DefinedModuleError::TypeMismatch(expected, actual)) => {
            assert_eq!(expected, "global");
            assert_eq!(actual, "function");
        },
        _ => panic!("a function under the name is a mismatch"),
    }
    assert!(m.exported_table("f".to_string()).is_err());
    assert!(m.exported_memory("f".to_string()).is_err());
    assert!(m.start_func_addr().is_none());
}

#[test]
fn host_module_lookups_find_the_first_binding() {
    let mi = ModuleIndex(1);
    let m = HostModuleInstance::new(
        vec![("f".to_string(), ExecutableFuncAddr(3))],
        vec![("g".to_string(), GlobalAddr(mi, 0))],
        Vec::new(),
        Vec::new(),
    );
    assert_eq!(m.func_by_name("f".to_string()), Some(ExecutableFuncAddr(3)));
    assert_eq!(m.func_by_name("g".to_string()), None);
    assert_eq!(m.global_by_name("g".to_string()).unwrap(), Some(GlobalAddr(mi, 0)));
    assert_eq!(m.table_by_name("t".to_string()).unwrap(), None);
    assert_eq!(m.memory_by_name("m".to_string()).unwrap(), None);
}

#[test]
fn an_unknown_import_fails_the_load() {
    // (import "nowhere" "f" (func)) with no such registration
    let bytes: Vec<u8> = {
        let mut out = vec![0x00, 0x61, 0x73, 0x6D, 0x01, 0x00, 0x00, 0x00];
        let sections: Vec<(u8, Vec<u8>)> = vec![
            (1, vec![0x01, 0x60, 0x00, 0x00]),
            (
                2,
                vec![
                    0x01, 0x07, b'n', b'o', b'w', b'h', b'e', b'r', b'e', 0x01, b'f', 0x00, 0x00,
                ],
            ),
        ];
        for (id, payload) in sections {
            out.push(id);
            encode_u32(payload.len() as u32, &mut out);
            out.extend_from_slice(&payload);
        }
        out
    };
    let mut dbg = MainDebugger::new();
    let err = dbg.load_module(&bytes).unwrap_err();
    assert_eq!(err, "an import cannot be satisfied");
}

#[test]
fn globals_refuse_assignment_when_immutable() {
    let mut g = DefinedGlobalInstance::new(WasmValue::I32(1), false);
    assert!(!g.is_mutable());
    assert!(g.set_value(WasmValue::I32(2)).is_err());
    assert_eq!(g.value(), WasmValue::I32(1));
    let mut g = DefinedGlobalInstance::new(WasmValue::I32(1), true);
    assert!(g.set_value(WasmValue::I32(2)).is_ok());
    assert_eq!(g.value(), WasmValue::I32(2));
}

#[test]
fn tables_bound_their_slots() {
    let mut t = DefinedTableInstance::new(2, Some(4));
    assert_eq!(t.len(), 2);
    assert_eq!(t.get(0), Some(None));
    assert_eq!(t.get(2), None);
    let fa = FuncAddr(ModuleIndex(0), 1);
    assert!(t.set(1, Some(fa)).is_ok());
    assert_eq!(t.get(1), Some(Some(fa)));
    assert!(t.set(2, None).is_err());
}

#[test]
fn memory_reads_and_writes_are_bounded() {
    let mut m = DefinedMemoryInstance::new(1, None);
    assert_eq!(m.byte_len(), 65536);
    assert!(m.store_bytes(65534, &[1, 2]).is_ok());
    assert!(m.store_bytes(65535, &[1, 2]).is_err());
    let bytes = m.load_bytes(65534, 2).expect("in bounds");
    assert_eq!(bytes, vec![1, 2]);
    assert!(m.load_bytes(65535, 2).is_none());
    let snap = m.snapshot();
    assert_eq!(snap.len(), 65536);
    assert_eq!(&snap[65534..], &[1, 2]);
}

#[test]
fn signed_division_and_remainder_follow_truncation() {
    assert_eq!(numeric::i32_div_s(7, 2), Ok(3));
    assert_eq!(numeric::i32_div_s(-7, 2), Ok(-3));
    assert_eq!(numeric::i32_div_s(7, -2), Ok(-3));
    assert_eq!(numeric::i32_div_s(-7, -2), Ok(3));
    assert_eq!(numeric::i32_div_s(i32::MIN, -1), Err(Trap::IntegerOverflow));
    assert_eq!(numeric::i32_div_s(i32::MIN, 1), Ok(i32::MIN));
    assert_eq!(numeric::i32_rem_s(-7, 2), Ok(-1));
    assert_eq!(numeric::i32_rem_s(i32::MIN, -1), Ok(0));
    assert_eq!(numeric::i32_rem_s(5, 0), Err(Trap::DivisionByZero));
    assert_eq!(numeric::i32_div_u(-2, 3), Ok(1431655764));
    assert_eq!(numeric::i64_div_s(i64::MIN, -1), Err(Trap::IntegerOverflow));
    assert_eq!(numeric::i64_rem_u(-1, 10), Ok(5));
}

#[test]
fn bit_patterns_and_signed_views_convert_both_ways() {
    assert_eq!(numeric::i32_bits(-1), u32::MAX);
    assert_eq!(numeric::i32_bits(i32::MIN), 0x8000_0000);
    assert_eq!(numeric::u32_signed(u32::MAX), -1);
    assert_eq!(numeric::u32_signed(0x8000_0000), i32::MIN);
    assert_eq!(numeric::i64_bits(-1), u64::MAX);
    assert_eq!(numeric::u64_signed(u64::MAX), -1);
    for v in [0i32, 1, -1, i32::MIN, i32::MAX, 123456, -123456] {
        assert_eq!(numeric::u32_signed(numeric::i32_bits(v)), v);
    }
}

#[test]
fn bit_counting_matches_the_definitions() {
    assert_eq!(numeric::bitlen_u64(0), 0);
    assert_eq!(numeric::bitlen_u64(1), 1);
    assert_eq!(numeric::bitlen_u64(0xFF), 8);
    assert_eq!(numeric::bitlen_u64(u64::MAX), 64);
    assert_eq!(numeric::popcnt_u64(0), 0);
    assert_eq!(numeric::popcnt_u64(0b1011), 3);
    assert_eq!(numeric::popcnt_u64(u64::MAX), 64);
    assert_eq!(numeric::ctz_u64(0, 32), 32);
    assert_eq!(numeric::ctz_u64(0b1000, 32), 3);
    assert_eq!(numeric::ctz_u64(1, 64), 0);
}

#[test]
fn unit_offsets_translate_to_absolute_positions() {
    assert_eq!(
        unit_ref_offset_to_absolute_offset(16, UnitSectionOffset::DebugInfoOffset(1000)),
        1016
    );
    assert_eq!(
        unit_ref_offset_to_absolute_offset(0, UnitSectionOffset::DebugTypesOffset(7)),
        7
    );
}

#[test]
fn function_types_match_on_exact_signature_equality() {
    let a = FuncType::new(vec![ValType::I32], vec![ValType::I32]);
    let b = FuncType::new(vec![ValType::I32], vec![ValType::I32]);
    let c = FuncType::new(vec![ValType::I64], vec![ValType::I32]);
    assert!(a.matches(&b));
    assert!(!a.matches(&c));
    let d = a.duplicate();
    assert!(d.matches(&a));
}
