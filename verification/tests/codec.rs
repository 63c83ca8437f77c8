//! The instruction codec on concrete bytes: decoding, re-encoding, and the
//! round trip between them.

use wasminspect::inst::{BlockType, BrTableData, InstructionKind, MemArg};
use wasminspect::inst_decode::{read_kind, transform_inst};
use wasminspect::inst_encode::encode_kind;
use wasminspect::leb::{decode_i32, decode_i64, decode_u32, encode_i32, encode_i64, encode_u32};

fn round_trip(kind: &InstructionKind) -> Vec<u8> {
    let mut bytes: Vec<u8> = Vec::new();
    encode_kind(kind, &mut bytes).expect("the operator must be encodable");
    let (decoded, end) = read_kind(&bytes, 0).expect("the encoding must decode");
    assert_eq!(&decoded, kind);
    assert_eq!(end, bytes.len());
    bytes
}

#[test]
fn leb_u32_decodes_minimal_and_padded_forms() {
    assert_eq!(decode_u32(&[0x00], 0), Some((0, 1)));
    assert_eq!(decode_u32(&[0x7F], 0), Some((127, 1)));
    assert_eq!(decode_u32(&[0x80, 0x01], 0), Some((128, 2)));
    // a padded, non-minimal form of 3
    assert_eq!(decode_u32(&[0x83, 0x80, 0x00], 0), Some((3, 3)));
    assert_eq!(decode_u32(&[0xFF, 0xFF, 0xFF, 0xFF, 0x0F], 0), Some((u32::MAX, 5)));
    // too large for 32 bits
    assert_eq!(decode_u32(&[0xFF, 0xFF, 0xFF, 0xFF, 0x1F], 0), None);
    // truncated
    assert_eq!(decode_u32(&[0x80], 0), None);
}

#[test]
fn leb_i32_decodes_signed_forms() {
    assert_eq!(decode_i32(&[0x7F], 0), Some((-1, 1)));
    assert_eq!(decode_i32(&[0x40], 0), Some((-64, 1)));
    assert_eq!(decode_i32(&[0x3F], 0), Some((63, 1)));
    assert_eq!(decode_i32(&[0x80, 0x7F], 0), Some((-128, 2)));
    assert_eq!(
        decode_i32(&[0x80, 0x80, 0x80, 0x80, 0x78], 0),
        Some((i32::MIN, 5))
    );
}

#[test]
fn leb_encode_then_decode_is_identity() {
    for v in [0u32, 1, 63, 64, 127, 128, 300, 65535, 0xFFFF_FFFF] {
        let mut bytes = Vec::new();
        encode_u32(v, &mut bytes);
        assert_eq!(decode_u32(&bytes, 0), Some((v, bytes.len())));
    }
    for v in [0i32, 1, -1, 63, -64, 64, -65, 127, 128, i32::MIN, i32::MAX] {
        let mut bytes = Vec::new();
        encode_i32(v, &mut bytes);
        assert_eq!(decode_i32(&bytes, 0), Some((v, bytes.len())));
    }
    for v in [0i64, -1, 4096, -4097, i64::MIN, i64::MAX] {
        let mut bytes = Vec::new();
        encode_i64(v, &mut bytes);
        assert_eq!(decode_i64(&bytes, 0), Some((v, bytes.len())));
    }
}

#[test]
fn operators_round_trip_through_their_encodings() {
    round_trip(&InstructionKind::Unreachable);
    round_trip(&InstructionKind::Nop);
    round_trip(&InstructionKind::I32Add);
    round_trip(&InstructionKind::I64Rotr);
    round_trip(&InstructionKind::F64Copysign);
    round_trip(&InstructionKind::RefIsNull);
    round_trip(&InstructionKind::Block { ty: BlockType::Empty });
    round_trip(&InstructionKind::Loop {
        ty: BlockType::Value(wasminspect::value::ValType::I64),
    });
    round_trip(&InstructionKind::If { ty: BlockType::TypeIndex(3) });
    round_trip(&InstructionKind::Br { relative_depth: 2 });
    round_trip(&InstructionKind::Call { function_index: 300 });
    round_trip(&InstructionKind::CallIndirect { index: 7, table_index: 0 });
    round_trip(&InstructionKind::LocalGet { local_index: 1 });
    round_trip(&InstructionKind::I32Const { value: -123456 });
    round_trip(&InstructionKind::I64Const { value: i64::MIN });
    round_trip(&InstructionKind::F32Const { value: 0x4048_F5C3 });
    round_trip(&InstructionKind::F64Const { value: 0x4009_21FB_5444_2D18 });
    round_trip(&InstructionKind::I32Load {
        memarg: MemArg { align: 2, offset: 16, memory: 0 },
    });
    round_trip(&InstructionKind::I64Store8 {
        memarg: MemArg { align: 0, offset: 0, memory: 0 },
    });
    round_trip(&InstructionKind::MemorySize { mem: 0, mem_byte: 0 });
    round_trip(&InstructionKind::MemoryGrow { mem: 0, mem_byte: 0 });
    round_trip(&InstructionKind::MemoryInit { segment: 1, mem: 0 });
    round_trip(&InstructionKind::DataDrop { segment: 1 });
    round_trip(&InstructionKind::MemoryCopy { src: 0, dst: 0 });
    round_trip(&InstructionKind::MemoryFill { mem: 0 });
    round_trip(&InstructionKind::I32TruncSatF32S);
    round_trip(&InstructionKind::TableGet { table: 0 });
    round_trip(&InstructionKind::RefFunc { function_index: 2 });
}

#[test]
fn br_table_round_trips_and_offsets_are_preserved() {
    let kind = InstructionKind::BrTable {
        table: BrTableData { table: vec![0, 1, 2], default: 3 },
    };
    let bytes = round_trip(&kind);
    // 0x0E, count 3, targets 0 1 2, default 3
    assert_eq!(bytes, vec![0x0E, 0x03, 0x00, 0x01, 0x02, 0x03]);
}

#[test]
fn decode_annotates_offsets_relative_to_the_base() {
    // two operators after a 4-byte prelude
    let bytes = [0xAA, 0xAA, 0xAA, 0xAA, 0x41, 0x05, 0x6A];
    let (inst, end) = transform_inst(&bytes, 4, 4).expect("a constant");
    assert_eq!(inst.kind, InstructionKind::I32Const { value: 5 });
    assert_eq!(inst.offset, 0);
    assert_eq!(end, 6);
    let (inst2, end2) = transform_inst(&bytes, end, 4).expect("an addition");
    assert_eq!(inst2.kind, InstructionKind::I32Add);
    assert_eq!(inst2.offset, 2);
    assert_eq!(end2, 7);
}

#[test]
fn unknown_opcodes_are_fatal_decode_errors() {
    // 0xFF is no operator
    assert!(read_kind(&[0xFF], 0).is_none());
    let err = transform_inst(&[0x41], 0, 0).unwrap_err();
    // the constant's payload is missing: the error names the operator start
    assert_eq!(err.offset, 0);
}
