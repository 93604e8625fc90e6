//! Value kinds and argument/signature matching.

use wasm_host::value::{args_match, Value, ValueKind};

#[test]
fn kinds_of_values() {
    assert_eq!(Value::I32(-1).kind(), ValueKind::I32);
    assert_eq!(Value::I64(5).kind(), ValueKind::I64);
    assert_eq!(Value::F32Bits(0x3f80_0000).kind(), ValueKind::F32);
    assert_eq!(Value::F64Bits(0x3ff0_0000_0000_0000).kind(), ValueKind::F64);
    assert_eq!(Value::V128(1).kind(), ValueKind::V128);
}

#[test]
fn matching_accepts_exact_signature() {
    let params = vec![ValueKind::I32, ValueKind::F64, ValueKind::I64];
    let args = vec![Value::I32(1), Value::F64Bits(2), Value::I64(3)];
    assert!(args_match(&params, &args));
    assert!(args_match(&vec![], &vec![]));
}

#[test]
fn matching_rejects_wrong_arity() {
    let params = vec![ValueKind::I32, ValueKind::I32];
    assert!(!args_match(&params, &vec![Value::I32(1)]));
    assert!(!args_match(&params, &vec![Value::I32(1), Value::I32(2), Value::I32(3)]));
    assert!(!args_match(&params, &vec![]));
}

#[test]
fn matching_rejects_wrong_kind() {
    let params = vec![ValueKind::I32, ValueKind::I64];
    assert!(!args_match(&params, &vec![Value::I32(1), Value::I32(2)]));
    assert!(!args_match(&params, &vec![Value::I64(1), Value::I64(2)]));
    assert!(!args_match(&vec![ValueKind::Ref], &vec![Value::I32(0)]));
}
