//! Boundary value marshaling: typed pointers, value conversions, and the
//! packed-result convention.

use wasm_executor::values::{
    decode_packed_result, encode_packed_result, IntoValue, Pointer, Signature, TryFromValue,
    Value, ValueType,
};

#[test]
fn pointer_offset_works() {
    let ptr = Pointer::<u32>::null();

    assert_eq!(ptr.offset(10).unwrap(), Pointer::new(40));
    assert_eq!(ptr.offset(32).unwrap(), Pointer::new(128));

    let ptr = Pointer::<u64>::null();

    assert_eq!(ptr.offset(10).unwrap(), Pointer::new(80));
    assert_eq!(ptr.offset(32).unwrap(), Pointer::new(256));
}

#[test]
fn pointer_offset_overflow_is_none() {
    let ptr = Pointer::<u64>::new(u32::MAX - 7);
    assert_eq!(ptr.offset(1), None);
    let ptr = Pointer::<u8>::new(u32::MAX);
    assert_eq!(ptr.offset(0), Some(Pointer::new(u32::MAX)));
    assert_eq!(ptr.offset(1), None);
}

#[test]
fn pointer_cast_keeps_address() {
    let ptr = Pointer::<u64>::new(72);
    let cast: Pointer<u8> = ptr.cast();
    assert_eq!(cast, Pointer::new(72));
}

#[test]
fn value_round_trips() {
    assert_eq!(u32::try_from_value(0xdead_beefu32.into_value()), Some(0xdead_beef));
    assert_eq!(i32::try_from_value((-5i32).into_value()), Some(-5));
    assert_eq!(u64::try_from_value(u64::MAX.into_value()), Some(u64::MAX));
    assert_eq!(i64::try_from_value((-77i64).into_value()), Some(-77));
    let p = Pointer::<u16>::new(1000);
    assert_eq!(Pointer::<u16>::try_from_value(p.into_value()), Some(p));
}

#[test]
fn value_conversions_reject_wrong_kind() {
    assert_eq!(u32::try_from_value(Value::I64(1)), None);
    assert_eq!(u64::try_from_value(Value::I32(1)), None);
    assert_eq!(i32::try_from_value(Value::F32(1)), None);
    assert_eq!(Pointer::<u8>::try_from_value(Value::F64(0)), None);
}

#[test]
fn value_types_are_reported() {
    assert_eq!(Value::I32(0).value_type(), ValueType::I32);
    assert_eq!(Value::I64(0).value_type(), ValueType::I64);
    assert_eq!(Value::F32(0).value_type(), ValueType::F32);
    assert_eq!(Value::F64(0).value_type(), ValueType::F64);
}

#[test]
fn packed_result_round_trip() {
    let packed = encode_packed_result(1000, 42);
    assert_eq!(decode_packed_result(packed), (1000, 42));
}

#[test]
fn packed_result_boundary_values() {
    assert_eq!(decode_packed_result(encode_packed_result(0, 0)), (0, 0));
    assert_eq!(decode_packed_result(encode_packed_result(u32::MAX, 0)), (u32::MAX, 0));
    assert_eq!(decode_packed_result(encode_packed_result(0, u32::MAX)), (0, u32::MAX));
    // Distinct pairs stay distinct.
    assert_ne!(encode_packed_result(0, 1), encode_packed_result(1, 0));
}

#[test]
fn signature_matching_is_exact() {
    let a = Signature::new(vec![ValueType::I32, ValueType::I64], Some(ValueType::I32));
    let b = Signature::new(vec![ValueType::I32, ValueType::I64], Some(ValueType::I32));
    let shorter = Signature::new_with_args(vec![ValueType::I32]);
    let wrong_ret = Signature::new(vec![ValueType::I32, ValueType::I64], None);
    let wrong_arg = Signature::new(vec![ValueType::I32, ValueType::F64], Some(ValueType::I32));
    assert!(a.matches(&b));
    assert!(!a.matches(&shorter));
    assert!(!a.matches(&wrong_ret));
    assert!(!a.matches(&wrong_arg));
}
