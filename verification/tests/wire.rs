//! The sandbox wire format: value lists, return values, and import maps.

use wasm_executor::values::Value;
use wasm_executor::wire::{
    decode_env_def, decode_return_value, decode_value_list, encode_env_def, encode_return_value,
    encode_value_list, EnvEntry, GuestEntity, ReturnValue, WireError, RETURN_VALUE_MAX_LEN,
    WIRE_VERSION,
};

#[test]
fn value_list_round_trip() {
    let values = vec![
        Value::I32(-1),
        Value::I64(i64::MIN),
        Value::F32(0x7fc0_0000),
        Value::F64(0x7ff8_0000_0000_0000),
        Value::I32(i32::MAX),
    ];
    let encoded = encode_value_list(&values).unwrap();
    assert_eq!(decode_value_list(&encoded).unwrap(), values);
}

#[test]
fn empty_value_list_round_trip() {
    let encoded = encode_value_list(&vec![]).unwrap();
    assert_eq!(encoded, vec![WIRE_VERSION, 0, 0, 0, 0]);
    assert_eq!(decode_value_list(&encoded).unwrap(), vec![]);
}

#[test]
fn malformed_value_lists_are_rejected() {
    // Too short for a header.
    assert_eq!(decode_value_list(&[1, 0, 0]), Err(WireError::Malformed));
    // Wrong version.
    assert_eq!(decode_value_list(&[9, 0, 0, 0, 0]), Err(WireError::Malformed));
    // Count says one value, none follow.
    assert_eq!(decode_value_list(&[1, 1, 0, 0, 0]), Err(WireError::Malformed));
    // Unknown tag.
    assert_eq!(decode_value_list(&[1, 1, 0, 0, 0, 9, 0, 0, 0, 0]), Err(WireError::Malformed));
    // Trailing bytes after the counted values.
    let mut encoded = encode_value_list(&vec![Value::I32(7)]).unwrap();
    encoded.push(0);
    assert_eq!(decode_value_list(&encoded), Err(WireError::Malformed));
}

#[test]
fn return_value_round_trip() {
    for rv in [
        ReturnValue::Unit,
        ReturnValue::Value(Value::I32(-9)),
        ReturnValue::Value(Value::I64(1 << 40)),
        ReturnValue::Value(Value::F32(1)),
        ReturnValue::Value(Value::F64(2)),
    ] {
        let encoded = encode_return_value(rv);
        assert!(encoded.len() <= RETURN_VALUE_MAX_LEN as usize);
        assert_eq!(decode_return_value(&encoded), Ok(rv));
    }
}

#[test]
fn malformed_return_values_are_rejected() {
    assert_eq!(decode_return_value(&[1]), Err(WireError::Malformed));
    assert_eq!(decode_return_value(&[2, 0]), Err(WireError::Malformed));
    // A unit return with trailing bytes.
    assert_eq!(decode_return_value(&[1, 0, 0]), Err(WireError::Malformed));
}

#[test]
fn env_def_round_trip() {
    let entries = vec![
        EnvEntry {
            module: b"env".to_vec(),
            field: b"alpha".to_vec(),
            entity: GuestEntity::Function(3),
        },
        EnvEntry {
            module: b"env".to_vec(),
            field: b"memory".to_vec(),
            entity: GuestEntity::Memory(0),
        },
    ];
    let encoded = encode_env_def(&entries).unwrap();
    let decoded = decode_env_def(&encoded).unwrap();
    assert_eq!(decoded.len(), 2);
    assert_eq!(decoded[0].module, b"env".to_vec());
    assert_eq!(decoded[0].field, b"alpha".to_vec());
    assert_eq!(decoded[0].entity, GuestEntity::Function(3));
    assert_eq!(decoded[1].field, b"memory".to_vec());
    assert_eq!(decoded[1].entity, GuestEntity::Memory(0));
}

#[test]
fn malformed_env_defs_are_rejected() {
    assert!(decode_env_def(&[1, 1, 0, 0, 0]).is_err());
    assert!(decode_env_def(&[2, 0, 0, 0, 0]).is_err());
    let entries = vec![EnvEntry {
        module: b"env".to_vec(),
        field: b"f".to_vec(),
        entity: GuestEntity::Function(0),
    }];
    let mut encoded = encode_env_def(&entries).unwrap();
    encoded.push(7);
    assert!(decode_env_def(&encoded).is_err());
}
