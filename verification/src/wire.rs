//! The sandbox wire format: instantiate and invoke arguments cross the
//! boundary as a versioned, length-prefixed list of typed values, and a
//! call's result comes back as an optional single typed value. An import
//! map crosses as a versioned, length-prefixed list of named entries.
//!
//! Layout, all integers little-endian: a list is the version byte, a
//! 32-bit count, then each value as a tag byte (1 = I32, 2 = I64, 3 = F32,
//! 4 = F64) followed by its fixed-width payload. A return value is the
//! version byte, then tag 0 for no value or a value encoding. An import
//! map entry is two length-prefixed byte strings — module and field name —
//! then a tag byte (1 = guest function with its 32-bit index, 2 = child
//! memory with its 32-bit id).

use vstd::prelude::*;
use vstd::bytes::{
    spec_u32_from_le_bytes, spec_u32_to_le_bytes, spec_u64_from_le_bytes, spec_u64_to_le_bytes,
    u32_from_le_bytes, u32_to_le_bytes, u64_from_le_bytes, u64_to_le_bytes,
    lemma_auto_spec_u32_to_from_le_bytes, lemma_auto_spec_u64_to_from_le_bytes,
};
use vstd::slice::slice_subrange;
use crate::values::Value;

verus! {

/// The wire format version this engine speaks.
pub const WIRE_VERSION: u8 = 1;

/// An error decoding wire-format bytes.
#[derive(Copy, Clone, PartialEq, Eq, Structural, Debug)]
pub enum WireError {
    /// The bytes are not a well-formed encoding in this format.
    Malformed,
}

/// The encoding of one typed value: its tag byte and fixed-width payload.
pub open spec fn spec_encode_value(v: Value) -> Seq<u8> {
    match v {
        Value::I32(x) => seq![1u8] + spec_u32_to_le_bytes(x as u32),
        Value::I64(x) => seq![2u8] + spec_u64_to_le_bytes(x as u64),
        Value::F32(x) => seq![3u8] + spec_u32_to_le_bytes(x),
        Value::F64(x) => seq![4u8] + spec_u64_to_le_bytes(x),
    }
}

/// The back-to-back encodings of a sequence of typed values.
pub open spec fn spec_encode_values(vs: Seq<Value>) -> Seq<u8>
    decreases vs.len(),
{
    if vs.len() == 0 {
        Seq::<u8>::empty()
    } else {
        spec_encode_value(vs[0]) + spec_encode_values(vs.drop_first())
    }
}

/// The encoding of a whole value list: version, count, values.
pub open spec fn spec_encode_value_list(vs: Seq<Value>) -> Seq<u8> {
    seq![WIRE_VERSION] + spec_u32_to_le_bytes(vs.len() as u32) + spec_encode_values(vs)
}

/// Decode one typed value at `pos`: the value and the position after it.
pub open spec fn spec_decode_value(bytes: Seq<u8>, pos: int) -> Option<(Value, int)> {
    if 0 <= pos < bytes.len() {
        if bytes[pos] == 1 && pos + 5 <= bytes.len() {
            Some(
                (
                    Value::I32(spec_u32_from_le_bytes(bytes.subrange(pos + 1, pos + 5)) as i32),
                    pos + 5,
                ),
            )
        } else if bytes[pos] == 2 && pos + 9 <= bytes.len() {
            Some(
                (
                    Value::I64(spec_u64_from_le_bytes(bytes.subrange(pos + 1, pos + 9)) as i64),
                    pos + 9,
                ),
            )
        } else if bytes[pos] == 3 && pos + 5 <= bytes.len() {
            Some((Value::F32(spec_u32_from_le_bytes(bytes.subrange(pos + 1, pos + 5))), pos + 5))
        } else if bytes[pos] == 4 && pos + 9 <= bytes.len() {
            Some((Value::F64(spec_u64_from_le_bytes(bytes.subrange(pos + 1, pos + 9))), pos + 9))
        } else {
            None
        }
    } else {
        None
    }
}

/// Decode `count` typed values starting at `pos`: the values and the
/// position after them.
pub open spec fn spec_decode_values(bytes: Seq<u8>, pos: int, count: nat) -> Option<
    (Seq<Value>, int),
>
    decreases count,
{
    if count == 0 {
        Some((Seq::<Value>::empty(), pos))
    } else {
        match spec_decode_value(bytes, pos) {
            Some((v, p2)) => match spec_decode_values(bytes, p2, (count - 1) as nat) {
                Some((vs, p3)) => Some((seq![v] + vs, p3)),
                None => None,
            },
            None => None,
        }
    }
}

/// Decode a whole value list; `None` exactly when the bytes are not a
/// complete, well-formed list in this format.
pub open spec fn spec_decode_value_list(bytes: Seq<u8>) -> Option<Seq<Value>> {
    if bytes.len() >= 5 && bytes[0] == WIRE_VERSION {
        match spec_decode_values(
            bytes,
            5,
            spec_u32_from_le_bytes(bytes.subrange(1, 5)) as nat,
        ) {
            Some((vs, p)) => if p == bytes.len() {
                Some(vs)
            } else {
                None
            },
            None => None,
        }
    } else {
        None
    }
}

/// Encode one typed value.
fn encode_value_into(out: &mut Vec<u8>, v: Value)
    ensures
        final(out)@ == old(out)@ + spec_encode_value(v),
{
    match v {
        Value::I32(x) => {
            out.push(1u8);
            let mut payload = u32_to_le_bytes(x as u32);
            out.append(&mut payload);
        },
        Value::I64(x) => {
            out.push(2u8);
            let mut payload = u64_to_le_bytes(x as u64);
            out.append(&mut payload);
        },
        Value::F32(x) => {
            out.push(3u8);
            let mut payload = u32_to_le_bytes(x);
            out.append(&mut payload);
        },
        Value::F64(x) => {
            out.push(4u8);
            let mut payload = u64_to_le_bytes(x);
            out.append(&mut payload);
        },
    }
    proof {
        assert(final(out)@ =~= old(out)@ + spec_encode_value(v));
    }
}

/// Encode a value list for the boundary: version, count, values.
pub fn encode_value_list(vs: &Vec<Value>) -> (r: Result<Vec<u8>, WireError>)
    ensures
        r is Ok <==> vs@.len() <= u32::MAX,
        r is Ok ==> r->Ok_0@ == spec_encode_value_list(vs@),
{
    if vs.len() > u32::MAX as usize {
        return Err(WireError::Malformed);
    }
    let mut out: Vec<u8> = Vec::new();
    out.push(WIRE_VERSION);
    let mut count_bytes = u32_to_le_bytes(vs.len() as u32);
    out.append(&mut count_bytes);
    proof {
        assert(out@ =~= seq![WIRE_VERSION] + spec_u32_to_le_bytes(vs@.len() as u32));
    }
    let mut i: usize = 0;
    while i < vs.len()
        invariant
            i <= vs@.len(),
            out@ == seq![WIRE_VERSION] + spec_u32_to_le_bytes(vs@.len() as u32)
                + spec_encode_values(vs@.subrange(0, i as int)),
        decreases vs@.len() - i,
    {
        encode_value_into(&mut out, vs[i]);
        proof {
            lemma_encode_values_snoc(vs@.subrange(0, i as int), vs@[i as int]);
            assert(vs@.subrange(0, i as int).push(vs@[i as int]) =~= vs@.subrange(0, i + 1));
        }
        i = i + 1;
    }
    proof {
        assert(vs@.subrange(0, vs@.len() as int) =~= vs@);
    }
    Ok(out)
}

/// Appending one value to a sequence appends its encoding to the bytes.
proof fn lemma_encode_values_snoc(vs: Seq<Value>, v: Value)
    ensures
        spec_encode_values(vs.push(v)) == spec_encode_values(vs) + spec_encode_value(v),
    decreases vs.len(),
{
    if vs.len() == 0 {
        reveal_with_fuel(spec_encode_values, 2);
        assert(vs.push(v)[0] == v);
        assert(vs.push(v).drop_first() =~= Seq::<Value>::empty());
        assert(spec_encode_values(vs.push(v)) == spec_encode_value(v) + Seq::<u8>::empty());
        assert(spec_encode_value(v) + Seq::<u8>::empty() =~= spec_encode_value(v));
        assert(Seq::<u8>::empty() + spec_encode_value(v) =~= spec_encode_value(v));
    } else {
        assert(vs.push(v).drop_first() =~= vs.drop_first().push(v));
        assert(vs.push(v)[0] == vs[0]);
        lemma_encode_values_snoc(vs.drop_first(), v);
        assert(spec_encode_values(vs.push(v)) == spec_encode_value(vs[0]) + spec_encode_values(
            vs.drop_first().push(v),
        ));
        assert(spec_encode_value(vs[0]) + (spec_encode_values(vs.drop_first())
            + spec_encode_value(v)) =~= (spec_encode_value(vs[0]) + spec_encode_values(
            vs.drop_first(),
        )) + spec_encode_value(v));
    }
}

/// Decode one typed value at `pos`.
fn decode_value_at(bytes: &[u8], pos: usize) -> (r: Result<(Value, usize), WireError>)
    requires
        pos <= bytes@.len(),
        bytes@.len() <= u32::MAX,
    ensures
        r is Ok <==> spec_decode_value(bytes@, pos as int) is Some,
        r is Ok ==> {
            &&& spec_decode_value(bytes@, pos as int) == Some(
                (r->Ok_0.0, r->Ok_0.1 as int),
            )
            &&& pos < r->Ok_0.1 <= bytes@.len()
        },
{
    if pos >= bytes.len() {
        return Err(WireError::Malformed);
    }
    let tag = *vstd::slice::slice_index_get(bytes, pos);
    let avail = bytes.len() - pos;
    if tag == 1 && avail >= 5 {
        let payload = slice_subrange(bytes, pos + 1, pos + 5);
        let x = u32_from_le_bytes(payload);
        Ok((Value::I32(#[verifier::truncate] (x as i32), ), pos + 5))
    } else if tag == 2 && avail >= 9 {
        let payload = slice_subrange(bytes, pos + 1, pos + 9);
        let x = u64_from_le_bytes(payload);
        Ok((Value::I64(#[verifier::truncate] (x as i64), ), pos + 9))
    } else if tag == 3 && avail >= 5 {
        let payload = slice_subrange(bytes, pos + 1, pos + 5);
        let x = u32_from_le_bytes(payload);
        Ok((Value::F32(x), pos + 5))
    } else if tag == 4 && avail >= 9 {
        let payload = slice_subrange(bytes, pos + 1, pos + 9);
        let x = u64_from_le_bytes(payload);
        Ok((Value::F64(x), pos + 9))
    } else {
        Err(WireError::Malformed)
    }
}

/// Decode a whole value list, strictly: the version must match, the count
/// must be met, and no bytes may trail. Returns `Malformed` exactly when
/// the bytes are not such an encoding.
pub fn decode_value_list(bytes: &[u8]) -> (r: Result<Vec<Value>, WireError>)
    requires
        bytes@.len() <= u32::MAX,
    ensures
        r is Ok <==> spec_decode_value_list(bytes@) is Some,
        r is Ok ==> Some(r->Ok_0@) == spec_decode_value_list(bytes@),
{
    if bytes.len() < 5 {
        return Err(WireError::Malformed);
    }
    let version = *vstd::slice::slice_index_get(bytes, 0);
    if version != WIRE_VERSION {
        return Err(WireError::Malformed);
    }
    let count = u32_from_le_bytes(slice_subrange(bytes, 1, 5));
    proof {
        assert(bytes@.subrange(1int, 5int) == bytes@.subrange(1int, 5int));
    }
    let mut acc: Vec<Value> = Vec::new();
    let mut pos: usize = 5;
    let mut k: u32 = 0;
    while k < count
        invariant
            bytes@.len() <= u32::MAX,
            k <= count,
            pos <= bytes@.len(),
            count == spec_u32_from_le_bytes(bytes@.subrange(1, 5)),
            acc@.len() == k,
            spec_decode_values(bytes@, 5, count as nat) == match spec_decode_values(
                bytes@,
                pos as int,
                (count - k) as nat,
            ) {
                Some((vs, p)) => Some((acc@ + vs, p)),
                None => None,
            },
        decreases count - k,
    {
        let step = decode_value_at(bytes, pos);
        match step {
            Ok((v, next)) => {
                proof {
                    let rest = spec_decode_values(bytes@, next as int, (count - k - 1) as nat);
                    match rest {
                        Some((vs, p)) => {
                            assert(seq![v] + vs =~= Seq::<Value>::empty().push(v) + vs);
                            assert(acc@ + (seq![v] + vs) =~= acc@.push(v) + vs);
                        },
                        None => {},
                    }
                }
                acc.push(v);
                pos = next;
                k = k + 1;
            },
            Err(e) => {
                return Err(e);
            },
        }
    }
    if pos != bytes.len() {
        proof {
            assert(spec_decode_values(bytes@, pos as int, 0) == Some(
                (Seq::<Value>::empty(), pos as int),
            ));
            assert(acc@ + Seq::<Value>::empty() =~= acc@);
        }
        return Err(WireError::Malformed);
    }
    proof {
        assert(acc@ + Seq::<Value>::empty() =~= acc@);
    }
    Ok(acc)
}

/// One value's encoding read back at its own position yields the value.
proof fn lemma_decode_one_encoded(bytes: Seq<u8>, pos: int, v: Value, rest_len: int)
    requires
        0 <= pos,
        rest_len >= 0,
        bytes.len() == pos + spec_encode_value(v).len() + rest_len,
        bytes.subrange(pos, pos + spec_encode_value(v).len()) == spec_encode_value(v),
    ensures
        spec_decode_value(bytes, pos) == Some((v, pos + spec_encode_value(v).len())),
{
    lemma_auto_spec_u32_to_from_le_bytes();
    lemma_auto_spec_u64_to_from_le_bytes();
    let enc = spec_encode_value(v);
    assert(bytes[pos] == enc[0]);
    match v {
        Value::I32(x) => {
            assert(enc[0] == 1u8);
            assert(bytes.subrange(pos + 1, pos + 5) =~= enc.subrange(1, 5));
            assert(enc.subrange(1, 5) =~= spec_u32_to_le_bytes(x as u32));
            assert((x as u32) as i32 == x) by (bit_vector);
        },
        Value::I64(x) => {
            assert(enc[0] == 2u8);
            assert(bytes.subrange(pos + 1, pos + 9) =~= enc.subrange(1, 9));
            assert(enc.subrange(1, 9) =~= spec_u64_to_le_bytes(x as u64));
            assert((x as u64) as i64 == x) by (bit_vector);
        },
        Value::F32(x) => {
            assert(enc[0] == 3u8);
            assert(bytes.subrange(pos + 1, pos + 5) =~= enc.subrange(1, 5));
            assert(enc.subrange(1, 5) =~= spec_u32_to_le_bytes(x));
        },
        Value::F64(x) => {
            assert(enc[0] == 4u8);
            assert(bytes.subrange(pos + 1, pos + 9) =~= enc.subrange(1, 9));
            assert(enc.subrange(1, 9) =~= spec_u64_to_le_bytes(x));
        },
    }
}

/// A run of encoded values read back at its own position yields the values.
proof fn lemma_decode_encoded_values(bytes: Seq<u8>, pos: int, vs: Seq<Value>)
    requires
        0 <= pos,
        bytes.len() >= pos + spec_encode_values(vs).len(),
        bytes.subrange(pos, pos + spec_encode_values(vs).len()) == spec_encode_values(vs),
    ensures
        spec_decode_values(bytes, pos, vs.len()) == Some(
            (vs, pos + spec_encode_values(vs).len()),
        ),
    decreases vs.len(),
{
    if vs.len() == 0 {
        assert(spec_decode_values(bytes, pos, 0) == Some((Seq::<Value>::empty(), pos)));
        assert(vs =~= Seq::<Value>::empty());
    } else {
        let v = vs[0];
        let head = spec_encode_value(v);
        let tail = spec_encode_values(vs.drop_first());
        assert(spec_encode_values(vs) == head + tail);
        assert(bytes.subrange(pos, pos + head.len()) =~= head) by {
            assert forall|i: int| 0 <= i < head.len() implies bytes.subrange(
                pos,
                pos + head.len(),
            )[i] == head[i] by {
                assert(bytes.subrange(pos, pos + (head + tail).len())[i] == (head + tail)[i]);
            }
        }
        lemma_decode_one_encoded(bytes, pos, v, bytes.len() - pos - head.len());
        let p2 = pos + head.len();
        assert(bytes.subrange(p2, p2 + tail.len()) =~= tail) by {
            assert forall|i: int| 0 <= i < tail.len() implies bytes.subrange(
                p2,
                p2 + tail.len(),
            )[i] == tail[i] by {
                assert(bytes.subrange(pos, pos + (head + tail).len())[head.len() + i] == (head
                    + tail)[head.len() + i]);
            }
        }
        lemma_decode_encoded_values(bytes, p2, vs.drop_first());
        assert(seq![v] + vs.drop_first() =~= vs);
    }
}

/// Law: round trip of the wire value list — decoding the encoding of any
/// value list yields exactly that list.
pub proof fn lemma_value_list_round_trip(vs: Seq<Value>)
    requires
        vs.len() <= u32::MAX,
    ensures
        spec_decode_value_list(spec_encode_value_list(vs)) == Some(vs),
{
    lemma_auto_spec_u32_to_from_le_bytes();
    let bytes = spec_encode_value_list(vs);
    let header = seq![WIRE_VERSION] + spec_u32_to_le_bytes(vs.len() as u32);
    assert(header.len() == 5);
    assert(bytes[0] == WIRE_VERSION);
    assert(bytes.subrange(1, 5) =~= spec_u32_to_le_bytes(vs.len() as u32));
    assert(spec_u32_from_le_bytes(bytes.subrange(1, 5)) == vs.len() as u32);
    assert(bytes.subrange(5, 5 + spec_encode_values(vs).len() as int) =~= spec_encode_values(vs));
    lemma_decode_encoded_values(bytes, 5, vs);
}

/// The result of a sandboxed call crossing back over the boundary: either
/// no value or exactly one typed value.
#[derive(Copy, Clone, PartialEq, Eq, Structural, Debug)]
pub enum ReturnValue {
    /// The call returned no value.
    Unit,
    /// The call returned this value.
    Value(Value),
}

/// The largest encoded size of a return value, in bytes.
pub const RETURN_VALUE_MAX_LEN: u32 = 10;

/// The encoding of a return value: version, then tag 0 for no value or a
/// value encoding.
pub open spec fn spec_encode_return_value(rv: ReturnValue) -> Seq<u8> {
    match rv {
        ReturnValue::Unit => seq![WIRE_VERSION] + seq![0u8],
        ReturnValue::Value(v) => seq![WIRE_VERSION] + spec_encode_value(v),
    }
}

/// Decode a return value; `None` exactly when the bytes are not a
/// complete, well-formed encoding of one.
pub open spec fn spec_decode_return_value(bytes: Seq<u8>) -> Option<ReturnValue> {
    if bytes.len() >= 2 && bytes[0] == WIRE_VERSION {
        if bytes[1] == 0 {
            if bytes.len() == 2 {
                Some(ReturnValue::Unit)
            } else {
                None
            }
        } else {
            match spec_decode_value(bytes, 1) {
                Some((v, p)) => if p == bytes.len() {
                    Some(ReturnValue::Value(v))
                } else {
                    None
                },
                None => None,
            }
        }
    } else {
        None
    }
}

/// Encode a return value; never longer than `RETURN_VALUE_MAX_LEN` bytes.
pub fn encode_return_value(rv: ReturnValue) -> (r: Vec<u8>)
    ensures
        r@ == spec_encode_return_value(rv),
        r@.len() <= RETURN_VALUE_MAX_LEN,
{
    let mut out: Vec<u8> = Vec::new();
    out.push(WIRE_VERSION);
    match rv {
        ReturnValue::Unit => {
            out.push(0u8);
        },
        ReturnValue::Value(v) => {
            encode_value_into(&mut out, v);
        },
    }
    proof {
        lemma_auto_spec_u32_to_from_le_bytes();
        lemma_auto_spec_u64_to_from_le_bytes();
        assert(out@ =~= spec_encode_return_value(rv));
    }
    out
}

/// Decode a return value, strictly: the version must match and no bytes
/// may trail. Returns `Malformed` exactly when the bytes are not such an
/// encoding.
pub fn decode_return_value(bytes: &[u8]) -> (r: Result<ReturnValue, WireError>)
    requires
        bytes@.len() <= u32::MAX,
    ensures
        r is Ok <==> spec_decode_return_value(bytes@) is Some,
        r is Ok ==> Some(r->Ok_0) == spec_decode_return_value(bytes@),
{
    if bytes.len() < 2 {
        return Err(WireError::Malformed);
    }
    let version = *vstd::slice::slice_index_get(bytes, 0);
    if version != WIRE_VERSION {
        return Err(WireError::Malformed);
    }
    let tag = *vstd::slice::slice_index_get(bytes, 1);
    if tag == 0 {
        if bytes.len() == 2 {
            Ok(ReturnValue::Unit)
        } else {
            Err(WireError::Malformed)
        }
    } else {
        match decode_value_at(bytes, 1) {
            Ok((v, p)) => {
                if p == bytes.len() {
                    Ok(ReturnValue::Value(v))
                } else {
                    Err(WireError::Malformed)
                }
            },
            Err(e) => Err(e),
        }
    }
}

/// Law: round trip of the wire return value — decoding the encoding of any
/// return value yields exactly that return value.
pub proof fn lemma_return_value_round_trip(rv: ReturnValue)
    ensures
        spec_decode_return_value(spec_encode_return_value(rv)) == Some(rv),
{
    let bytes = spec_encode_return_value(rv);
    match rv {
        ReturnValue::Unit => {
            assert(bytes.len() == 2 && bytes[0] == WIRE_VERSION && bytes[1] == 0);
        },
        ReturnValue::Value(v) => {
            let enc = spec_encode_value(v);
            assert(bytes.subrange(1, 1 + enc.len() as int) =~= enc);
            lemma_decode_one_encoded(bytes, 1, v, 0);
            assert(bytes[1] == enc[0]);
            match v {
                Value::I32(_) => assert(bytes[1] == 1u8),
                Value::I64(_) => assert(bytes[1] == 2u8),
                Value::F32(_) => assert(bytes[1] == 3u8),
                Value::F64(_) => assert(bytes[1] == 4u8),
            }
        },
    }
}

/// What a child import is bound to: an outer guest function, named by its
/// guest function index, or a child memory, named by its sandbox memory id.
#[derive(Copy, Clone, PartialEq, Eq, Structural, Debug)]
pub enum GuestEntity {
    /// An outer guest function index.
    Function(u32),
    /// A sandbox child memory id.
    Memory(u32),
}

/// One entry of a serialized import map: the child import's module and
/// field name, and what it is bound to.
pub struct EnvEntry {
    /// The module name of the child import.
    pub module: Vec<u8>,
    /// The field name of the child import.
    pub field: Vec<u8>,
    /// What the import is bound to.
    pub entity: GuestEntity,
}

/// The encoding of a length-prefixed byte string.
pub open spec fn spec_encode_byte_string(b: Seq<u8>) -> Seq<u8> {
    spec_u32_to_le_bytes(b.len() as u32) + b
}

/// The encoding of an import-map entity: a tag byte and a 32-bit payload.
pub open spec fn spec_encode_entity(e: GuestEntity) -> Seq<u8> {
    match e {
        GuestEntity::Function(i) => seq![1u8] + spec_u32_to_le_bytes(i),
        GuestEntity::Memory(i) => seq![2u8] + spec_u32_to_le_bytes(i),
    }
}

/// The encoding of one import-map entry.
pub open spec fn spec_encode_env_entry(e: &EnvEntry) -> Seq<u8> {
    spec_encode_byte_string(e.module@) + spec_encode_byte_string(e.field@) + spec_encode_entity(
        e.entity,
    )
}

/// The back-to-back encodings of a sequence of import-map entries.
pub open spec fn spec_encode_env_entries(es: Seq<EnvEntry>) -> Seq<u8>
    decreases es.len(),
{
    if es.len() == 0 {
        Seq::<u8>::empty()
    } else {
        spec_encode_env_entry(&es[0]) + spec_encode_env_entries(es.drop_first())
    }
}

/// The encoding of a whole import map: version, count, entries.
pub open spec fn spec_encode_env_def(es: Seq<EnvEntry>) -> Seq<u8> {
    seq![WIRE_VERSION] + spec_u32_to_le_bytes(es.len() as u32) + spec_encode_env_entries(es)
}

/// Whether every name in the import map is short enough to encode.
pub open spec fn spec_env_def_encodable(es: Seq<EnvEntry>) -> bool {
    &&& es.len() <= u32::MAX
    &&& forall|i: int|
        0 <= i < es.len() ==> (#[trigger] es[i]).module@.len() <= u32::MAX && es[i].field@.len()
            <= u32::MAX
}

/// Decode a length-prefixed byte string at `pos`.
pub open spec fn spec_decode_byte_string(bytes: Seq<u8>, pos: int) -> Option<(Seq<u8>, int)> {
    if 0 <= pos && pos + 4 <= bytes.len() {
        let n = spec_u32_from_le_bytes(bytes.subrange(pos, pos + 4)) as int;
        if pos + 4 + n <= bytes.len() {
            Some((bytes.subrange(pos + 4, pos + 4 + n), pos + 4 + n))
        } else {
            None
        }
    } else {
        None
    }
}

/// Decode an import-map entity at `pos`.
pub open spec fn spec_decode_entity(bytes: Seq<u8>, pos: int) -> Option<(GuestEntity, int)> {
    if 0 <= pos < bytes.len() && pos + 5 <= bytes.len() {
        let payload = spec_u32_from_le_bytes(bytes.subrange(pos + 1, pos + 5));
        if bytes[pos] == 1 {
            Some((GuestEntity::Function(payload), pos + 5))
        } else if bytes[pos] == 2 {
            Some((GuestEntity::Memory(payload), pos + 5))
        } else {
            None
        }
    } else {
        None
    }
}

/// The parts of an import-map entry — module name, field name, entity —
/// as decoding recovers them.
pub open spec fn spec_entry_parts(e: EnvEntry) -> (Seq<u8>, Seq<u8>, GuestEntity) {
    (e.module@, e.field@, e.entity)
}

/// Decode one import-map entry at `pos`, as its parts.
pub open spec fn spec_decode_env_entry(bytes: Seq<u8>, pos: int) -> Option<
    ((Seq<u8>, Seq<u8>, GuestEntity), int),
> {
    match spec_decode_byte_string(bytes, pos) {
        Some((module, p2)) => match spec_decode_byte_string(bytes, p2) {
            Some((field, p3)) => match spec_decode_entity(bytes, p3) {
                Some((entity, p4)) => Some(((module, field, entity), p4)),
                None => None,
            },
            None => None,
        },
        None => None,
    }
}

/// Decode `count` import-map entries starting at `pos`, as their parts.
pub open spec fn spec_decode_env_entries(bytes: Seq<u8>, pos: int, count: nat) -> Option<
    (Seq<(Seq<u8>, Seq<u8>, GuestEntity)>, int),
>
    decreases count,
{
    if count == 0 {
        Some((Seq::<(Seq<u8>, Seq<u8>, GuestEntity)>::empty(), pos))
    } else {
        match spec_decode_env_entry(bytes, pos) {
            Some((e, p2)) => match spec_decode_env_entries(bytes, p2, (count - 1) as nat) {
                Some((es, p3)) => Some((seq![e] + es, p3)),
                None => None,
            },
            None => None,
        }
    }
}

/// Whether the bytes are a complete, well-formed import map in this
/// format: the version matches, the counted entries decode, and no bytes
/// trail.
pub open spec fn spec_env_def_wellformed(bytes: Seq<u8>) -> bool {
    &&& bytes.len() >= 5
    &&& bytes[0] == WIRE_VERSION
    &&& match spec_decode_env_entries(
        bytes,
        5,
        spec_u32_from_le_bytes(bytes.subrange(1, 5)) as nat,
    ) {
        Some((es, p)) => p == bytes.len(),
        None => false,
    }
}

/// Encode an import map: version, count, entries.
pub fn encode_env_def(es: &Vec<EnvEntry>) -> (r: Result<Vec<u8>, WireError>)
    ensures
        r is Ok <==> spec_env_def_encodable(es@),
        r is Ok ==> r->Ok_0@ == spec_encode_env_def(es@),
{
    if es.len() > u32::MAX as usize {
        return Err(WireError::Malformed);
    }
    let mut out: Vec<u8> = Vec::new();
    out.push(WIRE_VERSION);
    let mut count_bytes = u32_to_le_bytes(es.len() as u32);
    out.append(&mut count_bytes);
    proof {
        assert(out@ =~= seq![WIRE_VERSION] + spec_u32_to_le_bytes(es@.len() as u32));
    }
    let mut i: usize = 0;
    while i < es.len()
        invariant
            i <= es@.len(),
            forall|k: int|
                0 <= k < i ==> (#[trigger] es@[k]).module@.len() <= u32::MAX && es@[k].field@.len()
                    <= u32::MAX,
            out@ == seq![WIRE_VERSION] + spec_u32_to_le_bytes(es@.len() as u32)
                + spec_encode_env_entries(es@.subrange(0, i as int)),
        decreases es@.len() - i,
    {
        let entry = &es[i];
        if entry.module.len() > u32::MAX as usize || entry.field.len() > u32::MAX as usize {
            return Err(WireError::Malformed);
        }
        let mut module_len = u32_to_le_bytes(entry.module.len() as u32);
        out.append(&mut module_len);
        let mut module_bytes = vstd::slice::slice_to_vec(entry.module.as_slice());
        out.append(&mut module_bytes);
        let mut field_len = u32_to_le_bytes(entry.field.len() as u32);
        out.append(&mut field_len);
        let mut field_bytes = vstd::slice::slice_to_vec(entry.field.as_slice());
        out.append(&mut field_bytes);
        match entry.entity {
            GuestEntity::Function(idx) => {
                out.push(1u8);
                let mut payload = u32_to_le_bytes(idx);
                out.append(&mut payload);
            },
            GuestEntity::Memory(id) => {
                out.push(2u8);
                let mut payload = u32_to_le_bytes(id);
                out.append(&mut payload);
            },
        }
        proof {
            lemma_encode_env_entries_snoc(es@.subrange(0, i as int), es@[i as int]);
            assert(es@.subrange(0, i as int).push(es@[i as int]) =~= es@.subrange(0, i + 1));
            assert(out@ =~= seq![WIRE_VERSION] + spec_u32_to_le_bytes(es@.len() as u32)
                + spec_encode_env_entries(es@.subrange(0, i + 1)));
        }
        i = i + 1;
    }
    proof {
        assert(es@.subrange(0, es@.len() as int) =~= es@);
    }
    Ok(out)
}

/// Appending one entry to a sequence appends its encoding to the bytes.
proof fn lemma_encode_env_entries_snoc(es: Seq<EnvEntry>, e: EnvEntry)
    ensures
        spec_encode_env_entries(es.push(e)) == spec_encode_env_entries(es)
            + spec_encode_env_entry(&e),
    decreases es.len(),
{
    if es.len() == 0 {
        reveal_with_fuel(spec_encode_env_entries, 2);
        assert(es.push(e)[0] == e);
        assert(es.push(e).drop_first() =~= Seq::<EnvEntry>::empty());
        assert(spec_encode_env_entries(es.push(e)) == spec_encode_env_entry(&e)
            + Seq::<u8>::empty());
        assert(spec_encode_env_entry(&e) + Seq::<u8>::empty() =~= spec_encode_env_entry(&e));
        assert(Seq::<u8>::empty() + spec_encode_env_entry(&e) =~= spec_encode_env_entry(&e));
    } else {
        assert(es.push(e).drop_first() =~= es.drop_first().push(e));
        assert(es.push(e)[0] == es[0]);
        lemma_encode_env_entries_snoc(es.drop_first(), e);
        assert(spec_encode_env_entry(&es[0]) + (spec_encode_env_entries(es.drop_first())
            + spec_encode_env_entry(&e)) =~= (spec_encode_env_entry(&es[0])
            + spec_encode_env_entries(es.drop_first())) + spec_encode_env_entry(&e));
    }
}

/// Decode a length-prefixed byte string at `pos`.
fn decode_byte_string_at(bytes: &[u8], pos: usize) -> (r: Result<(Vec<u8>, usize), WireError>)
    requires
        pos <= bytes@.len(),
        bytes@.len() <= u32::MAX,
    ensures
        r is Ok <==> spec_decode_byte_string(bytes@, pos as int) is Some,
        r is Ok ==> {
            &&& spec_decode_byte_string(bytes@, pos as int) == Some(
                (r->Ok_0.0@, r->Ok_0.1 as int),
            )
            &&& pos < r->Ok_0.1 <= bytes@.len()
        },
{
    let avail = bytes.len() - pos;
    if avail < 4 {
        return Err(WireError::Malformed);
    }
    let n = u32_from_le_bytes(slice_subrange(bytes, pos, pos + 4));
    if (n as u64) > (avail as u64) - 4 {
        return Err(WireError::Malformed);
    }
    let end = pos + 4 + (n as usize);
    let data = vstd::slice::slice_to_vec(slice_subrange(bytes, pos + 4, end));
    Ok((data, end))
}

/// Decode a whole import map, strictly: the version must match, the count
/// must be met, and no bytes may trail. Returns `Malformed` exactly when
/// the bytes are not such an encoding.
pub fn decode_env_def(bytes: &[u8]) -> (r: Result<Vec<EnvEntry>, WireError>)
    requires
        bytes@.len() <= u32::MAX,
    ensures
        r is Ok <==> spec_env_def_wellformed(bytes@),
        r is Ok ==> spec_decode_env_entries(
            bytes@,
            5,
            spec_u32_from_le_bytes(bytes@.subrange(1, 5)) as nat,
        ) == Some(
            (r->Ok_0@.map_values(|e: EnvEntry| spec_entry_parts(e)), bytes@.len() as int),
        ),
{
    if bytes.len() < 5 {
        return Err(WireError::Malformed);
    }
    let version = *vstd::slice::slice_index_get(bytes, 0);
    if version != WIRE_VERSION {
        return Err(WireError::Malformed);
    }
    let count = u32_from_le_bytes(slice_subrange(bytes, 1, 5));
    let mut acc: Vec<EnvEntry> = Vec::new();
    let mut pos: usize = 5;
    let mut k: u32 = 0;
    while k < count
        invariant
            bytes@.len() <= u32::MAX,
            k <= count,
            5 <= pos <= bytes@.len(),
            count == spec_u32_from_le_bytes(bytes@.subrange(1, 5)),
            acc@.len() == k,
            spec_decode_env_entries(bytes@, 5, count as nat) == match spec_decode_env_entries(
                bytes@,
                pos as int,
                (count - k) as nat,
            ) {
                Some((es, p)) => Some(
                    (acc@.map_values(|e: EnvEntry| spec_entry_parts(e)) + es, p),
                ),
                None => None,
            },
        decreases count - k,
    {
        let module = match decode_byte_string_at(bytes, pos) {
            Ok(m) => m,
            Err(e) => {
                return Err(e);
            },
        };
        let field = match decode_byte_string_at(bytes, module.1) {
            Ok(f) => f,
            Err(e) => {
                return Err(e);
            },
        };
        let p3 = field.1;
        let avail = bytes.len() - p3;
        if avail < 5 {
            return Err(WireError::Malformed);
        }
        let tag = *vstd::slice::slice_index_get(bytes, p3);
        if tag != 1 && tag != 2 {
            return Err(WireError::Malformed);
        }
        let payload = u32_from_le_bytes(slice_subrange(bytes, p3 + 1, p3 + 5));
        let entity = if tag == 1 {
            GuestEntity::Function(payload)
        } else {
            GuestEntity::Memory(payload)
        };
        let entry = EnvEntry { module: module.0, field: field.0, entity };
        let next = p3 + 5;
        proof {
            let parts = spec_entry_parts(entry);
            assert(spec_decode_env_entry(bytes@, pos as int) == Some((parts, next as int)));
            let f = |e: EnvEntry| spec_entry_parts(e);
            let rest = spec_decode_env_entries(bytes@, next as int, (count - k - 1) as nat);
            match rest {
                Some((es, p)) => {
                    assert(acc@.map_values(f) + (seq![parts] + es) =~= acc@.push(entry).map_values(
                        f,
                    ) + es);
                },
                None => {},
            }
        }
        acc.push(entry);
        pos = next;
        k = k + 1;
    }
    if pos != bytes.len() {
        proof {
            let f = |e: EnvEntry| spec_entry_parts(e);
            assert(acc@.map_values(f) + Seq::<(Seq<u8>, Seq<u8>, GuestEntity)>::empty()
                =~= acc@.map_values(f));
        }
        return Err(WireError::Malformed);
    }
    proof {
        let f = |e: EnvEntry| spec_entry_parts(e);
        assert(acc@.map_values(f) + Seq::<(Seq<u8>, Seq<u8>, GuestEntity)>::empty()
            =~= acc@.map_values(f));
    }
    Ok(acc)
}

} // verus!
