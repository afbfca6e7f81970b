//! Typed values exchanged across the host/guest boundary: the four value
//! kinds, typed guest pointers, function signatures, the lossless two-way
//! mapping between native host types and boundary values, and the packed
//! 64-bit (pointer, length) result convention.

use vstd::prelude::*;
use core::marker::PhantomData;
use crate::sealed::Sealed;

verus! {

/// Value types supported on the boundary between host and guest.
///
/// The two floating kinds are carried as raw bit patterns everywhere in
/// this crate, so no floating-point arithmetic ever happens at the boundary.
#[derive(Copy, Clone, PartialEq, Eq, Structural, Debug)]
pub enum ValueType {
    /// A 32-bit integer.
    I32,
    /// A 64-bit integer.
    I64,
    /// A 32-bit float, always handled as its raw bit pattern.
    F32,
    /// A 64-bit float, always handled as its raw bit pattern.
    F64,
}

/// Values supported on the boundary between host and guest.
#[derive(Copy, Clone, PartialEq, Eq, Structural, Debug)]
pub enum Value {
    /// A 32-bit integer value.
    I32(i32),
    /// A 64-bit integer value.
    I64(i64),
    /// A NaN-preserving 32-bit float value, as its raw bit pattern.
    F32(u32),
    /// A NaN-preserving 64-bit float value, as its raw bit pattern.
    F64(u64),
}

impl Value {
    /// The type of this value.
    pub open spec fn spec_value_type(&self) -> ValueType {
        match self {
            Value::I32(_) => ValueType::I32,
            Value::I64(_) => ValueType::I64,
            Value::F32(_) => ValueType::F32,
            Value::F64(_) => ValueType::F64,
        }
    }

    /// Returns the type of this value.
    pub fn value_type(&self) -> (t: ValueType)
        ensures
            t == self.spec_value_type(),
    {
        match self {
            Value::I32(_) => ValueType::I32,
            Value::I64(_) => ValueType::I64,
            Value::F32(_) => ValueType::F32,
            Value::F64(_) => ValueType::F64,
        }
    }
}

/// Something that can be wrapped in a guest `Pointer`.
///
/// This trait is sealed: exactly the four unsigned word widths implement it.
pub trait PointerType: Sealed + Sized + Copy {
    /// The width of the type in guest memory, in bytes.
    spec fn spec_size() -> u32;

    /// Returns the width of the type in guest memory, in bytes.
    fn size() -> (r: u32)
        ensures
            r == Self::spec_size(),
            1 <= r <= 8,
    ;
}

impl PointerType for u8 {
    open spec fn spec_size() -> u32 {
        1
    }

    fn size() -> u32 {
        1
    }
}

impl PointerType for u16 {
    open spec fn spec_size() -> u32 {
        2
    }

    fn size() -> u32 {
        2
    }
}

impl PointerType for u32 {
    open spec fn spec_size() -> u32 {
        4
    }

    fn size() -> u32 {
        4
    }
}

impl PointerType for u64 {
    open spec fn spec_size() -> u32 {
        8
    }

    fn size() -> u32 {
        8
    }
}

/// A pointer into guest linear memory, tagged with the element width of
/// what it points at.
///
/// The offset is an opaque 32-bit guest address: it is never dereferenced
/// directly, only resolved through the bounds-checked linear-memory
/// accessors.
#[derive(Debug, PartialEq, Eq, Copy)]
pub struct Pointer<T: PointerType> {
    ptr: u32,
    _marker: PhantomData<T>,
}

impl<T: PointerType> Clone for Pointer<T> {
    fn clone(&self) -> (r: Self)
        ensures
            r == *self,
    {
        *self
    }
}

impl<T: PointerType> Pointer<T> {
    /// The guest address this pointer holds.
    pub closed spec fn addr(&self) -> u32 {
        self.ptr
    }

    /// Create a new pointer from a raw guest address.
    pub fn new(ptr: u32) -> (r: Self)
        ensures
            r.addr() == ptr,
    {
        Self { ptr, _marker: PhantomData }
    }

    /// Calculate the offset from this pointer.
    ///
    /// `offset` is in units of `T`, so `3` moves the pointer by three times
    /// the element width. Returns `None` exactly when the scaled offset
    /// arithmetic would overflow a 32-bit guest address.
    pub fn offset(self, offset: u32) -> (r: Option<Self>)
        ensures
            r is Some <==> self.addr() + offset * T::spec_size() <= u32::MAX,
            r is Some ==> r->Some_0.addr() == self.addr() + offset * T::spec_size(),
    {
        match offset.checked_mul(T::size()) {
            Some(scaled) => match self.ptr.checked_add(scaled) {
                Some(ptr) => Some(Self { ptr, _marker: PhantomData }),
                None => None,
            },
            None => {
                proof {
                    assert(offset * T::spec_size() > u32::MAX);
                }
                None
            },
        }
    }

    /// Create a null pointer.
    pub fn null() -> (r: Self)
        ensures
            r.addr() == 0,
    {
        Self::new(0)
    }

    /// Cast this pointer of type `T` to a pointer of type `R`, keeping the
    /// guest address.
    pub fn cast<R: PointerType>(self) -> (r: Pointer<R>)
        ensures
            r.addr() == self.addr(),
    {
        Pointer::<R>::new(self.ptr)
    }

    /// The raw guest address, as the guest word type.
    pub fn raw(self) -> (r: u32)
        ensures
            r == self.addr(),
    {
        self.ptr
    }
}

/// Copy a list of value types element by element.
fn clone_value_types(v: &Vec<ValueType>) -> (r: Vec<ValueType>)
    ensures
        r@ == v@,
{
    let mut r: Vec<ValueType> = Vec::new();
    let mut i: usize = 0;
    while i < v.len()
        invariant
            i <= v@.len(),
            r@ == v@.subrange(0, i as int),
        decreases v@.len() - i,
    {
        r.push(v[i]);
        proof {
            assert(r@ =~= v@.subrange(0, i + 1 as int));
        }
        i = i + 1;
    }
    proof {
        assert(r@ =~= v@);
    }
    r
}

/// The signature of a boundary function: its ordered argument types and
/// its optional return type.
#[derive(Debug)]
pub struct Signature {
    /// The argument types of the function, in order.
    pub args: Vec<ValueType>,
    /// The return type of the function, if it returns a value.
    pub return_value: Option<ValueType>,
}

impl Clone for Signature {
    fn clone(&self) -> (r: Self)
        ensures
            r.args@ == self.args@,
            r.return_value == self.return_value,
    {
        Signature { args: clone_value_types(&self.args), return_value: self.return_value }
    }
}

impl Signature {
    /// Create a new signature from argument types and an optional return
    /// type.
    pub fn new(args: Vec<ValueType>, return_value: Option<ValueType>) -> (r: Self)
        ensures
            r.args == args,
            r.return_value == return_value,
    {
        Self { args, return_value }
    }

    /// Create a new signature with the given argument types and no return
    /// value.
    pub fn new_with_args(args: Vec<ValueType>) -> (r: Self)
        ensures
            r.args == args,
            r.return_value is None,
    {
        Self { args, return_value: None }
    }

    /// Two signatures describe the same boundary function shape: same
    /// argument count, same argument types in order, same return type.
    pub open spec fn spec_matches(&self, other: &Signature) -> bool {
        self.args@ == other.args@ && self.return_value == other.return_value
    }

    /// Whether this signature equals `other` exactly: argument count, each
    /// argument type, and return type.
    pub fn matches(&self, other: &Signature) -> (r: bool)
        ensures
            r == self.spec_matches(other),
    {
        if self.args.len() != other.args.len() {
            proof {
                assert(self.args@.len() != other.args@.len());
            }
            return false;
        }
        let rv_eq = match (self.return_value, other.return_value) {
            (None, None) => true,
            (Some(a), Some(b)) => a == b,
            _ => false,
        };
        if !rv_eq {
            return false;
        }
        let mut i: usize = 0;
        while i < self.args.len()
            invariant
                i <= self.args@.len(),
                self.args@.len() == other.args@.len(),
                self.return_value == other.return_value,
                forall|j: int| 0 <= j < i ==> self.args@[j] == other.args@[j],
            decreases self.args@.len() - i,
        {
            if self.args[i] != other.args[i] {
                return false;
            }
            i = i + 1;
        }
        proof {
            assert(self.args@ =~= other.args@);
        }
        true
    }
}

/// Something that can be converted into a boundary `Value`, losslessly.
pub trait IntoValue: Sized {
    /// The boundary type the conversion produces.
    spec fn spec_value_type() -> ValueType;

    /// The exact boundary value `self` maps to.
    spec fn spec_into_value(self) -> Value;

    /// The boundary type the conversion produces.
    fn value_type() -> (t: ValueType)
        ensures
            t == Self::spec_value_type(),
    ;

    /// Convert `self` into a boundary `Value`.
    fn into_value(self) -> (v: Value)
        ensures
            v == self.spec_into_value(),
            v.spec_value_type() == Self::spec_value_type(),
    ;
}

/// Something that may be recovered from a boundary `Value`.
pub trait TryFromValue: Sized {
    /// The exact result of the conversion: `Some` for values of the
    /// matching kind, `None` otherwise.
    spec fn spec_try_from_value(val: Value) -> Option<Self>;

    /// Try to convert the given `Value` into `Self`.
    fn try_from_value(val: Value) -> (r: Option<Self>)
        ensures
            r == Self::spec_try_from_value(val),
    ;
}

impl IntoValue for u32 {
    open spec fn spec_value_type() -> ValueType {
        ValueType::I32
    }

    open spec fn spec_into_value(self) -> Value {
        Value::I32(self as i32)
    }

    fn value_type() -> ValueType {
        ValueType::I32
    }

    fn into_value(self) -> Value {
        Value::I32(self as i32)
    }
}

impl TryFromValue for u32 {
    open spec fn spec_try_from_value(val: Value) -> Option<u32> {
        match val {
            Value::I32(v) => Some(v as u32),
            _ => None,
        }
    }

    fn try_from_value(val: Value) -> Option<u32> {
        match val {
            Value::I32(v) => Some(v as u32),
            _ => None,
        }
    }
}

impl IntoValue for i32 {
    open spec fn spec_value_type() -> ValueType {
        ValueType::I32
    }

    open spec fn spec_into_value(self) -> Value {
        Value::I32(self)
    }

    fn value_type() -> ValueType {
        ValueType::I32
    }

    fn into_value(self) -> Value {
        Value::I32(self)
    }
}

impl TryFromValue for i32 {
    open spec fn spec_try_from_value(val: Value) -> Option<i32> {
        match val {
            Value::I32(v) => Some(v),
            _ => None,
        }
    }

    fn try_from_value(val: Value) -> Option<i32> {
        match val {
            Value::I32(v) => Some(v),
            _ => None,
        }
    }
}

impl IntoValue for u64 {
    open spec fn spec_value_type() -> ValueType {
        ValueType::I64
    }

    open spec fn spec_into_value(self) -> Value {
        Value::I64(self as i64)
    }

    fn value_type() -> ValueType {
        ValueType::I64
    }

    fn into_value(self) -> Value {
        Value::I64(self as i64)
    }
}

impl TryFromValue for u64 {
    open spec fn spec_try_from_value(val: Value) -> Option<u64> {
        match val {
            Value::I64(v) => Some(v as u64),
            _ => None,
        }
    }

    fn try_from_value(val: Value) -> Option<u64> {
        match val {
            Value::I64(v) => Some(v as u64),
            _ => None,
        }
    }
}

impl IntoValue for i64 {
    open spec fn spec_value_type() -> ValueType {
        ValueType::I64
    }

    open spec fn spec_into_value(self) -> Value {
        Value::I64(self)
    }

    fn value_type() -> ValueType {
        ValueType::I64
    }

    fn into_value(self) -> Value {
        Value::I64(self)
    }
}

impl TryFromValue for i64 {
    open spec fn spec_try_from_value(val: Value) -> Option<i64> {
        match val {
            Value::I64(v) => Some(v),
            _ => None,
        }
    }

    fn try_from_value(val: Value) -> Option<i64> {
        match val {
            Value::I64(v) => Some(v),
            _ => None,
        }
    }
}

impl<T: PointerType> IntoValue for Pointer<T> {
    open spec fn spec_value_type() -> ValueType {
        ValueType::I32
    }

    open spec fn spec_into_value(self) -> Value {
        Value::I32(self.addr() as i32)
    }

    fn value_type() -> ValueType {
        ValueType::I32
    }

    fn into_value(self) -> Value {
        Value::I32(self.raw() as i32)
    }
}

impl<T: PointerType> TryFromValue for Pointer<T> {
    closed spec fn spec_try_from_value(val: Value) -> Option<Pointer<T>> {
        match val {
            Value::I32(v) => Some(Pointer { ptr: v as u32, _marker: PhantomData }),
            _ => None,
        }
    }

    fn try_from_value(val: Value) -> (r: Option<Pointer<T>>)
        ensures
            val is I32 ==> r is Some && r->Some_0.addr() == val->I32_0 as u32,
            !(val is I32) ==> r is None,
    {
        match val {
            Value::I32(v) => Some(Pointer::<T>::new(v as u32)),
            _ => None,
        }
    }
}

/// Law: decoding the boundary value of a native `u32` yields the value back.
pub proof fn lemma_value_round_trip_u32(x: u32)
    ensures
        u32::spec_try_from_value(x.spec_into_value()) == Some(x),
{
    assert((x as i32) as u32 == x) by (bit_vector);
}

/// Law: decoding the boundary value of a native `i32` yields the value back.
pub proof fn lemma_value_round_trip_i32(x: i32)
    ensures
        i32::spec_try_from_value(x.spec_into_value()) == Some(x),
{
}

/// Law: decoding the boundary value of a native `u64` yields the value back.
pub proof fn lemma_value_round_trip_u64(x: u64)
    ensures
        u64::spec_try_from_value(x.spec_into_value()) == Some(x),
{
    assert((x as i64) as u64 == x) by (bit_vector);
}

/// Law: decoding the boundary value of a native `i64` yields the value back.
pub proof fn lemma_value_round_trip_i64(x: i64)
    ensures
        i64::spec_try_from_value(x.spec_into_value()) == Some(x),
{
}

/// Law: decoding the boundary value of a guest pointer yields a pointer to
/// the same guest address.
pub proof fn lemma_value_round_trip_pointer<T: PointerType>(p: Pointer<T>)
    ensures
        Pointer::<T>::spec_try_from_value(p.spec_into_value()) == Some(p),
{
    let x = p.ptr;
    assert((x as i32) as u32 == x) by (bit_vector);
}

/// The fixed packed-result convention for the single 64-bit value an
/// exported entry point returns: the high 32 bits hold the length, the low
/// 32 bits hold the pointer.
pub open spec fn spec_pack_result(ptr: u32, len: u32) -> u64 {
    ((len as u64) << 32) | (ptr as u64)
}

/// Encode a (pointer, length) pair into one 64-bit packed result: length in
/// the high 32 bits, pointer in the low 32 bits.
pub fn encode_packed_result(ptr: u32, len: u32) -> (r: u64)
    ensures
        r == spec_pack_result(ptr, len),
{
    ((len as u64) << 32u64) | (ptr as u64)
}

/// Decode a packed 64-bit result into its (pointer, length) pair: the
/// pointer from the low 32 bits, the length from the high 32 bits.
pub fn decode_packed_result(packed: u64) -> (r: (u32, u32))
    ensures
        packed == spec_pack_result(r.0, r.1),
        r.0 == packed & 0xffff_ffff,
        r.1 == packed >> 32,
{
    proof {
        assert(packed & 0xffff_ffff <= 0xffff_ffffu64) by (bit_vector);
        assert(packed >> 32 <= 0xffff_ffffu64) by (bit_vector);
    }
    let ptr = (packed & 0xffff_ffffu64) as u32;
    let len = (packed >> 32u64) as u32;
    proof {
        lemma_packed_bits(packed);
    }
    (ptr, len)
}

proof fn lemma_packed_bits(packed: u64)
    ensures
        spec_pack_result((packed & 0xffff_ffff) as u32, (packed >> 32) as u32) == packed,
{
    assert((((packed >> 32) as u32 as u64) << 32) | ((packed & 0xffff_ffff) as u32 as u64)
        == packed) by (bit_vector);
}

/// Law: packing a (pointer, length) pair and decoding the packed value
/// yields exactly the pair back, for every pointer and length, with no
/// overflow and no collision between distinct pairs.
pub proof fn lemma_packed_result_round_trip(ptr: u32, len: u32)
    ensures
        spec_pack_result(ptr, len) & 0xffff_ffff == ptr,
        spec_pack_result(ptr, len) >> 32 == len,
{
    let packed = spec_pack_result(ptr, len);
    assert((((len as u64) << 32) | (ptr as u64)) & 0xffff_ffff == ptr) by (bit_vector);
    assert((((len as u64) << 32) | (ptr as u64)) >> 32 == len) by (bit_vector);
}

} // verus!
