use vstd::prelude::*;
use crate::bytes::{le_bytes, pow256};
use crate::status::DataType;

verus! {

/// A 32-bit float element, held as its bit pattern.
#[derive(Debug, Clone, Copy, PartialEq, Eq, Structural)]
pub struct Float32 {
    pub bits: u32,
}

/// A 64-bit float element, held as its bit pattern.
#[derive(Debug, Clone, Copy, PartialEq, Eq, Structural)]
pub struct Float64 {
    pub bits: u64,
}

/// The closed set of element types a tensor can hold. Each element is
/// stored natively as `width()` little-endian bytes of `bits(v)`.
pub trait TensorType: Sized + Copy {
    spec fn spec_data_type() -> DataType;

    spec fn width() -> nat;

    spec fn bits(v: Self) -> nat;

    spec fn from_bits(n: nat) -> Self;

    spec fn spec_zero() -> Self;

    spec fn spec_one() -> Self;

    proof fn lemma_encoding(v: Self)
        ensures
            1 <= Self::width() <= 8,
            Self::bits(v) < pow256(Self::width()),
            Self::from_bits(Self::bits(v)) == v,
            Self::bits(Self::spec_zero()) == 0,
            !(Self::spec_data_type() is UnknownValue),
    ;

    fn data_type() -> (r: DataType)
        ensures
            r == Self::spec_data_type(),
    ;

    fn one() -> (r: Self)
        ensures
            r == Self::spec_one(),
    ;

    fn zero() -> (r: Self)
        ensures
            r == Self::spec_zero(),
    ;

    fn size() -> (r: usize)
        ensures
            r == Self::width(),
    ;

    fn to_bits(&self) -> (r: u64)
        ensures
            r == Self::bits(*self),
    ;

    fn of_bits(n: u64) -> (r: Self)
        ensures
            r == Self::from_bits(n as nat),
    ;
}

/// The native bytes of one element.
pub open spec fn elem_bytes<T: TensorType>(v: T) -> Seq<u8> {
    le_bytes(T::bits(v), T::width())
}

impl TensorType for u8 {
    open spec fn spec_data_type() -> DataType {
        DataType::UInt8
    }

    open spec fn width() -> nat {
        1
    }

    open spec fn bits(v: Self) -> nat {
        v as nat
    }

    open spec fn from_bits(n: nat) -> Self {
        n as u8
    }

    open spec fn spec_zero() -> Self {
        0
    }

    open spec fn spec_one() -> Self {
        1
    }

    proof fn lemma_encoding(v: Self) {
        reveal_with_fuel(pow256, 2);
        
    }

    fn data_type() -> (r: DataType) {
        DataType::UInt8
    }

    fn one() -> (r: Self) {
        1
    }

    fn zero() -> (r: Self) {
        0
    }

    fn size() -> (r: usize) {
        1
    }

    fn to_bits(&self) -> (r: u64) {
        *self as u64
    }

    fn of_bits(n: u64) -> (r: Self) {
        n as u8
    }
}

impl TensorType for i8 {
    open spec fn spec_data_type() -> DataType {
        DataType::Int8
    }

    open spec fn width() -> nat {
        1
    }

    open spec fn bits(v: Self) -> nat {
        (v as u8) as nat
    }

    open spec fn from_bits(n: nat) -> Self {
        (n as u8) as i8
    }

    open spec fn spec_zero() -> Self {
        0
    }

    open spec fn spec_one() -> Self {
        1
    }

    proof fn lemma_encoding(v: Self) {
        reveal_with_fuel(pow256, 2);
        assert(((v as u8) as i8) == v) by (bit_vector);
    }

    fn data_type() -> (r: DataType) {
        DataType::Int8
    }

    fn one() -> (r: Self) {
        1
    }

    fn zero() -> (r: Self) {
        0
    }

    fn size() -> (r: usize) {
        1
    }

    fn to_bits(&self) -> (r: u64) {
        *self as u8 as u64
    }

    fn of_bits(n: u64) -> (r: Self) {
        n as u8 as i8
    }
}

impl TensorType for u16 {
    open spec fn spec_data_type() -> DataType {
        DataType::UInt16
    }

    open spec fn width() -> nat {
        2
    }

    open spec fn bits(v: Self) -> nat {
        v as nat
    }

    open spec fn from_bits(n: nat) -> Self {
        n as u16
    }

    open spec fn spec_zero() -> Self {
        0
    }

    open spec fn spec_one() -> Self {
        1
    }

    proof fn lemma_encoding(v: Self) {
        reveal_with_fuel(pow256, 3);
        
    }

    fn data_type() -> (r: DataType) {
        DataType::UInt16
    }

    fn one() -> (r: Self) {
        1
    }

    fn zero() -> (r: Self) {
        0
    }

    fn size() -> (r: usize) {
        2
    }

    fn to_bits(&self) -> (r: u64) {
        *self as u64
    }

    fn of_bits(n: u64) -> (r: Self) {
        n as u16
    }
}

impl TensorType for i16 {
    open spec fn spec_data_type() -> DataType {
        DataType::Int16
    }

    open spec fn width() -> nat {
        2
    }

    open spec fn bits(v: Self) -> nat {
        (v as u16) as nat
    }

    open spec fn from_bits(n: nat) -> Self {
        (n as u16) as i16
    }

    open spec fn spec_zero() -> Self {
        0
    }

    open spec fn spec_one() -> Self {
        1
    }

    proof fn lemma_encoding(v: Self) {
        reveal_with_fuel(pow256, 3);
        assert(((v as u16) as i16) == v) by (bit_vector);
    }

    fn data_type() -> (r: DataType) {
        DataType::Int16
    }

    fn one() -> (r: Self) {
        1
    }

    fn zero() -> (r: Self) {
        0
    }

    fn size() -> (r: usize) {
        2
    }

    fn to_bits(&self) -> (r: u64) {
        *self as u16 as u64
    }

    fn of_bits(n: u64) -> (r: Self) {
        n as u16 as i16
    }
}

impl TensorType for u32 {
    open spec fn spec_data_type() -> DataType {
        DataType::UInt32
    }

    open spec fn width() -> nat {
        4
    }

    open spec fn bits(v: Self) -> nat {
        v as nat
    }

    open spec fn from_bits(n: nat) -> Self {
        n as u32
    }

    open spec fn spec_zero() -> Self {
        0
    }

    open spec fn spec_one() -> Self {
        1
    }

    proof fn lemma_encoding(v: Self) {
        reveal_with_fuel(pow256, 5);
        
    }

    fn data_type() -> (r: DataType) {
        DataType::UInt32
    }

    fn one() -> (r: Self) {
        1
    }

    fn zero() -> (r: Self) {
        0
    }

    fn size() -> (r: usize) {
        4
    }

    fn to_bits(&self) -> (r: u64) {
        *self as u64
    }

    fn of_bits(n: u64) -> (r: Self) {
        n as u32
    }
}

impl TensorType for i32 {
    open spec fn spec_data_type() -> DataType {
        DataType::Int32
    }

    open spec fn width() -> nat {
        4
    }

    open spec fn bits(v: Self) -> nat {
        (v as u32) as nat
    }

    open spec fn from_bits(n: nat) -> Self {
        (n as u32) as i32
    }

    open spec fn spec_zero() -> Self {
        0
    }

    open spec fn spec_one() -> Self {
        1
    }

    proof fn lemma_encoding(v: Self) {
        reveal_with_fuel(pow256, 5);
        assert(((v as u32) as i32) == v) by (bit_vector);
    }

    fn data_type() -> (r: DataType) {
        DataType::Int32
    }

    fn one() -> (r: Self) {
        1
    }

    fn zero() -> (r: Self) {
        0
    }

    fn size() -> (r: usize) {
        4
    }

    fn to_bits(&self) -> (r: u64) {
        *self as u32 as u64
    }

    fn of_bits(n: u64) -> (r: Self) {
        n as u32 as i32
    }
}

impl TensorType for u64 {
    open spec fn spec_data_type() -> DataType {
        DataType::UInt64
    }

    open spec fn width() -> nat {
        8
    }

    open spec fn bits(v: Self) -> nat {
        v as nat
    }

    open spec fn from_bits(n: nat) -> Self {
        n as u64
    }

    open spec fn spec_zero() -> Self {
        0
    }

    open spec fn spec_one() -> Self {
        1
    }

    proof fn lemma_encoding(v: Self) {
        reveal_with_fuel(pow256, 9);
        
    }

    fn data_type() -> (r: DataType) {
        DataType::UInt64
    }

    fn one() -> (r: Self) {
        1
    }

    fn zero() -> (r: Self) {
        0
    }

    fn size() -> (r: usize) {
        8
    }

    fn to_bits(&self) -> (r: u64) {
        *self as u64
    }

    fn of_bits(n: u64) -> (r: Self) {
        n as u64
    }
}

impl TensorType for i64 {
    open spec fn spec_data_type() -> DataType {
        DataType::Int64
    }

    open spec fn width() -> nat {
        8
    }

    open spec fn bits(v: Self) -> nat {
        (v as u64) as nat
    }

    open spec fn from_bits(n: nat) -> Self {
        (n as u64) as i64
    }

    open spec fn spec_zero() -> Self {
        0
    }

    open spec fn spec_one() -> Self {
        1
    }

    proof fn lemma_encoding(v: Self) {
        reveal_with_fuel(pow256, 9);
        assert(((v as u64) as i64) == v) by (bit_vector);
    }

    fn data_type() -> (r: DataType) {
        DataType::Int64
    }

    fn one() -> (r: Self) {
        1
    }

    fn zero() -> (r: Self) {
        0
    }

    fn size() -> (r: usize) {
        8
    }

    fn to_bits(&self) -> (r: u64) {
        *self as u64 as u64
    }

    fn of_bits(n: u64) -> (r: Self) {
        n as u64 as i64
    }
}

impl TensorType for Float32 {
    open spec fn spec_data_type() -> DataType {
        DataType::Float
    }

    open spec fn width() -> nat {
        4
    }

    open spec fn bits(v: Self) -> nat {
        v.bits as nat
    }

    open spec fn from_bits(n: nat) -> Self {
        Float32 { bits: n as u32 }
    }

    open spec fn spec_zero() -> Self {
        Float32 { bits: 0 }
    }

    /// The bit pattern of 1.0.
    open spec fn spec_one() -> Self {
        Float32 { bits: 0x3f800000 }
    }

    proof fn lemma_encoding(v: Self) {
        reveal_with_fuel(pow256, 5);
    }

    fn data_type() -> (r: DataType) {
        DataType::Float
    }

    fn one() -> (r: Self) {
        Float32 { bits: 0x3f800000 }
    }

    fn zero() -> (r: Self) {
        Float32 { bits: 0 }
    }

    fn size() -> (r: usize) {
        4
    }

    fn to_bits(&self) -> (r: u64) {
        self.bits as u64
    }

    fn of_bits(n: u64) -> (r: Self) {
        Float32 { bits: n as u32 }
    }
}

impl TensorType for Float64 {
    open spec fn spec_data_type() -> DataType {
        DataType::Double
    }

    open spec fn width() -> nat {
        8
    }

    open spec fn bits(v: Self) -> nat {
        v.bits as nat
    }

    open spec fn from_bits(n: nat) -> Self {
        Float64 { bits: n as u64 }
    }

    open spec fn spec_zero() -> Self {
        Float64 { bits: 0 }
    }

    /// The bit pattern of 1.0.
    open spec fn spec_one() -> Self {
        Float64 { bits: 0x3ff0000000000000 }
    }

    proof fn lemma_encoding(v: Self) {
        reveal_with_fuel(pow256, 9);
    }

    fn data_type() -> (r: DataType) {
        DataType::Double
    }

    fn one() -> (r: Self) {
        Float64 { bits: 0x3ff0000000000000 }
    }

    fn zero() -> (r: Self) {
        Float64 { bits: 0 }
    }

    fn size() -> (r: usize) {
        8
    }

    fn to_bits(&self) -> (r: u64) {
        self.bits as u64
    }

    fn of_bits(n: u64) -> (r: Self) {
        Float64 { bits: n as u64 }
    }
}

impl TensorType for bool {
    open spec fn spec_data_type() -> DataType {
        DataType::Bool
    }

    open spec fn width() -> nat {
        1
    }

    open spec fn bits(v: Self) -> nat {
        if v {
            1
        } else {
            0
        }
    }

    open spec fn from_bits(n: nat) -> Self {
        n != 0
    }

    open spec fn spec_zero() -> Self {
        false
    }

    open spec fn spec_one() -> Self {
        true
    }

    proof fn lemma_encoding(v: Self) {
        reveal_with_fuel(pow256, 2);
    }

    fn data_type() -> (r: DataType) {
        DataType::Bool
    }

    fn one() -> (r: Self) {
        true
    }

    fn zero() -> (r: Self) {
        false
    }

    fn size() -> (r: usize) {
        1
    }

    fn to_bits(&self) -> (r: u64) {
        if *self {
            1
        } else {
            0
        }
    }

    fn of_bits(n: u64) -> (r: Self) {
        n != 0
    }
}

} // verus!
