//! Physical columns and the checked access to them.
//!
//! A column is held as a sum type whose tag is its physical representation.
//! An adapter hands out the items of a column only after it has compared the
//! tag with the representation it expects.

use std::marker::PhantomData;
use vstd::prelude::*;

verus! {

/// Identifies a physical representation.
#[derive(Clone, Copy, Debug, PartialEq, Eq, Structural)]
pub enum ArrayKind {
    Boolean,
    UInt8,
    UInt16,
    UInt32,
    UInt64,
    Int8,
    Int16,
    Int32,
    Int64,
    Utf8,
    Binary,
    List,
}

/// One physical column. Each slot holds a value or a null; the slots of a list
/// column hold a nested column each.
#[derive(Debug, PartialEq, Eq)]
pub enum ArrayData {
    Boolean(Vec<Option<bool>>),
    UInt8(Vec<Option<u8>>),
    UInt16(Vec<Option<u16>>),
    UInt32(Vec<Option<u32>>),
    UInt64(Vec<Option<u64>>),
    Int8(Vec<Option<i8>>),
    Int16(Vec<Option<i16>>),
    Int32(Vec<Option<i32>>),
    Int64(Vec<Option<i64>>),
    Utf8(Vec<Option<String>>),
    Binary(Vec<Option<Vec<u8>>>),
    List(Vec<Option<ArrayData>>),
}

/// The column did not have the representation that the adapter expected.
#[derive(Clone, Copy, Debug, PartialEq, Eq)]
pub struct TypeMismatch {
    pub expected: ArrayKind,
    pub actual: ArrayKind,
}

impl ArrayData {
    /// The representation of this column.
    pub open spec fn kind(&self) -> ArrayKind {
        match self {
            ArrayData::Boolean(_) => ArrayKind::Boolean,
            ArrayData::UInt8(_) => ArrayKind::UInt8,
            ArrayData::UInt16(_) => ArrayKind::UInt16,
            ArrayData::UInt32(_) => ArrayKind::UInt32,
            ArrayData::UInt64(_) => ArrayKind::UInt64,
            ArrayData::Int8(_) => ArrayKind::Int8,
            ArrayData::Int16(_) => ArrayKind::Int16,
            ArrayData::Int32(_) => ArrayKind::Int32,
            ArrayData::Int64(_) => ArrayKind::Int64,
            ArrayData::Utf8(_) => ArrayKind::Utf8,
            ArrayData::Binary(_) => ArrayKind::Binary,
            ArrayData::List(_) => ArrayKind::List,
        }
    }

    /// The number of slots.
    pub open spec fn spec_len(&self) -> nat {
        match self {
            ArrayData::Boolean(v) => v@.len(),
            ArrayData::UInt8(v) => v@.len(),
            ArrayData::UInt16(v) => v@.len(),
            ArrayData::UInt32(v) => v@.len(),
            ArrayData::UInt64(v) => v@.len(),
            ArrayData::Int8(v) => v@.len(),
            ArrayData::Int16(v) => v@.len(),
            ArrayData::Int32(v) => v@.len(),
            ArrayData::Int64(v) => v@.len(),
            ArrayData::Utf8(v) => v@.len(),
            ArrayData::Binary(v) => v@.len(),
            ArrayData::List(v) => v@.len(),
        }
    }

    pub fn array_kind(&self) -> (k: ArrayKind)
        ensures
            k == self.kind(),
    {
        match self {
            ArrayData::Boolean(_) => ArrayKind::Boolean,
            ArrayData::UInt8(_) => ArrayKind::UInt8,
            ArrayData::UInt16(_) => ArrayKind::UInt16,
            ArrayData::UInt32(_) => ArrayKind::UInt32,
            ArrayData::UInt64(_) => ArrayKind::UInt64,
            ArrayData::Int8(_) => ArrayKind::Int8,
            ArrayData::Int16(_) => ArrayKind::Int16,
            ArrayData::Int32(_) => ArrayKind::Int32,
            ArrayData::Int64(_) => ArrayKind::Int64,
            ArrayData::Utf8(_) => ArrayKind::Utf8,
            ArrayData::Binary(_) => ArrayKind::Binary,
            ArrayData::List(_) => ArrayKind::List,
        }
    }

    pub fn len(&self) -> (n: usize)
        ensures
            n == self.spec_len(),
    {
        match self {
            ArrayData::Boolean(v) => v.len(),
            ArrayData::UInt8(v) => v.len(),
            ArrayData::UInt16(v) => v.len(),
            ArrayData::UInt32(v) => v.len(),
            ArrayData::UInt64(v) => v.len(),
            ArrayData::Int8(v) => v.len(),
            ArrayData::Int16(v) => v.len(),
            ArrayData::Int32(v) => v.len(),
            ArrayData::Int64(v) => v.len(),
            ArrayData::Utf8(v) => v.len(),
            ArrayData::Binary(v) => v.len(),
            ArrayData::List(v) => v.len(),
        }
    }
}

/// A physical representation, and the checked access to the columns that
/// have it.
pub trait ArrowArray {
    /// What one slot of such a column yields.
    type Item;

    /// The representation that this adapter expects.
    spec fn kind() -> ArrayKind;

    /// The items of `b`, in storage order, if `b` has this representation.
    spec fn items(b: &ArrayData) -> Option<Seq<Self::Item>>;

    /// A column has items for this adapter exactly when its representation
    /// is the expected one, and then one item for each slot.
    proof fn items_iff_kind(b: &ArrayData)
        ensures
            Self::items(b) is Some <==> b.kind() == Self::kind(),
            Self::items(b) matches Some(s) ==> s.len() == b.spec_len(),
    ;

    /// The items of `b` in storage order, or the mismatch between the
    /// expected representation and that of `b`. The column is only read, so
    /// the items can be asked for again.
    fn iter_from_array_ref<'a>(b: &'a ArrayData) -> (r: Result<&'a Vec<Self::Item>, TypeMismatch>)
        ensures
            r is Ok <==> b.kind() == Self::kind(),
            match r {
                Ok(v) => Self::items(b) == Some(v@),
                Err(e) => Self::items(b) is None && e.expected == Self::kind() && e.actual
                    == b.kind(),
            },
    ;
}

/// The columns of fixed-width values of type `T`.
pub struct PrimitiveArray<T> {
    d: PhantomData<T>,
}

/// The columns of booleans.
pub struct BooleanArray {}

/// The columns of text.
pub struct Utf8Array {}

/// The columns of binary data.
pub struct BinaryArray {}

/// The columns of lists: each item is the nested column of one list.
pub struct ListArray {}

impl ArrowArray for PrimitiveArray<u8> {
    type Item = Option<u8>;

    open spec fn kind() -> ArrayKind {
        ArrayKind::UInt8
    }

    open spec fn items(b: &ArrayData) -> Option<Seq<Option<u8>>> {
        match b {
            ArrayData::UInt8(v) => Some(v@),
            _ => None,
        }
    }

    proof fn items_iff_kind(b: &ArrayData) {
    }

    fn iter_from_array_ref<'a>(b: &'a ArrayData) -> (r: Result<
        &'a Vec<Option<u8>>,
        TypeMismatch,
    >) {
        match b {
            ArrayData::UInt8(v) => Ok(v),
            _ => Err(TypeMismatch { expected: ArrayKind::UInt8, actual: b.array_kind() }),
        }
    }
}

impl ArrowArray for PrimitiveArray<u16> {
    type Item = Option<u16>;

    open spec fn kind() -> ArrayKind {
        ArrayKind::UInt16
    }

    open spec fn items(b: &ArrayData) -> Option<Seq<Option<u16>>> {
        match b {
            ArrayData::UInt16(v) => Some(v@),
            _ => None,
        }
    }

    proof fn items_iff_kind(b: &ArrayData) {
    }

    fn iter_from_array_ref<'a>(b: &'a ArrayData) -> (r: Result<
        &'a Vec<Option<u16>>,
        TypeMismatch,
    >) {
        match b {
            ArrayData::UInt16(v) => Ok(v),
            _ => Err(TypeMismatch { expected: ArrayKind::UInt16, actual: b.array_kind() }),
        }
    }
}

impl ArrowArray for PrimitiveArray<u32> {
    type Item = Option<u32>;

    open spec fn kind() -> ArrayKind {
        ArrayKind::UInt32
    }

    open spec fn items(b: &ArrayData) -> Option<Seq<Option<u32>>> {
        match b {
            ArrayData::UInt32(v) => Some(v@),
            _ => None,
        }
    }

    proof fn items_iff_kind(b: &ArrayData) {
    }

    fn iter_from_array_ref<'a>(b: &'a ArrayData) -> (r: Result<
        &'a Vec<Option<u32>>,
        TypeMismatch,
    >) {
        match b {
            ArrayData::UInt32(v) => Ok(v),
            _ => Err(TypeMismatch { expected: ArrayKind::UInt32, actual: b.array_kind() }),
        }
    }
}

impl ArrowArray for PrimitiveArray<u64> {
    type Item = Option<u64>;

    open spec fn kind() -> ArrayKind {
        ArrayKind::UInt64
    }

    open spec fn items(b: &ArrayData) -> Option<Seq<Option<u64>>> {
        match b {
            ArrayData::UInt64(v) => Some(v@),
            _ => None,
        }
    }

    proof fn items_iff_kind(b: &ArrayData) {
    }

    fn iter_from_array_ref<'a>(b: &'a ArrayData) -> (r: Result<
        &'a Vec<Option<u64>>,
        TypeMismatch,
    >) {
        match b {
            ArrayData::UInt64(v) => Ok(v),
            _ => Err(TypeMismatch { expected: ArrayKind::UInt64, actual: b.array_kind() }),
        }
    }
}

impl ArrowArray for PrimitiveArray<i8> {
    type Item = Option<i8>;

    open spec fn kind() -> ArrayKind {
        ArrayKind::Int8
    }

    open spec fn items(b: &ArrayData) -> Option<Seq<Option<i8>>> {
        match b {
            ArrayData::Int8(v) => Some(v@),
            _ => None,
        }
    }

    proof fn items_iff_kind(b: &ArrayData) {
    }

    fn iter_from_array_ref<'a>(b: &'a ArrayData) -> (r: Result<
        &'a Vec<Option<i8>>,
        TypeMismatch,
    >) {
        match b {
            ArrayData::Int8(v) => Ok(v),
            _ => Err(TypeMismatch { expected: ArrayKind::Int8, actual: b.array_kind() }),
        }
    }
}

impl ArrowArray for PrimitiveArray<i16> {
    type Item = Option<i16>;

    open spec fn kind() -> ArrayKind {
        ArrayKind::Int16
    }

    open spec fn items(b: &ArrayData) -> Option<Seq<Option<i16>>> {
        match b {
            ArrayData::Int16(v) => Some(v@),
            _ => None,
        }
    }

    proof fn items_iff_kind(b: &ArrayData) {
    }

    fn iter_from_array_ref<'a>(b: &'a ArrayData) -> (r: Result<
        &'a Vec<Option<i16>>,
        TypeMismatch,
    >) {
        match b {
            ArrayData::Int16(v) => Ok(v),
            _ => Err(TypeMismatch { expected: ArrayKind::Int16, actual: b.array_kind() }),
        }
    }
}

impl ArrowArray for PrimitiveArray<i32> {
    type Item = Option<i32>;

    open spec fn kind() -> ArrayKind {
        ArrayKind::Int32
    }

    open spec fn items(b: &ArrayData) -> Option<Seq<Option<i32>>> {
        match b {
            ArrayData::Int32(v) => Some(v@),
            _ => None,
        }
    }

    proof fn items_iff_kind(b: &ArrayData) {
    }

    fn iter_from_array_ref<'a>(b: &'a ArrayData) -> (r: Result<
        &'a Vec<Option<i32>>,
        TypeMismatch,
    >) {
        match b {
            ArrayData::Int32(v) => Ok(v),
            _ => Err(TypeMismatch { expected: ArrayKind::Int32, actual: b.array_kind() }),
        }
    }
}

impl ArrowArray for PrimitiveArray<i64> {
    type Item = Option<i64>;

    open spec fn kind() -> ArrayKind {
        ArrayKind::Int64
    }

    open spec fn items(b: &ArrayData) -> Option<Seq<Option<i64>>> {
        match b {
            ArrayData::Int64(v) => Some(v@),
            _ => None,
        }
    }

    proof fn items_iff_kind(b: &ArrayData) {
    }

    fn iter_from_array_ref<'a>(b: &'a ArrayData) -> (r: Result<
        &'a Vec<Option<i64>>,
        TypeMismatch,
    >) {
        match b {
            ArrayData::Int64(v) => Ok(v),
            _ => Err(TypeMismatch { expected: ArrayKind::Int64, actual: b.array_kind() }),
        }
    }
}

impl ArrowArray for BooleanArray {
    type Item = Option<bool>;

    open spec fn kind() -> ArrayKind {
        ArrayKind::Boolean
    }

    open spec fn items(b: &ArrayData) -> Option<Seq<Option<bool>>> {
        match b {
            ArrayData::Boolean(v) => Some(v@),
            _ => None,
        }
    }

    proof fn items_iff_kind(b: &ArrayData) {
    }

    fn iter_from_array_ref<'a>(b: &'a ArrayData) -> (r: Result<
        &'a Vec<Option<bool>>,
        TypeMismatch,
    >) {
        match b {
            ArrayData::Boolean(v) => Ok(v),
            _ => Err(TypeMismatch { expected: ArrayKind::Boolean, actual: b.array_kind() }),
        }
    }
}

impl ArrowArray for Utf8Array {
    type Item = Option<String>;

    open spec fn kind() -> ArrayKind {
        ArrayKind::Utf8
    }

    open spec fn items(b: &ArrayData) -> Option<Seq<Option<String>>> {
        match b {
            ArrayData::Utf8(v) => Some(v@),
            _ => None,
        }
    }

    proof fn items_iff_kind(b: &ArrayData) {
    }

    fn iter_from_array_ref<'a>(b: &'a ArrayData) -> (r: Result<
        &'a Vec<Option<String>>,
        TypeMismatch,
    >) {
        match b {
            ArrayData::Utf8(v) => Ok(v),
            _ => Err(TypeMismatch { expected: ArrayKind::Utf8, actual: b.array_kind() }),
        }
    }
}

impl ArrowArray for BinaryArray {
    type Item = Option<Vec<u8>>;

    open spec fn kind() -> ArrayKind {
        ArrayKind::Binary
    }

    open spec fn items(b: &ArrayData) -> Option<Seq<Option<Vec<u8>>>> {
        match b {
            ArrayData::Binary(v) => Some(v@),
            _ => None,
        }
    }

    proof fn items_iff_kind(b: &ArrayData) {
    }

    fn iter_from_array_ref<'a>(b: &'a ArrayData) -> (r: Result<
        &'a Vec<Option<Vec<u8>>>,
        TypeMismatch,
    >) {
        match b {
            ArrayData::Binary(v) => Ok(v),
            _ => Err(TypeMismatch { expected: ArrayKind::Binary, actual: b.array_kind() }),
        }
    }
}

impl ArrowArray for ListArray {
    type Item = Option<ArrayData>;

    open spec fn kind() -> ArrayKind {
        ArrayKind::List
    }

    open spec fn items(b: &ArrayData) -> Option<Seq<Option<ArrayData>>> {
        match b {
            ArrayData::List(v) => Some(v@),
            _ => None,
        }
    }

    proof fn items_iff_kind(b: &ArrayData) {
    }

    fn iter_from_array_ref<'a>(b: &'a ArrayData) -> (r: Result<
        &'a Vec<Option<ArrayData>>,
        TypeMismatch,
    >) {
        match b {
            ArrayData::List(v) => Ok(v),
            _ => Err(TypeMismatch { expected: ArrayKind::List, actual: b.array_kind() }),
        }
    }
}

} // verus!
