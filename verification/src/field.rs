//! Schema descriptors: the logical type and field that a native type maps to.

use arrow::buffer::Buffer;
use chrono::{NaiveDate, NaiveDateTime};
use std::marker::PhantomData;
use vstd::prelude::*;

verus! {

/// The field name used for the elements of a list.
pub const DEFAULT_FIELD_NAME: &'static str = "item";

/// The schema-level type of a column.
#[derive(Debug, PartialEq, Eq)]
pub enum LogicalType {
    Boolean,
    /// An integer of `width` bits.
    Integer { width: u8, signed: bool },
    /// A floating-point number of `width` bits.
    Float { width: u8 },
    /// A 128-bit decimal.
    Decimal { precision: u8, scale: u8 },
    /// Nanoseconds since the Unix epoch, without a time zone.
    Timestamp,
    /// Days since the Unix epoch.
    Date32,
    Utf8 { large: bool },
    Binary { large: bool, fixed_len: Option<usize> },
    List { child: Box<FieldDescriptor<'static>>, large: bool, fixed_len: Option<usize> },
    Struct { children: Vec<FieldDescriptor<'static>> },
}

/// A named, typed column slot. Nullability is a bit of its own: it is never
/// folded into the logical type.
#[derive(Debug, PartialEq, Eq)]
pub struct FieldDescriptor<'a> {
    pub name: &'a str,
    pub data_type: LogicalType,
    pub nullable: bool,
}

/// A native type that maps to a column.
pub trait ArrowField {
    /// The in-memory type of a value. It is `Self` except for placeholder
    /// types, which only select a schema shape.
    type Type;

    /// The logical type this native type maps to.
    spec fn logical_type() -> LogicalType;

    /// Whether a column of this type may hold nulls.
    spec fn nullable() -> bool;

    fn data_type() -> (r: LogicalType)
        ensures
            r == Self::logical_type(),
    ;

    fn is_nullable() -> (r: bool)
        ensures
            r == Self::nullable(),
    ;

    /// The field of the given name for this type.
    fn field<'a>(name: &'a str) -> (r: FieldDescriptor<'a>)
        ensures
            r == (FieldDescriptor {
                name,
                data_type: Self::logical_type(),
                nullable: Self::nullable(),
            }),
    {
        FieldDescriptor { name, data_type: Self::data_type(), nullable: Self::is_nullable() }
    }
}

/// Marks the types that may be the element of a list. The list is closed:
/// a type is repeatable only where an impl below says so. `u8` is left out on
/// purpose, so that a sequence of bytes is binary data and never a list.
pub trait ArrowEnableVecForType {

}

impl<T: ArrowField> ArrowField for Option<T> {
    type Type = Option<<T as ArrowField>::Type>;

    open spec fn logical_type() -> LogicalType {
        T::logical_type()
    }

    open spec fn nullable() -> bool {
        true
    }

    fn data_type() -> LogicalType {
        T::data_type()
    }

    fn is_nullable() -> bool {
        true
    }
}

impl ArrowField for u8 {
    type Type = u8;

    open spec fn logical_type() -> LogicalType {
        LogicalType::Integer { width: 8, signed: false }
    }

    open spec fn nullable() -> bool {
        false
    }

    fn data_type() -> LogicalType {
        LogicalType::Integer { width: 8, signed: false }
    }

    fn is_nullable() -> bool {
        false
    }
}

impl ArrowField for u16 {
    type Type = u16;

    open spec fn logical_type() -> LogicalType {
        LogicalType::Integer { width: 16, signed: false }
    }

    open spec fn nullable() -> bool {
        false
    }

    fn data_type() -> LogicalType {
        LogicalType::Integer { width: 16, signed: false }
    }

    fn is_nullable() -> bool {
        false
    }
}

impl ArrowField for u32 {
    type Type = u32;

    open spec fn logical_type() -> LogicalType {
        LogicalType::Integer { width: 32, signed: false }
    }

    open spec fn nullable() -> bool {
        false
    }

    fn data_type() -> LogicalType {
        LogicalType::Integer { width: 32, signed: false }
    }

    fn is_nullable() -> bool {
        false
    }
}

impl ArrowField for u64 {
    type Type = u64;

    open spec fn logical_type() -> LogicalType {
        LogicalType::Integer { width: 64, signed: false }
    }

    open spec fn nullable() -> bool {
        false
    }

    fn data_type() -> LogicalType {
        LogicalType::Integer { width: 64, signed: false }
    }

    fn is_nullable() -> bool {
        false
    }
}

impl ArrowField for i8 {
    type Type = i8;

    open spec fn logical_type() -> LogicalType {
        LogicalType::Integer { width: 8, signed: true }
    }

    open spec fn nullable() -> bool {
        false
    }

    fn data_type() -> LogicalType {
        LogicalType::Integer { width: 8, signed: true }
    }

    fn is_nullable() -> bool {
        false
    }
}

impl ArrowField for i16 {
    type Type = i16;

    open spec fn logical_type() -> LogicalType {
        LogicalType::Integer { width: 16, signed: true }
    }

    open spec fn nullable() -> bool {
        false
    }

    fn data_type() -> LogicalType {
        LogicalType::Integer { width: 16, signed: true }
    }

    fn is_nullable() -> bool {
        false
    }
}

impl ArrowField for i32 {
    type Type = i32;

    open spec fn logical_type() -> LogicalType {
        LogicalType::Integer { width: 32, signed: true }
    }

    open spec fn nullable() -> bool {
        false
    }

    fn data_type() -> LogicalType {
        LogicalType::Integer { width: 32, signed: true }
    }

    fn is_nullable() -> bool {
        false
    }
}

impl ArrowField for i64 {
    type Type = i64;

    open spec fn logical_type() -> LogicalType {
        LogicalType::Integer { width: 64, signed: true }
    }

    open spec fn nullable() -> bool {
        false
    }

    fn data_type() -> LogicalType {
        LogicalType::Integer { width: 64, signed: true }
    }

    fn is_nullable() -> bool {
        false
    }
}

/// Maps a 128-bit integer to a decimal of the given precision and scale.
pub struct I128<const PRECISION: u8, const SCALE: u8> {}

impl<const PRECISION: u8, const SCALE: u8> ArrowField for I128<PRECISION, SCALE> {
    type Type = i128;

    open spec fn logical_type() -> LogicalType {
        LogicalType::Decimal { precision: PRECISION, scale: SCALE }
    }

    open spec fn nullable() -> bool {
        false
    }

    fn data_type() -> LogicalType {
        LogicalType::Decimal { precision: PRECISION, scale: SCALE }
    }

    fn is_nullable() -> bool {
        false
    }
}

impl<'a> ArrowField for &'a str {
    type Type = &'a str;

    open spec fn logical_type() -> LogicalType {
        LogicalType::Utf8 { large: false }
    }

    open spec fn nullable() -> bool {
        false
    }

    fn data_type() -> LogicalType {
        LogicalType::Utf8 { large: false }
    }

    fn is_nullable() -> bool {
        false
    }
}

impl ArrowField for String {
    type Type = String;

    open spec fn logical_type() -> LogicalType {
        LogicalType::Utf8 { large: false }
    }

    open spec fn nullable() -> bool {
        false
    }

    fn data_type() -> LogicalType {
        LogicalType::Utf8 { large: false }
    }

    fn is_nullable() -> bool {
        false
    }
}

/// Text in a column with 64-bit offsets.
pub struct LargeString {}

impl ArrowField for LargeString {
    type Type = String;

    open spec fn logical_type() -> LogicalType {
        LogicalType::Utf8 { large: true }
    }

    open spec fn nullable() -> bool {
        false
    }

    fn data_type() -> LogicalType {
        LogicalType::Utf8 { large: true }
    }

    fn is_nullable() -> bool {
        false
    }
}

impl ArrowField for bool {
    type Type = bool;

    open spec fn logical_type() -> LogicalType {
        LogicalType::Boolean
    }

    open spec fn nullable() -> bool {
        false
    }

    fn data_type() -> LogicalType {
        LogicalType::Boolean
    }

    fn is_nullable() -> bool {
        false
    }
}

impl ArrowField for NaiveDateTime {
    type Type = NaiveDateTime;

    open spec fn logical_type() -> LogicalType {
        LogicalType::Timestamp
    }

    open spec fn nullable() -> bool {
        false
    }

    fn data_type() -> LogicalType {
        LogicalType::Timestamp
    }

    fn is_nullable() -> bool {
        false
    }
}

impl ArrowField for NaiveDate {
    type Type = NaiveDate;

    open spec fn logical_type() -> LogicalType {
        LogicalType::Date32
    }

    open spec fn nullable() -> bool {
        false
    }

    fn data_type() -> LogicalType {
        LogicalType::Date32
    }

    fn is_nullable() -> bool {
        false
    }
}

// A byte buffer is binary data.
impl ArrowField for Buffer {
    type Type = Buffer;

    open spec fn logical_type() -> LogicalType {
        LogicalType::Binary { large: false, fixed_len: None }
    }

    open spec fn nullable() -> bool {
        false
    }

    fn data_type() -> LogicalType {
        LogicalType::Binary { large: false, fixed_len: None }
    }

    fn is_nullable() -> bool {
        false
    }
}

impl ArrowField for Vec<u8> {
    type Type = Vec<u8>;

    open spec fn logical_type() -> LogicalType {
        LogicalType::Binary { large: false, fixed_len: None }
    }

    open spec fn nullable() -> bool {
        false
    }

    fn data_type() -> LogicalType {
        LogicalType::Binary { large: false, fixed_len: None }
    }

    fn is_nullable() -> bool {
        false
    }
}

/// Binary data in a column with 64-bit offsets.
pub struct LargeBinary {}

impl ArrowField for LargeBinary {
    type Type = Vec<u8>;

    open spec fn logical_type() -> LogicalType {
        LogicalType::Binary { large: true, fixed_len: None }
    }

    open spec fn nullable() -> bool {
        false
    }

    fn data_type() -> LogicalType {
        LogicalType::Binary { large: true, fixed_len: None }
    }

    fn is_nullable() -> bool {
        false
    }
}

/// Binary data of exactly `SIZE` bytes per value.
pub struct FixedSizeBinary<const SIZE: usize> {}

impl<const SIZE: usize> ArrowField for FixedSizeBinary<SIZE> {
    type Type = Vec<u8>;

    open spec fn logical_type() -> LogicalType {
        LogicalType::Binary { large: false, fixed_len: Some(SIZE) }
    }

    open spec fn nullable() -> bool {
        false
    }

    fn data_type() -> LogicalType {
        LogicalType::Binary { large: false, fixed_len: Some(SIZE) }
    }

    fn is_nullable() -> bool {
        false
    }
}

impl<const SIZE: usize> ArrowField for [u8; SIZE] {
    type Type = [u8; SIZE];

    open spec fn logical_type() -> LogicalType {
        LogicalType::Binary { large: false, fixed_len: Some(SIZE) }
    }

    open spec fn nullable() -> bool {
        false
    }

    fn data_type() -> LogicalType {
        LogicalType::Binary { large: false, fixed_len: Some(SIZE) }
    }

    fn is_nullable() -> bool {
        false
    }
}

/// The list type whose elements have the given type and nullability. The
/// element field always carries the default name.
pub open spec fn list_of(
    item: LogicalType,
    item_nullable: bool,
    large: bool,
    fixed_len: Option<usize>,
) -> LogicalType {
    LogicalType::List {
        child: Box::new(
            FieldDescriptor { name: DEFAULT_FIELD_NAME, data_type: item, nullable: item_nullable },
        ),
        large,
        fixed_len,
    }
}

impl<T> ArrowField for Vec<T> where T: ArrowField + ArrowEnableVecForType {
    type Type = Vec<<T as ArrowField>::Type>;

    open spec fn logical_type() -> LogicalType {
        list_of(T::logical_type(), T::nullable(), false, None)
    }

    open spec fn nullable() -> bool {
        false
    }

    fn data_type() -> LogicalType {
        LogicalType::List {
            child: Box::new(T::field(DEFAULT_FIELD_NAME)),
            large: false,
            fixed_len: None,
        }
    }

    fn is_nullable() -> bool {
        false
    }
}

/// A list in a column with 64-bit offsets.
pub struct LargeVec<T> {
    d: PhantomData<T>,
}

impl<T> ArrowField for LargeVec<T> where T: ArrowField + ArrowEnableVecForType {
    type Type = Vec<<T as ArrowField>::Type>;

    open spec fn logical_type() -> LogicalType {
        list_of(T::logical_type(), T::nullable(), true, None)
    }

    open spec fn nullable() -> bool {
        false
    }

    fn data_type() -> LogicalType {
        LogicalType::List {
            child: Box::new(T::field(DEFAULT_FIELD_NAME)),
            large: true,
            fixed_len: None,
        }
    }

    fn is_nullable() -> bool {
        false
    }
}

/// A list of exactly `SIZE` elements per value.
pub struct FixedSizeVec<T, const SIZE: usize> {
    d: PhantomData<T>,
}

impl<T, const SIZE: usize> ArrowField for FixedSizeVec<T, SIZE> where T: ArrowField + ArrowEnableVecForType {
    type Type = Vec<<T as ArrowField>::Type>;

    open spec fn logical_type() -> LogicalType {
        list_of(T::logical_type(), T::nullable(), false, Some(SIZE))
    }

    open spec fn nullable() -> bool {
        false
    }

    fn data_type() -> LogicalType {
        LogicalType::List {
            child: Box::new(T::field(DEFAULT_FIELD_NAME)),
            large: false,
            fixed_len: Some(SIZE),
        }
    }

    fn is_nullable() -> bool {
        false
    }
}

impl<T, const SIZE: usize> ArrowField for [T; SIZE] where T: ArrowField + ArrowEnableVecForType {
    type Type = [<T as ArrowField>::Type; SIZE];

    open spec fn logical_type() -> LogicalType {
        list_of(T::logical_type(), T::nullable(), false, Some(SIZE))
    }

    open spec fn nullable() -> bool {
        false
    }

    fn data_type() -> LogicalType {
        LogicalType::List {
            child: Box::new(T::field(DEFAULT_FIELD_NAME)),
            large: false,
            fixed_len: Some(SIZE),
        }
    }

    fn is_nullable() -> bool {
        false
    }
}

impl ArrowEnableVecForType for u16 {

}

impl ArrowEnableVecForType for u32 {

}

impl ArrowEnableVecForType for u64 {

}

impl ArrowEnableVecForType for i8 {

}

impl ArrowEnableVecForType for i16 {

}

impl ArrowEnableVecForType for i32 {

}

impl ArrowEnableVecForType for i64 {

}

impl ArrowEnableVecForType for String {

}

impl ArrowEnableVecForType for LargeString {

}

impl ArrowEnableVecForType for bool {

}

impl ArrowEnableVecForType for NaiveDateTime {

}

impl ArrowEnableVecForType for NaiveDate {

}

impl ArrowEnableVecForType for Vec<u8> {

}

impl ArrowEnableVecForType for Buffer {

}

impl ArrowEnableVecForType for LargeBinary {

}

impl<const SIZE: usize> ArrowEnableVecForType for FixedSizeBinary<SIZE> {

}

impl<const PRECISION: u8, const SCALE: u8> ArrowEnableVecForType for I128<PRECISION, SCALE> {

}

// A nullable element, and a list of any kind, is repeatable where its own
// element is.
impl<T> ArrowEnableVecForType for Option<T> where T: ArrowField + ArrowEnableVecForType {

}

impl<T> ArrowEnableVecForType for Vec<T> where T: ArrowField + ArrowEnableVecForType {

}

impl<T> ArrowEnableVecForType for LargeVec<T> where T: ArrowField + ArrowEnableVecForType {

}

impl<T, const SIZE: usize> ArrowEnableVecForType for FixedSizeVec<T, SIZE> where
    T: ArrowField + ArrowEnableVecForType,
 {

}

} // verus!
