//! What holds of the mapping as a whole.

use crate::array::{ArrayData, ArrowArray};
use crate::deserialize::{deserialize_all, deserialize_column, models, ArrowDeserialize};
use crate::field::{
    list_of, ArrowEnableVecForType, ArrowField, FieldDescriptor, FixedSizeBinary, FixedSizeVec,
    LargeBinary, LargeString, LargeVec, LogicalType, DEFAULT_FIELD_NAME, I128,
};
use arrow::buffer::Buffer;
use chrono::{NaiveDate, NaiveDateTime};
use vstd::prelude::*;

verus! {

/// Wrapping a type in `Option` keeps its logical type and makes it nullable.
pub proof fn option_keeps_logical_type<T: ArrowField>()
    ensures
        <Option<T> as ArrowField>::logical_type() == T::logical_type(),
        <Option<T> as ArrowField>::nullable(),
{
}

/// No type of this library but `Option` is nullable.
pub proof fn only_option_is_nullable<
    T: ArrowField + ArrowEnableVecForType,
    const N: usize,
    const P: u8,
    const S: u8,
>()
    ensures
        !<u8 as ArrowField>::nullable(),
        !<u16 as ArrowField>::nullable(),
        !<u32 as ArrowField>::nullable(),
        !<u64 as ArrowField>::nullable(),
        !<i8 as ArrowField>::nullable(),
        !<i16 as ArrowField>::nullable(),
        !<i32 as ArrowField>::nullable(),
        !<i64 as ArrowField>::nullable(),
        !<&'static str as ArrowField>::nullable(),
        !<String as ArrowField>::nullable(),
        !<LargeString as ArrowField>::nullable(),
        !<bool as ArrowField>::nullable(),
        !<NaiveDateTime as ArrowField>::nullable(),
        !<NaiveDate as ArrowField>::nullable(),
        !<Buffer as ArrowField>::nullable(),
        !<Vec<u8> as ArrowField>::nullable(),
        !<LargeBinary as ArrowField>::nullable(),
        !<FixedSizeBinary<N> as ArrowField>::nullable(),
        !<[u8; N] as ArrowField>::nullable(),
        !<I128<P, S> as ArrowField>::nullable(),
        !<Vec<T> as ArrowField>::nullable(),
        !<LargeVec<T> as ArrowField>::nullable(),
        !<FixedSizeVec<T, N> as ArrowField>::nullable(),
        !<[T; N] as ArrowField>::nullable(),
{
}

/// A sequence of bytes is binary data, not a list.
pub proof fn byte_sequence_is_binary()
    ensures
        <Vec<u8> as ArrowField>::logical_type() == (LogicalType::Binary {
            large: false,
            fixed_len: None,
        }),
        !(<Vec<u8> as ArrowField>::logical_type() is List),
{
}

/// A sequence of a repeatable type is a list whose element field has the
/// default name and the type and nullability of the element.
pub proof fn sequence_is_list_of_item<T: ArrowField + ArrowEnableVecForType>()
    ensures
        <Vec<T> as ArrowField>::logical_type() == (LogicalType::List {
            child: Box::new(
                FieldDescriptor {
                    name: DEFAULT_FIELD_NAME,
                    data_type: T::logical_type(),
                    nullable: T::nullable(),
                },
            ),
            large: false,
            fixed_len: None,
        }),
        <Vec<u32> as ArrowField>::logical_type() == (LogicalType::List {
            child: Box::new(
                FieldDescriptor {
                    name: DEFAULT_FIELD_NAME,
                    data_type: LogicalType::Integer { width: 32, signed: false },
                    nullable: false,
                },
            ),
            large: false,
            fixed_len: None,
        }),
{
}

/// A container of fixed length carries that length in its logical type.
pub proof fn fixed_length_is_carried<T: ArrowField + ArrowEnableVecForType, const N: usize>()
    ensures
        <FixedSizeVec<T, N> as ArrowField>::logical_type() == list_of(
            T::logical_type(),
            T::nullable(),
            false,
            Some(N),
        ),
        <[T; N] as ArrowField>::logical_type() == list_of(
            T::logical_type(),
            T::nullable(),
            false,
            Some(N),
        ),
        <FixedSizeBinary<N> as ArrowField>::logical_type() == (LogicalType::Binary {
            large: false,
            fixed_len: Some(N),
        }),
        <[u8; N] as ArrowField>::logical_type() == (LogicalType::Binary {
            large: false,
            fixed_len: Some(N),
        }),
{
}

/// A decimal carries its precision and scale unchanged.
pub proof fn decimal_carries_precision_and_scale<const P: u8, const S: u8>()
    ensures
        <I128<P, S> as ArrowField>::logical_type() == (LogicalType::Decimal {
            precision: P,
            scale: S,
        }),
{
}

/// A null item of a primitive column deserializes to nothing.
pub proof fn null_deserializes_to_nothing()
    ensures
        <u8 as ArrowDeserialize>::deserialize_spec(None) is None,
        <u16 as ArrowDeserialize>::deserialize_spec(None) is None,
        <u32 as ArrowDeserialize>::deserialize_spec(None) is None,
        <u64 as ArrowDeserialize>::deserialize_spec(None) is None,
        <i8 as ArrowDeserialize>::deserialize_spec(None) is None,
        <i16 as ArrowDeserialize>::deserialize_spec(None) is None,
        <i32 as ArrowDeserialize>::deserialize_spec(None) is None,
        <i64 as ArrowDeserialize>::deserialize_spec(None) is None,
        <bool as ArrowDeserialize>::deserialize_spec(None) is None,
        <String as ArrowDeserialize>::deserialize_spec(None) is None,
        <NaiveDateTime as ArrowDeserialize>::deserialize_spec(None) is None,
        <NaiveDate as ArrowDeserialize>::deserialize_spec(None) is None,
        <Vec<u8> as ArrowDeserialize>::deserialize_spec(None) is None,
{
}

/// For a nullable type every item deserializes: a null becomes `None`, and
/// no item gives an `Option` inside an `Option`.
pub proof fn option_never_wraps_twice<T: ArrowDeserialize>(
    v: <T::ArrayType as ArrowArray>::Item,
)
    ensures
        <Option<T> as ArrowDeserialize>::deserialize_spec(v) == Some(T::deserialize_spec(v)),
{
}

/// Every column of the right representation deserializes as a sequence of a
/// nullable type, whatever its items hold.
pub proof fn nullable_items_always_deserialize<T: ArrowDeserialize>(
    items: Seq<<T::ArrayType as ArrowArray>::Item>,
)
    ensures
        deserialize_all::<Option<T>>(items) is Some,
{
    assert forall|i: int| 0 <= i < items.len() implies (#[trigger] <Option<
        T,
    > as ArrowDeserialize>::deserialize_spec(items[i])) is Some by {}
}

/// A column whose representation is not that of `T` has no items for the
/// adapter of `T` and deserializes to nothing.
pub proof fn mismatched_column_is_refused<T: ArrowDeserialize>(b: &ArrayData)
    requires
        b.kind() != <T::ArrayType as ArrowArray>::kind(),
    ensures
        <T::ArrayType as ArrowArray>::items(b) is None,
        deserialize_column::<T>(b) is None,
{
    <T::ArrayType as ArrowArray>::items_iff_kind(b);
}

/// Deserializing a column keeps the number and the order of its items: the
/// value at each place is that of the item at the same place.
pub proof fn deserialization_keeps_order<T: ArrowDeserialize>(b: &ArrayData, out: Seq<T>)
    requires
        deserialize_column::<T>(b) == Some(models::<T>(out)),
    ensures
        <T::ArrayType as ArrowArray>::items(b) matches Some(items) && items.len() == out.len()
            && forall|i: int|
            0 <= i < out.len() ==> T::deserialize_spec(items[i]) == Some(#[trigger] out[i].model()),
{
    let items = <T::ArrayType as ArrowArray>::items(b).unwrap();
    assert(models::<T>(out).len() == out.len());
    assert forall|i: int| 0 <= i < out.len() implies T::deserialize_spec(items[i]) == Some(
        #[trigger] out[i].model(),
    ) by {
        assert(models::<T>(out)[i] == out[i].model());
    }
}

} // verus!
