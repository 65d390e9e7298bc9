//! Reconstruction of native values from the items of a column.

use crate::array::{
    ArrayData, ArrowArray, BinaryArray, BooleanArray, ListArray, PrimitiveArray, TypeMismatch,
    Utf8Array,
};
use crate::field::{ArrowEnableVecForType, ArrowField};
use crate::temporal::{
    date32_as_date, date32_to_date_opt, timestamp_ns_as_datetime, timestamp_ns_to_datetime,
    EPOCH_DAYS_FROM_CE,
};
use chrono::{NaiveDate, NaiveDateTime};
use vstd::prelude::*;

verus! {

/// A native type whose values can be rebuilt from the items of a column.
pub trait ArrowDeserialize: ArrowField + Sized {
    /// The physical representation of the columns that hold such values. A
    /// nullable type shares the representation of the type it wraps.
    type ArrayType: ArrowArray;

    /// The mathematical value of a native value.
    type Model;

    spec fn model(&self) -> Self::Model;

    /// What one item of a column deserializes to, if anything.
    spec fn deserialize_spec(v: <Self::ArrayType as ArrowArray>::Item) -> Option<Self::Model>;

    /// Rebuilds the value of one item, or nothing where the item holds none.
    fn arrow_deserialize(v: &<Self::ArrayType as ArrowArray>::Item) -> (r: Option<Self>)
        ensures
            r matches Some(x) ==> Self::deserialize_spec(*v) == Some(x.model()),
            r is None ==> Self::deserialize_spec(*v) is None,
    ;

    /// Rebuilds the value of one item that is known to hold one. A nullable
    /// type overrides this to take one level of optionality off, so that
    /// wrapping a type in `Option` never wraps twice.
    fn arrow_deserialize_internal(v: &<Self::ArrayType as ArrowArray>::Item) -> (r: Self)
        requires
            Self::deserialize_spec(*v) is Some,
        ensures
            Self::deserialize_spec(*v) == Some(r.model()),
    {
        Self::arrow_deserialize(v).unwrap()
    }
}

impl<T: ArrowDeserialize> ArrowDeserialize for Option<T> {
    type ArrayType = <T as ArrowDeserialize>::ArrayType;

    type Model = Option<T::Model>;

    open spec fn model(&self) -> Option<T::Model> {
        match self {
            Some(x) => Some(x.model()),
            None => None,
        }
    }

    open spec fn deserialize_spec(v: <Self::ArrayType as ArrowArray>::Item) -> Option<
        Option<T::Model>,
    > {
        Some(T::deserialize_spec(v))
    }

    fn arrow_deserialize(v: &<Self::ArrayType as ArrowArray>::Item) -> (r: Option<Self>) {
        Some(Self::arrow_deserialize_internal(v))
    }

    fn arrow_deserialize_internal(v: &<Self::ArrayType as ArrowArray>::Item) -> (r: Self) {
        <T as ArrowDeserialize>::arrow_deserialize(v)
    }
}

impl ArrowDeserialize for u8 {
    type ArrayType = PrimitiveArray<u8>;

    type Model = u8;

    open spec fn model(&self) -> u8 {
        *self
    }

    open spec fn deserialize_spec(v: Option<u8>) -> Option<u8> {
        v
    }

    fn arrow_deserialize(v: &Option<u8>) -> (r: Option<Self>) {
        *v
    }
}

impl ArrowDeserialize for u16 {
    type ArrayType = PrimitiveArray<u16>;

    type Model = u16;

    open spec fn model(&self) -> u16 {
        *self
    }

    open spec fn deserialize_spec(v: Option<u16>) -> Option<u16> {
        v
    }

    fn arrow_deserialize(v: &Option<u16>) -> (r: Option<Self>) {
        *v
    }
}

impl ArrowDeserialize for u32 {
    type ArrayType = PrimitiveArray<u32>;

    type Model = u32;

    open spec fn model(&self) -> u32 {
        *self
    }

    open spec fn deserialize_spec(v: Option<u32>) -> Option<u32> {
        v
    }

    fn arrow_deserialize(v: &Option<u32>) -> (r: Option<Self>) {
        *v
    }
}

impl ArrowDeserialize for u64 {
    type ArrayType = PrimitiveArray<u64>;

    type Model = u64;

    open spec fn model(&self) -> u64 {
        *self
    }

    open spec fn deserialize_spec(v: Option<u64>) -> Option<u64> {
        v
    }

    fn arrow_deserialize(v: &Option<u64>) -> (r: Option<Self>) {
        *v
    }
}

impl ArrowDeserialize for i8 {
    type ArrayType = PrimitiveArray<i8>;

    type Model = i8;

    open spec fn model(&self) -> i8 {
        *self
    }

    open spec fn deserialize_spec(v: Option<i8>) -> Option<i8> {
        v
    }

    fn arrow_deserialize(v: &Option<i8>) -> (r: Option<Self>) {
        *v
    }
}

impl ArrowDeserialize for i16 {
    type ArrayType = PrimitiveArray<i16>;

    type Model = i16;

    open spec fn model(&self) -> i16 {
        *self
    }

    open spec fn deserialize_spec(v: Option<i16>) -> Option<i16> {
        v
    }

    fn arrow_deserialize(v: &Option<i16>) -> (r: Option<Self>) {
        *v
    }
}

impl ArrowDeserialize for i32 {
    type ArrayType = PrimitiveArray<i32>;

    type Model = i32;

    open spec fn model(&self) -> i32 {
        *self
    }

    open spec fn deserialize_spec(v: Option<i32>) -> Option<i32> {
        v
    }

    fn arrow_deserialize(v: &Option<i32>) -> (r: Option<Self>) {
        *v
    }
}

impl ArrowDeserialize for i64 {
    type ArrayType = PrimitiveArray<i64>;

    type Model = i64;

    open spec fn model(&self) -> i64 {
        *self
    }

    open spec fn deserialize_spec(v: Option<i64>) -> Option<i64> {
        v
    }

    fn arrow_deserialize(v: &Option<i64>) -> (r: Option<Self>) {
        *v
    }
}

impl ArrowDeserialize for bool {
    type ArrayType = BooleanArray;

    type Model = bool;

    open spec fn model(&self) -> bool {
        *self
    }

    open spec fn deserialize_spec(v: Option<bool>) -> Option<bool> {
        v
    }

    fn arrow_deserialize(v: &Option<bool>) -> (r: Option<Self>) {
        *v
    }
}

impl ArrowDeserialize for String {
    type ArrayType = Utf8Array;

    type Model = Seq<char>;

    open spec fn model(&self) -> Seq<char> {
        self@
    }

    open spec fn deserialize_spec(v: Option<String>) -> Option<Seq<char>> {
        match v {
            Some(s) => Some(s@),
            None => None,
        }
    }

    fn arrow_deserialize(v: &Option<String>) -> (r: Option<Self>) {
        match v {
            Some(s) => Some(s.clone()),
            None => None,
        }
    }
}

impl ArrowDeserialize for NaiveDateTime {
    type ArrayType = PrimitiveArray<i64>;

    type Model = NaiveDateTime;

    open spec fn model(&self) -> NaiveDateTime {
        *self
    }

    /// The item counts nanoseconds since the Unix epoch.
    open spec fn deserialize_spec(v: Option<i64>) -> Option<NaiveDateTime> {
        match v {
            Some(ns) => Some(timestamp_ns_as_datetime(ns)),
            None => None,
        }
    }

    fn arrow_deserialize(v: &Option<i64>) -> (r: Option<Self>) {
        match v {
            Some(ns) => Some(timestamp_ns_to_datetime(*ns)),
            None => None,
        }
    }
}

/// The date of a count of days since the Unix epoch, where there is one.
pub open spec fn date_of_days(days: i32) -> Option<NaiveDate> {
    if days <= i32::MAX - EPOCH_DAYS_FROM_CE {
        date32_as_date(days)
    } else {
        None
    }
}

impl ArrowDeserialize for NaiveDate {
    type ArrayType = PrimitiveArray<i32>;

    type Model = NaiveDate;

    open spec fn model(&self) -> NaiveDate {
        *self
    }

    /// The item counts days since the Unix epoch. A count that stands for no
    /// date deserializes to nothing, as a null does.
    open spec fn deserialize_spec(v: Option<i32>) -> Option<NaiveDate> {
        match v {
            Some(days) => date_of_days(days),
            None => None,
        }
    }

    fn arrow_deserialize(v: &Option<i32>) -> (r: Option<Self>) {
        match v {
            Some(days) => {
                if *days <= i32::MAX - EPOCH_DAYS_FROM_CE {
                    date32_to_date_opt(*days)
                } else {
                    None
                }
            },
            None => None,
        }
    }
}

impl ArrowDeserialize for Vec<u8> {
    type ArrayType = BinaryArray;

    type Model = Seq<u8>;

    open spec fn model(&self) -> Seq<u8> {
        self@
    }

    open spec fn deserialize_spec(v: Option<Vec<u8>>) -> Option<Seq<u8>> {
        match v {
            Some(b) => Some(b@),
            None => None,
        }
    }

    fn arrow_deserialize(v: &Option<Vec<u8>>) -> (r: Option<Self>) {
        match v {
            Some(b) => Some(b.clone()),
            None => None,
        }
    }
}

/// The mathematical values of a sequence of native values.
pub open spec fn models<T: ArrowDeserialize>(s: Seq<T>) -> Seq<T::Model> {
    Seq::new(s.len(), |i: int| s[i].model())
}

/// What the items of a column deserialize to, in storage order. There is a
/// result only where every item holds a value of `T`.
pub open spec fn deserialize_all<T: ArrowDeserialize>(
    items: Seq<<T::ArrayType as ArrowArray>::Item>,
) -> Option<Seq<T::Model>> {
    if forall|i: int| 0 <= i < items.len() ==> (#[trigger] T::deserialize_spec(items[i])) is Some {
        Some(Seq::new(items.len(), |i: int| T::deserialize_spec(items[i]).unwrap()))
    } else {
        None
    }
}

/// What a column deserializes to as a sequence of `T`. There is a result only
/// where the column has the representation of `T` and every item holds a
/// value.
pub open spec fn deserialize_column<T: ArrowDeserialize>(b: &ArrayData) -> Option<Seq<T::Model>> {
    match <T::ArrayType as ArrowArray>::items(b) {
        Some(items) => deserialize_all::<T>(items),
        None => None,
    }
}

/// Deserializes every item, in order. Gives nothing where some item holds no
/// value of `T`.
pub fn deserialize_items<T: ArrowDeserialize>(
    items: &Vec<<T::ArrayType as ArrowArray>::Item>,
) -> (r: Option<Vec<T>>)
    ensures
        r matches Some(out) ==> deserialize_all::<T>(items@) == Some(models::<T>(out@)),
        r is None ==> deserialize_all::<T>(items@) is None,
{
    let mut out: Vec<T> = Vec::new();
    let mut i: usize = 0;
    while i < items.len()
        invariant
            i <= items.len(),
            out.len() == i,
            forall|j: int|
                0 <= j < i ==> T::deserialize_spec(items@[j]) == Some(#[trigger] out@[j].model()),
        decreases items.len() - i,
    {
        match T::arrow_deserialize(&items[i]) {
            Some(x) => {
                out.push(x);
            },
            None => {
                assert(T::deserialize_spec(items@[i as int]) is None);
                return None;
            },
        }
        i += 1;
    }
    assert forall|j: int| 0 <= j < items@.len() implies (#[trigger] T::deserialize_spec(
        items@[j],
    )) is Some by {
        assert(T::deserialize_spec(items@[j]) == Some(out@[j].model()));
    }
    assert(Seq::new(items@.len(), |i: int| T::deserialize_spec(items@[i]).unwrap())
        =~= models::<T>(out@));
    Some(out)
}

/// The values of a column of `T`, in storage order, or the mismatch between
/// the representation of `T` and that of the column.
///
/// An item that holds no value of `T` (a null, where `T` is not nullable) has
/// no place in the result, so the caller must know that the column holds
/// none. `Vec::<T>::arrow_deserialize` asks nothing and gives `None` for such
/// a column.
pub fn arrow_array_typed_iterator<T: ArrowDeserialize>(b: &ArrayData) -> (r: Result<
    Vec<T>,
    TypeMismatch,
>)
    requires
        <T::ArrayType as ArrowArray>::items(b) matches Some(items) ==> deserialize_all::<T>(items)
            is Some,
    ensures
        r is Ok <==> b.kind() == <T::ArrayType as ArrowArray>::kind(),
        r matches Ok(out) ==> deserialize_column::<T>(b) == Some(models::<T>(out@)) && out@.len()
            == b.spec_len(),
        r matches Err(e) ==> e.expected == <T::ArrayType as ArrowArray>::kind() && e.actual
            == b.kind(),
{
    proof {
        <T::ArrayType as ArrowArray>::items_iff_kind(b);
    }
    let items = match <T::ArrayType as ArrowArray>::iter_from_array_ref(b) {
        Ok(items) => items,
        Err(e) => {
            return Err(e);
        },
    };
    let mut out: Vec<T> = Vec::new();
    let mut i: usize = 0;
    while i < items.len()
        invariant
            i <= items.len(),
            out.len() == i,
            deserialize_all::<T>(items@) is Some,
            forall|j: int|
                0 <= j < i ==> T::deserialize_spec(items@[j]) == Some(#[trigger] out@[j].model()),
        decreases items.len() - i,
    {
        assert(T::deserialize_spec(items@[i as int]) is Some);
        out.push(T::arrow_deserialize_internal(&items[i]));
        i += 1;
    }
    assert(Seq::new(items@.len(), |i: int| T::deserialize_spec(items@[i]).unwrap())
        =~= models::<T>(out@));
    Ok(out)
}

impl<T> ArrowDeserialize for Vec<T> where T: ArrowDeserialize + ArrowEnableVecForType {
    type ArrayType = ListArray;

    type Model = Seq<T::Model>;

    open spec fn model(&self) -> Seq<T::Model> {
        models::<T>(self@)
    }

    /// The item is the nested column of one list. A null list, a nested
    /// column of another representation than that of `T`, and one with an
    /// item that holds no value of `T` all deserialize to nothing.
    open spec fn deserialize_spec(v: Option<ArrayData>) -> Option<Seq<T::Model>> {
        match v {
            Some(h) => deserialize_column::<T>(&h),
            None => None,
        }
    }

    fn arrow_deserialize(v: &Option<ArrayData>) -> (r: Option<Self>) {
        match v {
            Some(t) => match <T::ArrayType as ArrowArray>::iter_from_array_ref(t) {
                Ok(items) => deserialize_items::<T>(items),
                Err(_) => None,
            },
            None => None,
        }
    }
}

} // verus!
