use arrow_convert::array::{
    ArrayData, ArrayKind, ArrowArray, BinaryArray, BooleanArray, ListArray, PrimitiveArray,
    TypeMismatch, Utf8Array,
};
use arrow_convert::deserialize::{arrow_array_typed_iterator, deserialize_items, ArrowDeserialize};
use arrow_convert::serialize::ArrowSerialize;
use chrono::{NaiveDate, NaiveDateTime};

fn u32s(v: &[Option<u32>]) -> ArrayData {
    ArrayData::UInt32(v.to_vec())
}

#[test]
fn kind_and_len_of_a_column() {
    let b = ArrayData::Boolean(vec![Some(true), None]);
    assert_eq!(b.array_kind(), ArrayKind::Boolean);
    assert_eq!(b.len(), 2);
    let l = ArrayData::List(vec![None, Some(u32s(&[Some(1)])), None]);
    assert_eq!(l.array_kind(), ArrayKind::List);
    assert_eq!(l.len(), 3);
    assert_eq!(ArrayData::Utf8(vec![]).len(), 0);
}

#[test]
fn adapter_yields_items_in_storage_order() {
    let b = u32s(&[Some(1), Some(2), Some(3)]);
    let items = <PrimitiveArray<u32> as ArrowArray>::iter_from_array_ref(&b).unwrap();
    assert_eq!(items, &vec![Some(1u32), Some(2), Some(3)]);
    // The column is only read: the items can be asked for again.
    let again = <PrimitiveArray<u32> as ArrowArray>::iter_from_array_ref(&b).unwrap();
    assert_eq!(again.len(), 3);
}

#[test]
fn adapter_refuses_another_representation() {
    let b = ArrayData::Boolean(vec![Some(true), Some(false)]);
    assert_eq!(
        <PrimitiveArray<i32> as ArrowArray>::iter_from_array_ref(&b),
        Err(TypeMismatch { expected: ArrayKind::Int32, actual: ArrayKind::Boolean })
    );
    assert_eq!(
        <BooleanArray as ArrowArray>::iter_from_array_ref(&u32s(&[])),
        Err(TypeMismatch { expected: ArrayKind::Boolean, actual: ArrayKind::UInt32 })
    );
    assert_eq!(
        <Utf8Array as ArrowArray>::iter_from_array_ref(&ArrayData::Binary(vec![])),
        Err(TypeMismatch { expected: ArrayKind::Utf8, actual: ArrayKind::Binary })
    );
    assert_eq!(
        <BinaryArray as ArrowArray>::iter_from_array_ref(&ArrayData::Utf8(vec![])),
        Err(TypeMismatch { expected: ArrayKind::Binary, actual: ArrayKind::Utf8 })
    );
    assert_eq!(
        <ListArray as ArrowArray>::iter_from_array_ref(&ArrayData::Int64(vec![None])),
        Err(TypeMismatch { expected: ArrayKind::List, actual: ArrayKind::Int64 })
    );
    // Same width, other sign: still another representation.
    assert_eq!(
        <PrimitiveArray<u32> as ArrowArray>::iter_from_array_ref(&ArrayData::Int32(vec![])),
        Err(TypeMismatch { expected: ArrayKind::UInt32, actual: ArrayKind::Int32 })
    );
    // The column is untouched by the refusal.
    assert_eq!(b, ArrayData::Boolean(vec![Some(true), Some(false)]));
}

#[test]
fn primitives_round_trip() {
    assert_eq!(u8::arrow_deserialize(&200u8.arrow_serialize()), Some(200));
    assert_eq!(u16::arrow_deserialize(&u16::MAX.arrow_serialize()), Some(u16::MAX));
    assert_eq!(u32::arrow_deserialize(&7u32.arrow_serialize()), Some(7));
    assert_eq!(u64::arrow_deserialize(&u64::MAX.arrow_serialize()), Some(u64::MAX));
    assert_eq!(i8::arrow_deserialize(&(-128i8).arrow_serialize()), Some(-128));
    assert_eq!(i16::arrow_deserialize(&(-5i16).arrow_serialize()), Some(-5));
    assert_eq!(i32::arrow_deserialize(&i32::MIN.arrow_serialize()), Some(i32::MIN));
    assert_eq!(i64::arrow_deserialize(&0i64.arrow_serialize()), Some(0));
    assert_eq!(bool::arrow_deserialize(&true.arrow_serialize()), Some(true));
    assert_eq!(bool::arrow_deserialize(&false.arrow_serialize()), Some(false));
    let s = String::from("héllo");
    assert_eq!(String::arrow_deserialize(&s.arrow_serialize()), Some(s));
    let b = vec![0u8, 255, 3];
    assert_eq!(<Vec<u8> as ArrowDeserialize>::arrow_deserialize(&b.arrow_serialize()), Some(b));
}

#[test]
fn null_items_deserialize_to_none() {
    assert_eq!(u8::arrow_deserialize(&None), None);
    assert_eq!(i64::arrow_deserialize(&None), None);
    assert_eq!(bool::arrow_deserialize(&None), None);
    assert_eq!(String::arrow_deserialize(&None), None);
    assert_eq!(<Vec<u8> as ArrowDeserialize>::arrow_deserialize(&None), None);
    assert_eq!(NaiveDate::arrow_deserialize(&None), None);
    assert_eq!(NaiveDateTime::arrow_deserialize(&None), None);
    assert_eq!(<Vec<u32> as ArrowDeserialize>::arrow_deserialize(&None), None);
}

#[test]
fn option_wraps_once() {
    assert_eq!(<Option<u32>>::arrow_deserialize(&Some(5)), Some(Some(5)));
    assert_eq!(<Option<u32>>::arrow_deserialize(&None), Some(None));
    assert_eq!(<Option<u32>>::arrow_deserialize_internal(&Some(5)), Some(5));
    assert_eq!(<Option<u32>>::arrow_deserialize_internal(&None), None);
    assert_eq!(u32::arrow_deserialize_internal(&Some(5)), 5);
    assert_eq!(
        <Option<String>>::arrow_deserialize(&Some(String::from("a"))),
        Some(Some(String::from("a")))
    );
}

#[test]
fn list_of_three_u32() {
    let column = u32s(&[Some(1), Some(2), Some(3)]);
    let items = <PrimitiveArray<u32> as ArrowArray>::iter_from_array_ref(&column).unwrap();
    assert_eq!(items.len(), 3);
    assert_eq!(items[0], Some(1));
    assert_eq!(items[1], Some(2));
    assert_eq!(items[2], Some(3));
    assert_eq!(arrow_array_typed_iterator::<u32>(&column), Ok(vec![1, 2, 3]));
    assert_eq!(deserialize_items::<u32>(items), Some(vec![1, 2, 3]));
    let cell = Some(column);
    assert_eq!(<Vec<u32> as ArrowDeserialize>::arrow_deserialize(&cell), Some(vec![1, 2, 3]));
}

#[test]
fn empty_list_is_not_a_null_list() {
    assert_eq!(<Vec<u32> as ArrowDeserialize>::arrow_deserialize(&Some(u32s(&[]))), Some(vec![]));
    assert_eq!(arrow_array_typed_iterator::<u32>(&u32s(&[])), Ok(vec![]));
}

#[test]
fn list_of_nullable_items() {
    let column = u32s(&[Some(1), None, Some(3)]);
    assert_eq!(
        arrow_array_typed_iterator::<Option<u32>>(&column),
        Ok(vec![Some(1), None, Some(3)])
    );
    assert_eq!(
        <Vec<Option<u32>> as ArrowDeserialize>::arrow_deserialize(&Some(column)),
        Some(vec![Some(1), None, Some(3)])
    );
}

#[test]
fn null_in_a_list_of_plain_items_gives_none() {
    let column = u32s(&[Some(1), None, Some(3)]);
    let items = <PrimitiveArray<u32> as ArrowArray>::iter_from_array_ref(&column).unwrap();
    assert_eq!(deserialize_items::<u32>(items), None);
    assert_eq!(<Vec<u32> as ArrowDeserialize>::arrow_deserialize(&Some(column)), None);
}

#[test]
fn list_over_another_representation_gives_none() {
    let cell = Some(ArrayData::Boolean(vec![Some(true)]));
    assert_eq!(<Vec<u32> as ArrowDeserialize>::arrow_deserialize(&cell), None);
    assert_eq!(
        arrow_array_typed_iterator::<u32>(&ArrayData::Boolean(vec![Some(true)])),
        Err(TypeMismatch { expected: ArrayKind::UInt32, actual: ArrayKind::Boolean })
    );
    assert_eq!(
        arrow_array_typed_iterator::<Vec<u32>>(&u32s(&[Some(1)])),
        Err(TypeMismatch { expected: ArrayKind::List, actual: ArrayKind::UInt32 })
    );
    assert_eq!(
        arrow_array_typed_iterator::<Option<String>>(&ArrayData::Binary(vec![])),
        Err(TypeMismatch { expected: ArrayKind::Utf8, actual: ArrayKind::Binary })
    );
}

#[test]
fn nested_lists() {
    let outer = ArrayData::List(vec![
        Some(u32s(&[Some(1), Some(2)])),
        Some(u32s(&[])),
        Some(u32s(&[Some(3)])),
    ]);
    assert_eq!(
        arrow_array_typed_iterator::<Vec<u32>>(&outer),
        Ok(vec![vec![1, 2], vec![], vec![3]])
    );
    let with_null = ArrayData::List(vec![Some(u32s(&[Some(1)])), None]);
    assert_eq!(
        arrow_array_typed_iterator::<Option<Vec<u32>>>(&with_null),
        Ok(vec![Some(vec![1]), None])
    );
    assert_eq!(
        <Vec<Option<Vec<u32>>> as ArrowDeserialize>::arrow_deserialize(&Some(with_null)),
        Some(vec![Some(vec![1]), None])
    );
}

#[test]
fn lists_of_text_and_binary() {
    let text = ArrayData::Utf8(vec![Some(String::from("a")), Some(String::new())]);
    assert_eq!(
        arrow_array_typed_iterator::<String>(&text),
        Ok(vec![String::from("a"), String::new()])
    );
    let bin = ArrayData::Binary(vec![Some(vec![1, 2]), None]);
    assert_eq!(
        arrow_array_typed_iterator::<Option<Vec<u8>>>(&bin),
        Ok(vec![Some(vec![1u8, 2]), None])
    );
    // A column of bytes is a column of integers, not binary data.
    assert_eq!(
        arrow_array_typed_iterator::<Vec<u8>>(&ArrayData::UInt8(vec![Some(1)])),
        Err(TypeMismatch { expected: ArrayKind::Binary, actual: ArrayKind::UInt8 })
    );
}
