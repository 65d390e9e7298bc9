use arrow_convert::field::{
    ArrowField, FieldDescriptor, FixedSizeBinary, FixedSizeVec, LargeBinary, LargeString,
    LargeVec, LogicalType, DEFAULT_FIELD_NAME, I128,
};
use arrow::buffer::Buffer;
use chrono::{NaiveDate, NaiveDateTime};

fn integer(width: u8, signed: bool) -> LogicalType {
    LogicalType::Integer { width, signed }
}

fn list(item: LogicalType, nullable: bool, large: bool, fixed_len: Option<usize>) -> LogicalType {
    LogicalType::List {
        child: Box::new(FieldDescriptor { name: "item", data_type: item, nullable }),
        large,
        fixed_len,
    }
}

#[test]
fn default_field_name_is_item() {
    assert_eq!(DEFAULT_FIELD_NAME, "item");
}

#[test]
fn integers_map_to_their_width_and_sign() {
    assert_eq!(<u8 as ArrowField>::data_type(), integer(8, false));
    assert_eq!(<u16 as ArrowField>::data_type(), integer(16, false));
    assert_eq!(<u32 as ArrowField>::data_type(), integer(32, false));
    assert_eq!(<u64 as ArrowField>::data_type(), integer(64, false));
    assert_eq!(<i8 as ArrowField>::data_type(), integer(8, true));
    assert_eq!(<i16 as ArrowField>::data_type(), integer(16, true));
    assert_eq!(<i32 as ArrowField>::data_type(), integer(32, true));
    assert_eq!(<i64 as ArrowField>::data_type(), integer(64, true));
}

#[test]
fn boolean_and_text_map_to_their_types() {
    assert_eq!(<bool as ArrowField>::data_type(), LogicalType::Boolean);
    assert_eq!(<String as ArrowField>::data_type(), LogicalType::Utf8 { large: false });
    assert_eq!(<&str as ArrowField>::data_type(), LogicalType::Utf8 { large: false });
    assert_eq!(<LargeString as ArrowField>::data_type(), LogicalType::Utf8 { large: true });
}

#[test]
fn temporal_types_map_to_timestamp_and_date() {
    assert_eq!(<NaiveDateTime as ArrowField>::data_type(), LogicalType::Timestamp);
    assert_eq!(<NaiveDate as ArrowField>::data_type(), LogicalType::Date32);
}

#[test]
fn option_keeps_the_type_and_sets_nullable() {
    assert_eq!(<Option<u32> as ArrowField>::data_type(), <u32 as ArrowField>::data_type());
    assert_eq!(<Option<String> as ArrowField>::data_type(), LogicalType::Utf8 { large: false });
    assert!(<Option<u32> as ArrowField>::is_nullable());
    assert!(<Option<Vec<u8>> as ArrowField>::is_nullable());
    assert!(!<u32 as ArrowField>::is_nullable());
    assert!(!<String as ArrowField>::is_nullable());
    assert!(!<Vec<u32> as ArrowField>::is_nullable());
    assert!(!<Vec<Option<u32>> as ArrowField>::is_nullable());
    assert!(!<I128<10, 2> as ArrowField>::is_nullable());
}

#[test]
fn byte_sequences_are_binary() {
    let binary = LogicalType::Binary { large: false, fixed_len: None };
    assert_eq!(<Vec<u8> as ArrowField>::data_type(), binary);
    assert_eq!(<Buffer as ArrowField>::data_type(), binary);
    assert_eq!(
        <LargeBinary as ArrowField>::data_type(),
        LogicalType::Binary { large: true, fixed_len: None }
    );
    assert_ne!(<Vec<u8> as ArrowField>::data_type(), list(integer(8, false), false, false, None));
}

#[test]
fn vec_of_u32_is_a_list_of_item() {
    assert_eq!(
        <Vec<u32> as ArrowField>::data_type(),
        LogicalType::List {
            child: Box::new(FieldDescriptor {
                name: "item",
                data_type: LogicalType::Integer { width: 32, signed: false },
                nullable: false,
            }),
            large: false,
            fixed_len: None,
        }
    );
}

#[test]
fn nested_sequences_compose() {
    assert_eq!(
        <Vec<Vec<Option<i32>>> as ArrowField>::data_type(),
        list(list(integer(32, true), true, false, None), false, false, None)
    );
    // A list of byte sequences is a list of binary values.
    assert_eq!(
        <Vec<Vec<u8>> as ArrowField>::data_type(),
        list(LogicalType::Binary { large: false, fixed_len: None }, false, false, None)
    );
    assert_eq!(
        <Vec<Option<Vec<String>>> as ArrowField>::data_type(),
        list(list(LogicalType::Utf8 { large: false }, false, false, None), true, false, None)
    );
}

#[test]
fn large_and_fixed_lists_carry_their_shape() {
    assert_eq!(<LargeVec<i64> as ArrowField>::data_type(), list(integer(64, true), false, true, None));
    assert_eq!(
        <FixedSizeVec<i64, 3> as ArrowField>::data_type(),
        list(integer(64, true), false, false, Some(3))
    );
    assert_eq!(<[u16; 7] as ArrowField>::data_type(), list(integer(16, false), false, false, Some(7)));
    assert_eq!(
        <FixedSizeVec<Option<bool>, 0> as ArrowField>::data_type(),
        list(LogicalType::Boolean, true, false, Some(0))
    );
}

#[test]
fn fixed_size_binary_carries_its_length() {
    assert_eq!(
        <FixedSizeBinary<16> as ArrowField>::data_type(),
        LogicalType::Binary { large: false, fixed_len: Some(16) }
    );
    assert_eq!(
        <[u8; 4] as ArrowField>::data_type(),
        LogicalType::Binary { large: false, fixed_len: Some(4) }
    );
}

#[test]
fn decimal_carries_precision_and_scale() {
    assert_eq!(
        <I128<32, 5> as ArrowField>::data_type(),
        LogicalType::Decimal { precision: 32, scale: 5 }
    );
    assert_eq!(
        <I128<1, 0> as ArrowField>::data_type(),
        LogicalType::Decimal { precision: 1, scale: 0 }
    );
}

#[test]
fn field_carries_name_type_and_nullability() {
    assert_eq!(
        <Option<i16> as ArrowField>::field("amount"),
        FieldDescriptor { name: "amount", data_type: integer(16, true), nullable: true }
    );
    assert_eq!(
        <String as ArrowField>::field(""),
        FieldDescriptor { name: "", data_type: LogicalType::Utf8 { large: false }, nullable: false }
    );
    let name = String::from("dyn");
    let f = <Vec<u8> as ArrowField>::field(&name);
    assert_eq!(f.name, "dyn");
    assert!(!f.nullable);
}

#[test]
fn struct_types_hold_their_fields_in_order() {
    let a = LogicalType::Struct {
        children: vec![
            <Option<i64> as ArrowField>::field("id"),
            <Vec<String> as ArrowField>::field("tags"),
        ],
    };
    let b = LogicalType::Struct {
        children: vec![
            FieldDescriptor { name: "id", data_type: integer(64, true), nullable: true },
            FieldDescriptor {
                name: "tags",
                data_type: list(LogicalType::Utf8 { large: false }, false, false, None),
                nullable: false,
            },
        ],
    };
    assert_eq!(a, b);
    let swapped = LogicalType::Struct {
        children: vec![
            <Vec<String> as ArrowField>::field("tags"),
            <Option<i64> as ArrowField>::field("id"),
        ],
    };
    assert_ne!(a, swapped);
}
