//! Turning a native value into the item that stands for it in a column.

use crate::array::ArrowArray;
use crate::deserialize::ArrowDeserialize;
use vstd::prelude::*;

verus! {

/// A native type whose values can be written as the item of a column.
pub trait ArrowSerialize: ArrowDeserialize {
    /// The item that stands for this value. Deserializing it gives the value
    /// back.
    fn arrow_serialize(&self) -> (r: <Self::ArrayType as ArrowArray>::Item)
        ensures
            Self::deserialize_spec(r) == Some(self.model()),
    ;
}

impl ArrowSerialize for u8 {
    fn arrow_serialize(&self) -> (r: Option<u8>) {
        Some(*self)
    }
}

impl ArrowSerialize for u16 {
    fn arrow_serialize(&self) -> (r: Option<u16>) {
        Some(*self)
    }
}

impl ArrowSerialize for u32 {
    fn arrow_serialize(&self) -> (r: Option<u32>) {
        Some(*self)
    }
}

impl ArrowSerialize for u64 {
    fn arrow_serialize(&self) -> (r: Option<u64>) {
        Some(*self)
    }
}

impl ArrowSerialize for i8 {
    fn arrow_serialize(&self) -> (r: Option<i8>) {
        Some(*self)
    }
}

impl ArrowSerialize for i16 {
    fn arrow_serialize(&self) -> (r: Option<i16>) {
        Some(*self)
    }
}

impl ArrowSerialize for i32 {
    fn arrow_serialize(&self) -> (r: Option<i32>) {
        Some(*self)
    }
}

impl ArrowSerialize for i64 {
    fn arrow_serialize(&self) -> (r: Option<i64>) {
        Some(*self)
    }
}

impl ArrowSerialize for bool {
    fn arrow_serialize(&self) -> (r: Option<bool>) {
        Some(*self)
    }
}

impl ArrowSerialize for String {
    fn arrow_serialize(&self) -> (r: Option<String>) {
        Some(self.clone())
    }
}

impl ArrowSerialize for Vec<u8> {
    fn arrow_serialize(&self) -> (r: Option<Vec<u8>>) {
        Some(self.clone())
    }
}

} // verus!
