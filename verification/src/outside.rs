//! Declarations of the types of other crates that appear in this library's
//! signatures. Each is opaque: nothing is known of what a value holds.

use vstd::prelude::*;

verus! {

/// `chrono::NaiveDate`, a calendar date without a time zone.
#[verifier::external_type_specification]
#[verifier::external_body]
pub struct ExNaiveDate(chrono::NaiveDate);

/// `chrono::NaiveDateTime`, a date and time of day without a time zone.
#[verifier::external_type_specification]
#[verifier::external_body]
pub struct ExNaiveDateTime(chrono::NaiveDateTime);

/// `arrow::buffer::Buffer`, a shared run of bytes.
#[verifier::external_type_specification]
#[verifier::external_body]
pub struct ExBuffer(arrow::buffer::Buffer);

} // verus!
