//! The value-level meaning of a generated conversion.
//!
//! A generated conversion turns a value of the record type into the
//! sum-type value of its variant by wrapping it: the variant carries the
//! record value as its single payload. `VariantValue` models such a
//! sum-type value; applying a conversion and constructing the variant
//! directly are both total and pure, and agree on every payload.

use vstd::prelude::*;
use crate::decl::Conversion;
use crate::options::clone_string;

verus! {

/// A sum-type value: the chosen variant's name together with the payload
/// it carries.
#[derive(PartialEq)]
pub struct VariantValue<T> {
    pub variant_name: String,
    pub payload: T,
}

/// Applies a generated conversion to a value of the record type: the
/// result is the sum-type value of the conversion's variant, carrying the
/// record value unchanged. Never fails, no side effects.
pub fn apply_conversion<T>(conversion: &Conversion, record: T) -> (r: VariantValue<T>)
    ensures
        r.variant_name@ == conversion@.variant_name,
        r.payload == record,
{
    VariantValue { variant_name: clone_string(&conversion.variant_name), payload: record }
}

/// Builds the sum-type value of a variant directly from its payload.
pub fn construct_variant<T>(variant_name: &String, payload: T) -> (r: VariantValue<T>)
    ensures
        r.variant_name@ == variant_name@,
        r.payload == payload,
{
    VariantValue { variant_name: clone_string(variant_name), payload }
}

} // verus!
