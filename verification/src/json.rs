//! The opaque structured document that a step may carry.

use vstd::prelude::*;

verus! {

/// `serde_json::Value`, carried through without being read: nothing in this
/// crate looks inside one.
#[verifier::external_type_specification]
#[verifier::external_body]
pub struct ExJsonValue(serde_json::Value);

/// `serde_json::Value::clone`: the copy is the same document as the value it
/// was made from.
pub assume_specification[ <serde_json::Value as Clone>::clone ](value: &serde_json::Value) -> (copy:
    serde_json::Value)
    ensures
        copy == *value,
;

} // verus!
