//! Fresh identifiers, from the `uuid` crate.
use vstd::prelude::*;

verus! {

/// `uuid::Uuid::new_v4()` in its hyphenated text form. Nothing is stated of the text: it is
/// random.
#[verifier::external_body]
pub(crate) fn new_uuid() -> (s: String) {
    uuid::Uuid::new_v4().to_string()
}

} // verus!
