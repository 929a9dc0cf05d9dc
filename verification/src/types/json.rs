//! JSON values carried through the library untouched.

use vstd::prelude::*;

verus! {

/// `serde_json::Value`, which the library carries and never inspects.
#[verifier::external_type_specification]
#[verifier::external_body]
pub struct ExJsonValue(serde_json::Value);

} // verus!
