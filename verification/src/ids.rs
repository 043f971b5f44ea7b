//! Identifiers made at random.

use vstd::prelude::*;

verus! {

/// `uuid::Uuid::new_v4`, written out as text: a random identifier. Nothing
/// is claimed of it.
#[verifier::external_body]
pub(crate) fn fresh_id() -> String {
    uuid::Uuid::new_v4().to_string()
}

} // verus!
