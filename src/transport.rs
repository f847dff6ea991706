//! What the library takes from the messaging library.

use vstd::prelude::*;

verus! {

/// The messaging library's error, carried as it is.
#[verifier::external_type_specification]
#[verifier::external_body]
pub struct ExZmqError(zmq::Error);

} // verus!
