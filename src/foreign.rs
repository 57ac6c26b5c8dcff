use vstd::prelude::*;
use std::task::Waker;

verus! {

/// `anyhow::Error`, the error type of the acceleration and transport entry
/// points; carried through opaquely.
#[verifier::external_type_specification]
#[verifier::external_body]
pub struct ExAnyhowError(anyhow::Error);

/// `std::task::Waker`, the completion handle of a descriptor; carried through
/// opaquely.
#[verifier::external_type_specification]
#[verifier::external_body]
pub struct ExWaker(Waker);

} // verus!
