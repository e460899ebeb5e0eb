//! The byte buffer that carries a response body.

use vstd::prelude::*;

verus! {

/// `bytes::Bytes`, the shared, immutable buffer in which a response body
/// travels. The library never looks inside one: it hands on the very value it
/// was given, so nothing is stated about its contents.
#[verifier::external_type_specification]
#[verifier::external_body]
pub struct ExBytes(bytes::Bytes);

} // verus!
