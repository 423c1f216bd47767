//! Types of other crates that pass through this one unopened.
use vstd::prelude::*;

verus! {

/// `InvalidUri` of the `http` crate, as `hyper` hands it on: why a text was not
/// accepted as a URI or as a part of one.
#[verifier::external_type_specification]
#[verifier::external_body]
pub struct ExInvalidUri(hyper::http::uri::InvalidUri);

/// `FromUtf8Error` of the standard library: why bytes were not accepted as UTF-8.
#[verifier::external_type_specification]
#[verifier::external_body]
pub struct ExFromUtf8Error(std::string::FromUtf8Error);

} // verus!
