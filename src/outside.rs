use vstd::prelude::*;

verus! {

/// A JSON decoding failure reported by serde_json.
#[verifier::external_type_specification]
#[verifier::external_body]
pub struct ExJsonError(serde_json::Error);

/// A transport failure reported by isahc.
#[verifier::external_type_specification]
#[verifier::external_body]
pub struct ExTransportError(isahc::Error);

/// A failure to assemble a request, reported by the http crate.
#[verifier::external_type_specification]
#[verifier::external_body]
pub struct ExRequestError(http::Error);

} // verus!
