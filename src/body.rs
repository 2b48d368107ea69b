use vstd::prelude::*;

verus! {

/// Strategy tag: the request body is encoded as JSON bytes.
#[derive(Clone, Copy, Debug, PartialEq, Eq, Structural)]
pub struct SerializeBodyTransform;

/// Strategy tag: the request body is an asynchronous byte stream, passed through unbuffered.
#[derive(Clone, Copy, Debug, PartialEq, Eq, Structural)]
pub struct ReadBodyTransform;

} // verus!
