//! Plain request models shared with the transport layer.

use vstd::prelude::*;

verus! {

/// A login request: the credentials a client submits. The transport layer
/// keeps its own deserializable copy and converts.
#[derive(Debug)]
pub struct LoginRequest {
    pub username: String,
    pub password: String,
}

} // verus!
