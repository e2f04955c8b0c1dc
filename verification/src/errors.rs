//! The error taxonomy of the client: transport failures surfaced unchanged,
//! non-success HTTP statuses, bodies that do not decode, and the missing
//! batch reported by the single-batch endpoint.
use vstd::prelude::*;

verus! {

/// A failed request or a response that could not be decoded.
#[derive(Clone, Debug)]
pub enum Error {
    /// A connection-level failure, surfaced unchanged from the transport.
    Transport { message: String },
    /// A non-success HTTP status, with the status code and the raw body.
    HttpStatus { status: u16, body: String },
    /// The single-batch endpoint reported that no such batch exists.
    NotFound,
    /// The response body does not conform to the expected structure.
    Decode { message: String },
}

} // verus!
