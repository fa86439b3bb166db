//! The error taxonomy of the library.

use vstd::prelude::*;

verus! {

/// A failed transport exchange: a network error or a non-success HTTP
/// status.  The transport's own description is carried verbatim.
#[derive(Debug, Clone)]
pub struct TransportError {
    pub message: String,
}

/// What an operation of this library can fail with.
#[derive(Debug, Clone)]
pub enum Error {
    /// The transport failed; the exchange never produced a body.
    Transport(TransportError),
    /// A response body was not valid JSON or did not match its schema.
    Decode,
    /// An environment variable needed for the default directory was absent.
    MissingEnvVar,
}

} // verus!
