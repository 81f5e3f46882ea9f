//! Client-side signer for an HMAC-authenticated REST API.
//!
//! The crate builds the canonical signing string for an outgoing request,
//! hashes the request body, signs the composite string with a shared secret,
//! and assembles the authentication headers. Sending the request over the
//! network is left to the caller.

use vstd::prelude::*;

pub mod client;
pub mod digest;
pub mod encode;

pub use client::RemitanoApi;
pub use client::SignedRequest;
pub use digest::SignableValue;

verus! {

/// A failure while preparing a signed request.
#[derive(Debug, Clone, Copy, PartialEq, Eq, Structural)]
pub enum ApiError {
    /// The configuration lacked the required key.
    MissingKey,
    /// The configuration lacked the required secret.
    MissingSecret,
    /// The query parameters could not be serialized to a query string.
    Query,
}

} // verus!
