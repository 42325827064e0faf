use vstd::prelude::*;

verus! {

/// Verification failure taxonomy. Every failure is terminal and typed; callers
/// should treat each kind as "reject the token".
///
/// `InvalidToken` deliberately covers both an empty payload segment and a
/// signature mismatch, so an attacker cannot tell "no body" from "forged
/// signature" by the error kind alone.
#[derive(Debug, PartialEq)]
pub enum Error {
    /// The token does not split into exactly two `.`-delimited segments.
    /// Carries the raw token for diagnostics.
    InvalidInput(String),
    /// The signature segment fails codec decoding.
    InvalidSignature,
    /// The decoded payload fails structural deserialization.
    InvalidPayload,
    /// The payload segment is empty, or the signature comparison fails.
    InvalidToken,
    /// Key expansion failed; unreachable for the fixed output lengths used here.
    HkdfExpandError,
    /// Filling the expanded key failed; unreachable for the fixed output lengths used here.
    HkdfFillError,
    /// The payload parsed but its expiration instant is in the past.
    TokenExpired,
}

} // verus!
