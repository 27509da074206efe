use vstd::prelude::*;

verus! {

#[verifier::external_type_specification]
#[verifier::external_body]
pub struct ExParseIntError(std::num::ParseIntError);

#[verifier::external_type_specification]
#[verifier::external_body]
pub struct ExReqwestError(reqwest::Error);

/// The common error type of this crate.
#[derive(Debug)]
pub enum DehashedError {
    /// The HTTP transport failed
    ReqwestError(reqwest::Error),
    /// Invalid API credentials
    Unauthorized,
    /// Query is missing or invalid
    InvalidQuery,
    /// The used account got rate limited
    RateLimited,
    /// An unknown error occurred
    Unknown,
    /// An id field is not an unsigned 64-bit decimal number
    ParseIntError(std::num::ParseIntError),
    /// An ip address field holds this text, which is no IP address
    ParseAddrError(String),
}

} // verus!
