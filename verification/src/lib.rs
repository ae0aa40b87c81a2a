//! Typed client core for the Save Page Now 2 web-archiving API.
//!
//! The library holds the protocol logic: encoding capture-request options
//! as form fields, decoding the tagged capture-status responses, mapping
//! HTTP status codes to results, and validating credential headers.
//! Sending requests over the network is left to the surrounding program.

use vstd::prelude::*;

pub mod client;
pub mod encode;
pub mod json;
pub mod options;
pub mod status;

pub use client::SPN2Client;
pub use options::SPN2CaptureRequestOptParams;
pub use status::SPN2CaptureResponse;
pub use status::SPN2CaptureStatus;
pub use status::SPN2SystemStatus;
pub use status::SPN2UserStatus;

verus! {

/// The errors a client operation can return.
#[derive(Debug)]
pub enum SpnError {
    /// The credentials cannot form a valid header value.
    Config,
    /// The network request itself failed; carries a description.
    Transport { message: String },
    /// The service answered with a status code other than the expected one.
    UnexpectedStatus { code: u16, body: String },
    /// The response body does not have the expected shape.
    Decode,
}

} // verus!
