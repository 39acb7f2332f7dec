//! Error types for the library. Wraps failures of the JSON and transport
//! layers and reports invalid request parameters.

use vstd::prelude::*;

verus! {

/// Indicates that an invalid parameter was passed to a library function.
/// Each variant carries the offending value and a human-readable message.
#[derive(Debug)]
pub enum ParameterError {
    /// The requested image size is not one the service renders.
    InvalidSize(u32, String),
    /// Reserved for zoom validation; no current check reports it.
    InvalidZoom(u32, String),
    /// The horizontal coordinate does not fit the grid at the chosen zoom.
    XOutOfRange(u32, String),
    /// The vertical coordinate does not fit the grid at the chosen zoom.
    YOutOfRange(u32, String),
}

/// The error type for this library.
#[derive(Debug)]
pub enum FetchError {
    /// The transport failed before a status code was available.
    Reqwest(reqwest::Error),
    /// The manifest body was not valid JSON.
    Json(serde_json::Error),
    /// The manifest body was valid JSON but not shaped like a manifest.
    Malformed(String),
    /// The server answered with an unexpected status code.
    Http(u16),
    /// A request parameter was invalid.
    Parameter(ParameterError),
}

} // verus!
