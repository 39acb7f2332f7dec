//! Client library for the Rain Viewer weather-radar imagery service.
//!
//! The library validates tile-request parameters, maps color schemes to their
//! wire codes, builds tile URLs, and interprets the service's JSON manifest of
//! available imagery frames. Network transport is left to the caller: an
//! application issues the HTTP requests and hands the responses to the
//! functions here.

mod dec;
mod error;
mod json;
mod manifest;
mod outside;
mod params;
mod url;

pub use dec::u32_to_string;
pub use error::{FetchError, ParameterError};
pub use manifest::{AvailableData, Frame, manifest_from_json};
pub use params::{ColorKind, RequestArguments, TileView};
pub use url::{build_tile_url, manifest_url, tile_response, tile_url};
