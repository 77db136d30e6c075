//! Picks a random photo from the Unsplash HTTP API and turns it into a
//! desktop-wallpaper download URL.
//!
//! The verified core covers configuration layering (defaults, then a config
//! file, then environment overrides), the typed query-parameter model for the
//! two HTTP requests, URL construction, and interpretation of the API
//! response. Network transport, file reading and the OS-level wallpaper call
//! live outside this crate.

use vstd::prelude::*;

pub mod api;
pub mod encode;
pub mod error;
pub mod params;
pub mod settings;

pub use settings::Config;
pub use settings::ConfigOverlay;
pub use settings::RawOverlay;
pub use settings::parse_bool;
pub use settings::parse_orientation;
pub use settings::parse_overlay;
pub use settings::parse_u32;

pub use api::PhotoRequest;
pub use api::Response;
pub use api::Urls;
pub use api::build_download_url;
pub use api::parse_photo_response;
pub use api::random_photo_request;
pub use api::response_from_extracted;

pub use encode::render_pairs;
pub use error::ApiError;
pub use params::DownloadParams;
pub use params::Orientation;
pub use params::QueryParams;
pub use params::query_pairs;
pub use params::query_string;
pub use params::download_pairs;
