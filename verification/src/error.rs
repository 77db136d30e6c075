use vstd::prelude::*;

verus! {

/// Everything that can go wrong between loading the configuration and
/// handing a final URL to the wallpaper setter. No variant is ever retried:
/// the caller is expected to abort on the first error.
#[derive(Debug)]
pub enum ApiError {
    /// A configuration value (from the file or the environment) could not be
    /// interpreted as the type its field requires; carries the field name.
    Config(String),
    /// A transport-level failure (DNS, connection, timeout); carries a
    /// description from the HTTP client.
    Network(String),
    /// The photo endpoint answered with a non-2xx status code.
    Http(u16),
    /// The response body was not JSON of the expected shape (an object with
    /// a string at `urls.raw`).
    Parse,
    /// The OS-level wallpaper setter failed; carries its description.
    Wallpaper(String),
}

} // verus!
