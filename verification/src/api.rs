//! The API client: building the random-photo request, interpreting its
//! response, and deriving the transformed-image download URL.
//!
//! Network transport is left to the caller: the functions here turn plain
//! values (a status code, a body text) into plain values, so everything but
//! the JSON parse itself is verified.

use vstd::prelude::*;
use crate::encode::push_char;
use crate::encode::render_pairs;
use crate::error::ApiError;
use crate::params::DownloadParams;
use crate::params::QueryParams;
use crate::params::download_pairs;
use crate::params::query_string;
use crate::params::spec_download_query_string;
use crate::params::spec_query_string;

verus! {

/// The links of a photo; only the raw image URL is ever read.
#[derive(Clone, Debug)]
pub struct Urls {
    pub raw: String,
}

/// The part of the photo endpoint's JSON answer this crate uses: the object
/// at `urls`, with its string at `raw`.
#[derive(Clone, Debug)]
pub struct Response {
    pub urls: Urls,
}

/// A fully prepared random-photo request: the URL with its serialized query
/// parameters, and the two headers the endpoint expects.
#[derive(Clone, Debug)]
pub struct PhotoRequest {
    pub url: String,
    /// Value of the `Authorization` header.
    pub authorization: String,
    /// Value of the `Accept-Version` header.
    pub accept_version: String,
}

/// The string at `urls.raw` of the JSON text `body`, if `body` is valid JSON
/// of that shape; what exactly JSON parsing accepts is left unstated.
pub uninterp spec fn json_raw_url(body: Seq<char>) -> Option<Seq<char>>;

/// Relies on `serde_json::from_str::<Value>`, `Value::get` and
/// `Value::as_str`: all are functions of the body text alone, and together
/// they yield the string at `urls.raw`, or nothing when the body is not JSON
/// of that shape.
#[verifier::external_body]
fn extract_raw_url(body: &str) -> (r: Option<String>)
    ensures
        r.deep_view() == json_raw_url(body@),
{
    let value: serde_json::Value = serde_json::from_str(body).ok()?;
    let raw = value.get("urls")?.get("raw")?.as_str()?;
    Some(raw.to_string())
}

/// Turns the outcome of the JSON extraction into the typed response:
/// a present `urls.raw` string succeeds, anything else is a parse error.
pub fn response_from_extracted(extracted: Option<String>) -> (r: Result<Response, ApiError>)
    ensures
        (match extracted {
            Some(u) => r matches Ok(resp) && resp.urls.raw == u,
            None => r matches Err(e) && e is Parse,
        }),
{
    match extracted {
        Some(u) => Ok(Response { urls: Urls { raw: u } }),
        None => Err(ApiError::Parse),
    }
}

/// Interprets the photo endpoint's answer. A non-2xx status is an HTTP
/// error carrying that status, whatever the body holds; a 2xx body must be
/// JSON with a string at `urls.raw`, else the answer is a parse error.
pub fn parse_photo_response(status: u16, body: &str) -> (r: Result<Response, ApiError>)
    ensures
        !(200 <= status < 300) ==> (r matches Err(e) && e matches ApiError::Http(st) && st
            == status),
        (200 <= status < 300) ==> (match json_raw_url(body@) {
            Some(u) => r matches Ok(resp) && resp.urls.raw@ == u,
            None => r matches Err(e) && e is Parse,
        }),
{
    if !(200 <= status && status < 300) {
        return Err(ApiError::Http(status));
    }
    response_from_extracted(extract_raw_url(body))
}

/// The random-photo endpoint with the serialized query parameters appended.
pub open spec fn spec_random_photo_url(q: QueryParams) -> Seq<char> {
    "https://api.unsplash.com/photos/random"@ + seq!['?'] + spec_query_string(q)
}

/// Prepares the random-photo request: endpoint plus query string, the
/// `Client-ID` authorization header, and the API version header.
pub fn random_photo_request(api_key: &str, q: &QueryParams) -> (r: PhotoRequest)
    ensures
        r.url@ == spec_random_photo_url(*q),
        r.authorization@ == "Client-ID "@ + api_key@,
        r.accept_version@ == "v1"@,
{
    let mut url = String::from_str("https://api.unsplash.com/photos/random");
    push_char(&mut url, '?');
    let qs = query_string(q);
    url.append(qs.as_str());
    proof {
        assert("https://api.unsplash.com/photos/random"@.push('?') + qs@
            =~= spec_random_photo_url(*q));
    }
    let mut authorization = String::from_str("Client-ID ");
    authorization.append(api_key);
    PhotoRequest { url, authorization, accept_version: String::from_str("v1") }
}

fn contains_question(s: &str) -> (r: bool)
    ensures
        r == s@.contains('?'),
{
    let len = s.unicode_len();
    let mut i: usize = 0;
    while i < len
        invariant
            i <= len,
            len == s@.len(),
            forall|j: int| 0 <= j < i ==> s@[j] != '?',
        decreases len - i,
    {
        if s.get_char(i) == '?' {
            proof {
                assert(s@[i as int] == '?');
            }
            return true;
        }
        i += 1;
    }
    proof {
        assert(!s@.contains('?'));
    }
    false
}

/// The raw image URL with the serialized download parameters appended: after
/// a `&` when the raw URL already carries a query, else after a `?`.
pub open spec fn spec_download_url(raw: Seq<char>, d: DownloadParams) -> Seq<char> {
    raw + seq![
        if raw.contains('?') {
            '&'
        } else {
            '?'
        },
    ] + spec_download_query_string(d)
}

/// Appends the download parameters to the raw image URL; no network I/O.
pub fn build_download_url(raw: &str, d: &DownloadParams) -> (r: String)
    ensures
        r@ == spec_download_url(raw@, *d),
{
    let mut s = raw.to_owned();
    if contains_question(raw) {
        push_char(&mut s, '&');
    } else {
        push_char(&mut s, '?');
    }
    let pairs = download_pairs(d);
    let qs = render_pairs(&pairs);
    s.append(qs.as_str());
    proof {
        assert(s@ =~= spec_download_url(raw@, *d));
    }
    s
}

} // verus!
