//! The typed request models: `QueryParams` drives the random-photo lookup,
//! `DownloadParams` drives the transformed-image download URL.

use vstd::prelude::*;
use crate::encode::render_pairs;
use crate::encode::spec_dec;
use crate::encode::spec_render_pairs;
use crate::encode::push_dec;

verus! {

/// The desired aspect category of the photo.
#[derive(Clone, Copy, Debug, PartialEq, Eq, Structural)]
pub enum Orientation {
    Landscape,
    Portrait,
    Squarish,
}

/// Parameters of the random-photo lookup. Absent optional fields are left
/// out of the query string entirely.
#[derive(Clone, Debug)]
pub struct QueryParams {
    /// Restricts the choice to one collection.
    pub collections: Option<u32>,
    /// Free-text search filter.
    pub query: Option<String>,
    /// Only photos curated as featured.
    pub featured: bool,
    pub orientation: Orientation,
}

/// Transformation parameters appended to the raw image URL. Absent optional
/// fields are left out of the query string entirely.
#[derive(Clone, Debug)]
pub struct DownloadParams {
    /// Width in pixels.
    pub w: u32,
    /// Height in pixels.
    pub h: u32,
    /// Image format, e.g. "jpg".
    pub fm: String,
    /// Fit mode, e.g. "crop".
    pub fit: String,
    /// Crop strategy, e.g. "entropy".
    pub crop: Option<String>,
}

/// The serialized form of a boolean field.
pub open spec fn spec_bool_name(b: bool) -> Seq<char> {
    if b {
        "true"@
    } else {
        "false"@
    }
}

/// The serialized form of an orientation: its lowercase name.
pub open spec fn spec_orientation_name(o: Orientation) -> Seq<char> {
    match o {
        Orientation::Landscape => "landscape"@,
        Orientation::Portrait => "portrait"@,
        Orientation::Squarish => "squarish"@,
    }
}

/// The key/value pairs a `QueryParams` serializes to, in order. An absent
/// `collections` or `query` contributes no pair at all.
pub open spec fn spec_query_pairs(q: QueryParams) -> Seq<(Seq<char>, Seq<char>)> {
    (match q.collections {
        Some(c) => seq![("collections"@, spec_dec(c as nat))],
        None => Seq::empty(),
    }) + (match q.query {
        Some(t) => seq![("query"@, t@)],
        None => Seq::empty(),
    }) + seq![("featured"@, spec_bool_name(q.featured))] + seq![
        ("orientation"@, spec_orientation_name(q.orientation)),
    ]
}

/// The key/value pairs a `DownloadParams` serializes to, in order. An absent
/// `crop` contributes no pair at all.
pub open spec fn spec_download_pairs(d: DownloadParams) -> Seq<(Seq<char>, Seq<char>)> {
    seq![("w"@, spec_dec(d.w as nat)), ("h"@, spec_dec(d.h as nat)), ("fm"@, d.fm@), ("fit"@, d.fit@)]
        + (match d.crop {
        Some(c) => seq![("crop"@, c@)],
        None => Seq::empty(),
    })
}

/// The rendered query string of a `QueryParams`.
pub open spec fn spec_query_string(q: QueryParams) -> Seq<char> {
    spec_render_pairs(spec_query_pairs(q))
}

/// The rendered query string of a `DownloadParams`.
pub open spec fn spec_download_query_string(d: DownloadParams) -> Seq<char> {
    spec_render_pairs(spec_download_pairs(d))
}

pub open spec fn is_default_query(q: QueryParams) -> bool {
    &&& q.collections is None
    &&& q.query is Some
    &&& q.query->0@ == "wallpaper"@
    &&& q.featured == true
    &&& q.orientation == Orientation::Landscape
}

pub open spec fn is_default_download(d: DownloadParams) -> bool {
    &&& d.w == 1920
    &&& d.h == 1080
    &&& d.fm@ == "jpg"@
    &&& d.fit@ == "crop"@
    &&& d.crop is Some
    &&& d.crop->0@ == "entropy"@
}

impl Default for QueryParams {
    /// No collection filter, search text "wallpaper", featured only,
    /// landscape orientation.
    fn default() -> (q: Self)
        ensures
            is_default_query(q),
    {
        QueryParams {
            collections: None,
            query: Some(String::from_str("wallpaper")),
            featured: true,
            orientation: Orientation::Landscape,
        }
    }
}

impl Default for DownloadParams {
    /// 1920 by 1080, "jpg", fit "crop", crop strategy "entropy".
    fn default() -> (d: Self)
        ensures
            is_default_download(d),
    {
        DownloadParams {
            w: 1920,
            h: 1080,
            fm: String::from_str("jpg"),
            fit: String::from_str("crop"),
            crop: Some(String::from_str("entropy")),
        }
    }
}

fn bool_name(b: bool) -> (r: String)
    ensures
        r@ == spec_bool_name(b),
{
    if b {
        String::from_str("true")
    } else {
        String::from_str("false")
    }
}

fn orientation_name(o: &Orientation) -> (r: String)
    ensures
        r@ == spec_orientation_name(*o),
{
    match o {
        Orientation::Landscape => String::from_str("landscape"),
        Orientation::Portrait => String::from_str("portrait"),
        Orientation::Squarish => String::from_str("squarish"),
    }
}

fn dec_string(n: u32) -> (r: String)
    ensures
        r@ == spec_dec(n as nat),
{
    let mut s = String::new();
    push_dec(&mut s, n);
    proof {
        assert(Seq::<char>::empty() + spec_dec(n as nat) =~= spec_dec(n as nat));
    }
    s
}

/// The pair list of a `QueryParams`, ready for rendering.
pub fn query_pairs(q: &QueryParams) -> (pairs: Vec<(String, String)>)
    ensures
        pairs.deep_view() == spec_query_pairs(*q),
{
    let mut v: Vec<(String, String)> = Vec::new();
    if let Some(c) = q.collections {
        v.push((String::from_str("collections"), dec_string(c)));
    }
    if let Some(t) = &q.query {
        v.push((String::from_str("query"), t.clone()));
    }
    v.push((String::from_str("featured"), bool_name(q.featured)));
    v.push((String::from_str("orientation"), orientation_name(&q.orientation)));
    proof {
        assert(v.deep_view() =~~= spec_query_pairs(*q));
    }
    v
}

/// The pair list of a `DownloadParams`, ready for rendering.
pub fn download_pairs(d: &DownloadParams) -> (pairs: Vec<(String, String)>)
    ensures
        pairs.deep_view() == spec_download_pairs(*d),
{
    let mut v: Vec<(String, String)> = Vec::new();
    v.push((String::from_str("w"), dec_string(d.w)));
    v.push((String::from_str("h"), dec_string(d.h)));
    v.push((String::from_str("fm"), d.fm.clone()));
    v.push((String::from_str("fit"), d.fit.clone()));
    if let Some(c) = &d.crop {
        v.push((String::from_str("crop"), c.clone()));
    }
    proof {
        assert(v.deep_view() =~~= spec_download_pairs(*d));
    }
    v
}

/// Serializes a `QueryParams` as a URL query string.
pub fn query_string(q: &QueryParams) -> (r: String)
    ensures
        r@ == spec_query_string(*q),
{
    let pairs = query_pairs(q);
    render_pairs(&pairs)
}

/// An absent `collections` field is omitted from the outgoing query string
/// entirely: no serialized pair carries the `collections` key.
pub proof fn lemma_absent_collections_omitted(q: QueryParams)
    requires
        q.collections is None,
    ensures
        forall|i: int|
            0 <= i < spec_query_pairs(q).len() ==> (#[trigger] spec_query_pairs(q)[i]).0
                != "collections"@,
{
    reveal_strlit("collections");
    reveal_strlit("query");
    reveal_strlit("featured");
    reveal_strlit("orientation");
    let ps = spec_query_pairs(q);
    assert("collections"@.len() == 11);
    assert("query"@.len() == 5);
    assert("featured"@.len() == 8);
    assert("query"@ != "collections"@);
    assert("featured"@ != "collections"@);
    assert("orientation"@[0] == 'o' && "collections"@[0] == 'c');
    assert("orientation"@ != "collections"@);
    match q.query {
        Some(t) => {
            assert(ps =~= seq![
                ("query"@, t@),
                ("featured"@, spec_bool_name(q.featured)),
                ("orientation"@, spec_orientation_name(q.orientation)),
            ]);
        },
        None => {
            assert(ps =~= seq![
                ("featured"@, spec_bool_name(q.featured)),
                ("orientation"@, spec_orientation_name(q.orientation)),
            ]);
        },
    }
}

} // verus!
