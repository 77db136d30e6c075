//! The configuration loader's verified core: string values are parsed into
//! typed fields, and three layers — built-in defaults, a config file, the
//! environment — are merged with a fixed precedence (environment over file
//! over defaults).
//!
//! Reading the file and the environment is left to the caller; it hands the
//! values in as plain optional strings.

use vstd::prelude::*;
use crate::error::ApiError;
use crate::params::DownloadParams;
use crate::params::Orientation;
use crate::params::QueryParams;
use crate::params::is_default_download;
use crate::params::is_default_query;

verus! {

/// A fully populated configuration; every field has a default, so it can be
/// built with no external input at all.
#[derive(Clone, Debug)]
pub struct Config {
    /// The API access key, sent as `Client-ID <key>`.
    pub key: String,
    pub query: QueryParams,
    pub download: DownloadParams,
}

/// One configuration layer with typed values; `None` means the layer does
/// not speak about that field.
#[derive(Clone, Debug)]
pub struct ConfigOverlay {
    pub key: Option<String>,
    pub collections: Option<u32>,
    pub query: Option<String>,
    pub featured: Option<bool>,
    pub orientation: Option<Orientation>,
    pub w: Option<u32>,
    pub h: Option<u32>,
    pub fm: Option<String>,
    pub fit: Option<String>,
    pub crop: Option<String>,
}

/// One configuration layer as it arrives from the outside world: every
/// value still a string, `None` where the layer does not set the field.
#[derive(Clone, Debug)]
pub struct RawOverlay {
    pub key: Option<String>,
    pub collections: Option<String>,
    pub query: Option<String>,
    pub featured: Option<String>,
    pub orientation: Option<String>,
    pub w: Option<String>,
    pub h: Option<String>,
    pub fm: Option<String>,
    pub fit: Option<String>,
    pub crop: Option<String>,
}

pub open spec fn is_digit_char(c: char) -> bool {
    0x30 <= (c as u32) && (c as u32) <= 0x39
}

/// A non-empty run of decimal digits.
pub open spec fn spec_is_dec_digits(s: Seq<char>) -> bool {
    s.len() > 0 && forall|j: int| 0 <= j < s.len() ==> is_digit_char(#[trigger] s[j])
}

pub open spec fn spec_digit_val(c: char) -> nat {
    if is_digit_char(c) {
        ((c as u32) - 0x30) as nat
    } else {
        0
    }
}

/// The number a run of decimal digits denotes.
pub open spec fn spec_dec_val(s: Seq<char>) -> nat
    decreases s.len(),
{
    if s.len() == 0 {
        0
    } else {
        spec_dec_val(s.drop_last()) * 10 + spec_digit_val(s.last())
    }
}

pub open spec fn parses_u32(s: Seq<char>) -> bool {
    spec_is_dec_digits(s) && spec_dec_val(s) <= u32::MAX
}

pub open spec fn parses_bool(s: Seq<char>) -> bool {
    s == "true"@ || s == "false"@
}

pub open spec fn parses_orientation(s: Seq<char>) -> bool {
    s == "landscape"@ || s == "portrait"@ || s == "squarish"@
}

/// The orientation a well-formed name denotes.
pub open spec fn spec_orientation_of(s: Seq<char>) -> Orientation {
    if s == "landscape"@ {
        Orientation::Landscape
    } else if s == "portrait"@ {
        Orientation::Portrait
    } else {
        Orientation::Squarish
    }
}

proof fn lemma_dec_val_prefix_le(s: Seq<char>, i: int)
    requires
        0 <= i <= s.len(),
        forall|j: int| 0 <= j < s.len() ==> is_digit_char(#[trigger] s[j]),
    ensures
        spec_dec_val(s.take(i)) <= spec_dec_val(s),
    decreases s.len() - i,
{
    if i < s.len() {
        assert(s.take(i + 1).drop_last() =~= s.take(i));
        assert(s.take(i + 1).last() == s[i]);
        assert(spec_dec_val(s.take(i)) <= spec_dec_val(s.take(i + 1)));
        lemma_dec_val_prefix_le(s, i + 1);
    } else {
        assert(s.take(i) =~= s);
    }
}

/// Parses a decimal number. Succeeds exactly on non-empty all-digit strings
/// whose value fits in 32 bits.
pub fn parse_u32(s: &str) -> (r: Option<u32>)
    ensures
        r is Some <==> parses_u32(s@),
        r matches Some(v) ==> v as nat == spec_dec_val(s@),
{
    let len = s.unicode_len();
    if len == 0 {
        return None;
    }
    let mut acc: u64 = 0;
    let mut i: usize = 0;
    while i < len
        invariant
            0 < len == s@.len(),
            i <= len,
            forall|j: int| 0 <= j < i ==> is_digit_char(#[trigger] s@[j]),
            acc as nat == spec_dec_val(s@.take(i as int)),
            acc <= u32::MAX,
        decreases len - i,
    {
        let c = s.get_char(i);
        let cp = c as u32;
        if cp < 0x30 || cp > 0x39 {
            proof {
                assert(!is_digit_char(s@[i as int]));
            }
            return None;
        }
        acc = acc * 10 + ((cp - 0x30) as u64);
        proof {
            assert(s@.take(i + 1).drop_last() =~= s@.take(i as int));
            assert(s@.take(i + 1).last() == s@[i as int]);
        }
        if acc > 0xFFFF_FFFF {
            proof {
                if spec_is_dec_digits(s@) {
                    lemma_dec_val_prefix_le(s@, i + 1);
                }
            }
            return None;
        }
        i += 1;
    }
    proof {
        assert(s@.take(len as int) =~= s@);
    }
    Some(acc as u32)
}

/// Parses a boolean. Succeeds exactly on "true" and "false".
pub fn parse_bool(s: &str) -> (r: Option<bool>)
    ensures
        r == Some(true) <==> s@ == "true"@,
        r == Some(false) <==> s@ == "false"@,
        r is None <==> !parses_bool(s@),
{
    proof {
        reveal_strlit("true");
        reveal_strlit("false");
        assert("true"@.len() == 4);
        assert("false"@.len() == 5);
    }
    let o = s.to_owned();
    if o == String::from_str("true") {
        Some(true)
    } else if o == String::from_str("false") {
        Some(false)
    } else {
        None
    }
}

/// Parses an orientation name. Succeeds exactly on "landscape", "portrait"
/// and "squarish".
pub fn parse_orientation(s: &str) -> (r: Option<Orientation>)
    ensures
        r matches Some(o) ==> parses_orientation(s@) && o == spec_orientation_of(s@),
        r is None <==> !parses_orientation(s@),
{
    proof {
        reveal_strlit("landscape");
        reveal_strlit("portrait");
        reveal_strlit("squarish");
        assert("landscape"@.len() == 9);
        assert("portrait"@[0] == 'p' && "squarish"@[0] == 's');
    }
    let o = s.to_owned();
    if o == String::from_str("landscape") {
        Some(Orientation::Landscape)
    } else if o == String::from_str("portrait") {
        Some(Orientation::Portrait)
    } else if o == String::from_str("squarish") {
        Some(Orientation::Squarish)
    } else {
        None
    }
}

/// True when every typed field of the layer is either absent or parses.
pub open spec fn overlay_ok(raw: RawOverlay) -> bool {
    &&& (raw.collections matches Some(s) ==> parses_u32(s@))
    &&& (raw.featured matches Some(s) ==> parses_bool(s@))
    &&& (raw.orientation matches Some(s) ==> parses_orientation(s@))
    &&& (raw.w matches Some(s) ==> parses_u32(s@))
    &&& (raw.h matches Some(s) ==> parses_u32(s@))
}

/// The typed layer an acceptable raw layer denotes: numbers, booleans and
/// the orientation parsed, text fields passed through unchanged.
pub open spec fn is_parsed_overlay(o: ConfigOverlay, raw: RawOverlay) -> bool {
    &&& o.key == raw.key
    &&& (match raw.collections {
        Some(s) => o.collections matches Some(v) && v as nat == spec_dec_val(s@),
        None => o.collections is None,
    })
    &&& o.query == raw.query
    &&& (match raw.featured {
        Some(s) => o.featured matches Some(b) && (b <==> s@ == "true"@),
        None => o.featured is None,
    })
    &&& (match raw.orientation {
        Some(s) => o.orientation matches Some(ot) && ot == spec_orientation_of(s@),
        None => o.orientation is None,
    })
    &&& (match raw.w {
        Some(s) => o.w matches Some(v) && v as nat == spec_dec_val(s@),
        None => o.w is None,
    })
    &&& (match raw.h {
        Some(s) => o.h matches Some(v) && v as nat == spec_dec_val(s@),
        None => o.h is None,
    })
    &&& o.fm == raw.fm
    &&& o.fit == raw.fit
    &&& o.crop == raw.crop
}

fn clone_opt_string(o: &Option<String>) -> (r: Option<String>)
    ensures
        r == *o,
{
    match o {
        Some(s) => Some(s.clone()),
        None => None,
    }
}

/// Turns a raw layer into a typed one. Succeeds exactly when every typed
/// field that the layer sets parses; a malformed value is a configuration
/// error naming the field.
pub fn parse_overlay(raw: &RawOverlay) -> (r: Result<ConfigOverlay, ApiError>)
    ensures
        r is Ok <==> overlay_ok(*raw),
        r matches Ok(o) ==> is_parsed_overlay(o, *raw),
        r matches Err(e) ==> e is Config,
{
    let collections = match &raw.collections {
        Some(s) => match parse_u32(s.as_str()) {
            Some(v) => Some(v),
            None => {
                return Err(ApiError::Config(String::from_str("collections")));
            },
        },
        None => None,
    };
    let featured = match &raw.featured {
        Some(s) => match parse_bool(s.as_str()) {
            Some(b) => Some(b),
            None => {
                return Err(ApiError::Config(String::from_str("featured")));
            },
        },
        None => None,
    };
    let orientation = match &raw.orientation {
        Some(s) => match parse_orientation(s.as_str()) {
            Some(o) => Some(o),
            None => {
                return Err(ApiError::Config(String::from_str("orientation")));
            },
        },
        None => None,
    };
    let w = match &raw.w {
        Some(s) => match parse_u32(s.as_str()) {
            Some(v) => Some(v),
            None => {
                return Err(ApiError::Config(String::from_str("w")));
            },
        },
        None => None,
    };
    let h = match &raw.h {
        Some(s) => match parse_u32(s.as_str()) {
            Some(v) => Some(v),
            None => {
                return Err(ApiError::Config(String::from_str("h")));
            },
        },
        None => None,
    };
    Ok(
        ConfigOverlay {
            key: clone_opt_string(&raw.key),
            collections,
            query: clone_opt_string(&raw.query),
            featured,
            orientation,
            w,
            h,
            fm: clone_opt_string(&raw.fm),
            fit: clone_opt_string(&raw.fit),
            crop: clone_opt_string(&raw.crop),
        },
    )
}

/// The value a field takes under layering: the environment's if it speaks,
/// else the file's if it speaks, else the default.
pub open spec fn layered<T>(env: Option<T>, file: Option<T>, dflt: T) -> T {
    if env is Some {
        env->0
    } else if file is Some {
        file->0
    } else {
        dflt
    }
}

/// Layering for a field that stays optional in the final configuration.
pub open spec fn layered_opt<T>(env: Option<T>, file: Option<T>, dflt: Option<T>) -> Option<T> {
    if env is Some {
        env
    } else if file is Some {
        file
    } else {
        dflt
    }
}

/// The layered-merge law, field by field: the environment layer wins over
/// the file layer, which wins over the built-in defaults.
pub open spec fn is_merge_of(c: Config, file: ConfigOverlay, env: ConfigOverlay) -> bool {
    &&& c.key@ == layered(env.key.deep_view(), file.key.deep_view(), Seq::<char>::empty())
    &&& c.query.collections == layered_opt(env.collections, file.collections, None)
    &&& c.query.query.deep_view() == layered_opt(
        env.query.deep_view(),
        file.query.deep_view(),
        Some("wallpaper"@),
    )
    &&& c.query.featured == layered(env.featured, file.featured, true)
    &&& c.query.orientation == layered(env.orientation, file.orientation, Orientation::Landscape)
    &&& c.download.w == layered(env.w, file.w, 1920u32)
    &&& c.download.h == layered(env.h, file.h, 1080u32)
    &&& c.download.fm@ == layered(env.fm.deep_view(), file.fm.deep_view(), "jpg"@)
    &&& c.download.fit@ == layered(env.fit.deep_view(), file.fit.deep_view(), "crop"@)
    &&& c.download.crop.deep_view() == layered_opt(
        env.crop.deep_view(),
        file.crop.deep_view(),
        Some("entropy"@),
    )
}

pub open spec fn is_empty_overlay(o: ConfigOverlay) -> bool {
    &&& o.key is None
    &&& o.collections is None
    &&& o.query is None
    &&& o.featured is None
    &&& o.orientation is None
    &&& o.w is None
    &&& o.h is None
    &&& o.fm is None
    &&& o.fit is None
    &&& o.crop is None
}

impl ConfigOverlay {
    /// The layer that sets nothing.
    pub fn empty() -> (o: Self)
        ensures
            is_empty_overlay(o),
    {
        ConfigOverlay {
            key: None,
            collections: None,
            query: None,
            featured: None,
            orientation: None,
            w: None,
            h: None,
            fm: None,
            fit: None,
            crop: None,
        }
    }
}

fn pick_string(env: &Option<String>, file: &Option<String>, dflt: &str) -> (r: String)
    ensures
        r@ == layered(env.deep_view(), file.deep_view(), dflt@),
{
    match env {
        Some(s) => s.clone(),
        None => match file {
            Some(s) => s.clone(),
            None => dflt.to_owned(),
        },
    }
}

fn pick_opt_string(env: &Option<String>, file: &Option<String>, dflt: &str) -> (r: Option<String>)
    ensures
        r.deep_view() == layered_opt(env.deep_view(), file.deep_view(), Some(dflt@)),
{
    match env {
        Some(s) => Some(s.clone()),
        None => match file {
            Some(s) => Some(s.clone()),
            None => Some(dflt.to_owned()),
        },
    }
}

impl Config {
    /// Merges two typed layers over the built-in defaults. The environment
    /// layer takes precedence over the file layer, which takes precedence
    /// over the defaults.
    pub fn merged(file: &ConfigOverlay, env: &ConfigOverlay) -> (c: Config)
        ensures
            is_merge_of(c, *file, *env),
    {
        proof {
            reveal_strlit("");
            assert(""@ =~= Seq::<char>::empty());
        }
        let key = pick_string(&env.key, &file.key, "");
        let collections = match env.collections {
            Some(v) => Some(v),
            None => match file.collections {
                Some(v) => Some(v),
                None => None,
            },
        };
        let query = pick_opt_string(&env.query, &file.query, "wallpaper");
        let featured = match env.featured {
            Some(b) => b,
            None => match file.featured {
                Some(b) => b,
                None => true,
            },
        };
        let orientation = match env.orientation {
            Some(o) => o,
            None => match file.orientation {
                Some(o) => o,
                None => Orientation::Landscape,
            },
        };
        let w = match env.w {
            Some(v) => v,
            None => match file.w {
                Some(v) => v,
                None => 1920,
            },
        };
        let h = match env.h {
            Some(v) => v,
            None => match file.h {
                Some(v) => v,
                None => 1080,
            },
        };
        let fm = pick_string(&env.fm, &file.fm, "jpg");
        let fit = pick_string(&env.fit, &file.fit, "crop");
        let crop = pick_opt_string(&env.crop, &file.crop, "entropy");
        Config {
            key,
            query: QueryParams { collections, query, featured, orientation },
            download: DownloadParams { w, h, fm, fit, crop },
        }
    }
}

/// With both layers silent, the merge is exactly the documented defaults:
/// empty key, search text "wallpaper", featured only, landscape, 1920 by
/// 1080, "jpg", fit "crop", crop strategy "entropy".
pub proof fn lemma_defaults_when_layers_absent(c: Config, file: ConfigOverlay, env: ConfigOverlay)
    requires
        is_merge_of(c, file, env),
        is_empty_overlay(file),
        is_empty_overlay(env),
    ensures
        c.key@ == Seq::<char>::empty(),
        is_default_query(c.query),
        is_default_download(c.download),
{
}

/// The precedence law, stated per field: a field set by the environment
/// takes that value; one set only by the file takes the file's value; one
/// set by neither takes the default.
pub proof fn lemma_layering_precedence(c: Config, file: ConfigOverlay, env: ConfigOverlay)
    requires
        is_merge_of(c, file, env),
    ensures
        env.key is Some ==> c.key@ == env.key->0@,
        env.key is None && file.key is Some ==> c.key@ == file.key->0@,
        env.key is None && file.key is None ==> c.key@ == Seq::<char>::empty(),
        env.collections is Some ==> c.query.collections == env.collections,
        env.collections is None && file.collections is Some ==> c.query.collections
            == file.collections,
        env.collections is None && file.collections is None ==> c.query.collections is None,
        env.query is Some ==> (c.query.query matches Some(t) && t@ == env.query->0@),
        env.query is None && file.query is Some ==> (c.query.query matches Some(t) && t@
            == file.query->0@),
        env.query is None && file.query is None ==> (c.query.query matches Some(t) && t@
            == "wallpaper"@),
        env.featured is Some ==> c.query.featured == env.featured->0,
        env.featured is None && file.featured is Some ==> c.query.featured == file.featured->0,
        env.featured is None && file.featured is None ==> c.query.featured == true,
        env.orientation is Some ==> c.query.orientation == env.orientation->0,
        env.orientation is None && file.orientation is Some ==> c.query.orientation
            == file.orientation->0,
        env.orientation is None && file.orientation is None ==> c.query.orientation
            == Orientation::Landscape,
        env.w is Some ==> c.download.w == env.w->0,
        env.w is None && file.w is Some ==> c.download.w == file.w->0,
        env.w is None && file.w is None ==> c.download.w == 1920,
        env.h is Some ==> c.download.h == env.h->0,
        env.h is None && file.h is Some ==> c.download.h == file.h->0,
        env.h is None && file.h is None ==> c.download.h == 1080,
        env.fm is Some ==> c.download.fm@ == env.fm->0@,
        env.fm is None && file.fm is Some ==> c.download.fm@ == file.fm->0@,
        env.fm is None && file.fm is None ==> c.download.fm@ == "jpg"@,
        env.fit is Some ==> c.download.fit@ == env.fit->0@,
        env.fit is None && file.fit is Some ==> c.download.fit@ == file.fit->0@,
        env.fit is None && file.fit is None ==> c.download.fit@ == "crop"@,
        env.crop is Some ==> (c.download.crop matches Some(t) && t@ == env.crop->0@),
        env.crop is None && file.crop is Some ==> (c.download.crop matches Some(t) && t@
            == file.crop->0@),
        env.crop is None && file.crop is None ==> (c.download.crop matches Some(t) && t@
            == "entropy"@),
{
}

} // verus!
