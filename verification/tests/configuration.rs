use unsplash_wallpaper::ApiError;
use unsplash_wallpaper::Config;
use unsplash_wallpaper::ConfigOverlay;
use unsplash_wallpaper::DownloadParams;
use unsplash_wallpaper::Orientation;
use unsplash_wallpaper::QueryParams;
use unsplash_wallpaper::RawOverlay;
use unsplash_wallpaper::parse_bool;
use unsplash_wallpaper::parse_orientation;
use unsplash_wallpaper::parse_overlay;
use unsplash_wallpaper::parse_u32;

fn empty_raw() -> RawOverlay {
    RawOverlay {
        key: None,
        collections: None,
        query: None,
        featured: None,
        orientation: None,
        w: None,
        h: None,
        fm: None,
        fit: None,
        crop: None,
    }
}

#[test]
fn query_params_defaults() {
    let q = QueryParams::default();
    assert_eq!(q.collections, None);
    assert_eq!(q.query.as_deref(), Some("wallpaper"));
    assert!(q.featured);
    assert!(matches!(q.orientation, Orientation::Landscape));
}

#[test]
fn download_params_defaults() {
    let d = DownloadParams::default();
    assert_eq!(d.w, 1920);
    assert_eq!(d.h, 1080);
    assert_eq!(d.fm, "jpg");
    assert_eq!(d.fit, "crop");
    assert_eq!(d.crop.as_deref(), Some("entropy"));
}

#[test]
fn merged_of_silent_layers_is_all_defaults() {
    let c = Config::merged(&ConfigOverlay::empty(), &ConfigOverlay::empty());
    assert_eq!(c.key, "");
    assert_eq!(c.query.collections, None);
    assert_eq!(c.query.query.as_deref(), Some("wallpaper"));
    assert!(c.query.featured);
    assert!(matches!(c.query.orientation, Orientation::Landscape));
    assert_eq!(c.download.w, 1920);
    assert_eq!(c.download.h, 1080);
    assert_eq!(c.download.fm, "jpg");
    assert_eq!(c.download.fit, "crop");
    assert_eq!(c.download.crop.as_deref(), Some("entropy"));
}

#[test]
fn environment_beats_file_beats_defaults() {
    let mut file = ConfigOverlay::empty();
    file.key = Some("from-file".to_string());
    file.w = Some(800);
    file.featured = Some(false);
    let mut env = ConfigOverlay::empty();
    env.w = Some(640);
    env.orientation = Some(Orientation::Portrait);
    let c = Config::merged(&file, &env);
    // set by env alone: env wins over the default
    assert!(matches!(c.query.orientation, Orientation::Portrait));
    // set by both layers: env wins over the file
    assert_eq!(c.download.w, 640);
    // set by the file alone: the file wins over the default
    assert_eq!(c.key, "from-file");
    assert_eq!(c.query.featured, false);
    // set by neither: the default stands
    assert_eq!(c.download.h, 1080);
}

#[test]
fn parse_u32_accepts_digits_and_rejects_the_rest() {
    assert_eq!(parse_u32("0"), Some(0));
    assert_eq!(parse_u32("42"), Some(42));
    assert_eq!(parse_u32("007"), Some(7));
    assert_eq!(parse_u32("4294967295"), Some(u32::MAX));
    assert_eq!(parse_u32("4294967296"), None);
    assert_eq!(parse_u32("99999999999999999999"), None);
    assert_eq!(parse_u32(""), None);
    assert_eq!(parse_u32("12a"), None);
    assert_eq!(parse_u32("-3"), None);
    assert_eq!(parse_u32(" 3"), None);
}

#[test]
fn parse_bool_accepts_true_and_false_only() {
    assert_eq!(parse_bool("true"), Some(true));
    assert_eq!(parse_bool("false"), Some(false));
    assert_eq!(parse_bool("True"), None);
    assert_eq!(parse_bool("1"), None);
    assert_eq!(parse_bool(""), None);
}

#[test]
fn parse_orientation_accepts_the_three_names() {
    assert!(matches!(parse_orientation("landscape"), Some(Orientation::Landscape)));
    assert!(matches!(parse_orientation("portrait"), Some(Orientation::Portrait)));
    assert!(matches!(parse_orientation("squarish"), Some(Orientation::Squarish)));
    assert_eq!(parse_orientation("Landscape"), None);
    assert_eq!(parse_orientation("square"), None);
}

#[test]
fn parse_overlay_keeps_values_and_types_them() {
    let mut raw = empty_raw();
    raw.key = Some("abc".to_string());
    raw.collections = Some("17".to_string());
    raw.query = Some("mountains".to_string());
    raw.featured = Some("false".to_string());
    raw.orientation = Some("squarish".to_string());
    raw.w = Some("640".to_string());
    raw.h = Some("480".to_string());
    raw.fm = Some("png".to_string());
    raw.fit = Some("max".to_string());
    raw.crop = Some("faces".to_string());
    let o = parse_overlay(&raw).unwrap();
    assert_eq!(o.key.as_deref(), Some("abc"));
    assert_eq!(o.collections, Some(17));
    assert_eq!(o.query.as_deref(), Some("mountains"));
    assert_eq!(o.featured, Some(false));
    assert!(matches!(o.orientation, Some(Orientation::Squarish)));
    assert_eq!(o.w, Some(640));
    assert_eq!(o.h, Some(480));
    assert_eq!(o.fm.as_deref(), Some("png"));
    assert_eq!(o.fit.as_deref(), Some("max"));
    assert_eq!(o.crop.as_deref(), Some("faces"));
}

#[test]
fn parse_overlay_of_silence_sets_nothing() {
    let o = parse_overlay(&empty_raw()).unwrap();
    assert_eq!(o.key, None);
    assert_eq!(o.collections, None);
    assert_eq!(o.query, None);
    assert_eq!(o.featured, None);
    assert!(o.orientation.is_none());
    assert_eq!(o.w, None);
    assert_eq!(o.h, None);
    assert_eq!(o.fm, None);
    assert_eq!(o.fit, None);
    assert_eq!(o.crop, None);
}

#[test]
fn malformed_featured_is_a_configuration_error() {
    let mut raw = empty_raw();
    raw.featured = Some("yes".to_string());
    let e = parse_overlay(&raw).unwrap_err();
    assert!(matches!(e, ApiError::Config(ref f) if f == "featured"));
}

#[test]
fn malformed_width_is_a_configuration_error() {
    let mut raw = empty_raw();
    raw.w = Some("wide".to_string());
    let e = parse_overlay(&raw).unwrap_err();
    assert!(matches!(e, ApiError::Config(ref f) if f == "w"));
}

#[test]
fn malformed_orientation_is_a_configuration_error() {
    let mut raw = empty_raw();
    raw.orientation = Some("diagonal".to_string());
    let e = parse_overlay(&raw).unwrap_err();
    assert!(matches!(e, ApiError::Config(ref f) if f == "orientation"));
}
