use unsplash_wallpaper::ApiError;
use unsplash_wallpaper::Config;
use unsplash_wallpaper::ConfigOverlay;
use unsplash_wallpaper::DownloadParams;
use unsplash_wallpaper::Orientation;
use unsplash_wallpaper::QueryParams;
use unsplash_wallpaper::build_download_url;
use unsplash_wallpaper::parse_photo_response;
use unsplash_wallpaper::query_string;
use unsplash_wallpaper::random_photo_request;
use unsplash_wallpaper::response_from_extracted;

#[test]
fn absent_collections_is_omitted_entirely() {
    let q = QueryParams::default();
    let s = query_string(&q);
    assert_eq!(s, "query=wallpaper&featured=true&orientation=landscape");
    assert!(!s.contains("collections"));
}

#[test]
fn present_collections_is_serialized_first() {
    let mut q = QueryParams::default();
    q.collections = Some(17);
    assert_eq!(
        query_string(&q),
        "collections=17&query=wallpaper&featured=true&orientation=landscape"
    );
}

#[test]
fn absent_query_text_is_omitted_entirely() {
    let q = QueryParams {
        collections: None,
        query: None,
        featured: false,
        orientation: Orientation::Squarish,
    };
    assert_eq!(query_string(&q), "featured=false&orientation=squarish");
}

#[test]
fn query_text_is_percent_encoded() {
    let mut q = QueryParams::default();
    q.query = Some("new york+fun".to_string());
    assert_eq!(
        query_string(&q),
        "query=new%20york%2Bfun&featured=true&orientation=landscape"
    );
}

#[test]
fn non_ascii_query_text_is_utf8_percent_encoded() {
    let mut q = QueryParams::default();
    q.query = Some("café".to_string());
    assert_eq!(query_string(&q), "query=caf%C3%A9&featured=true&orientation=landscape");
}

#[test]
fn download_url_carries_exactly_the_five_parameters() {
    let d = DownloadParams {
        w: 100,
        h: 200,
        fm: "png".to_string(),
        fit: "crop".to_string(),
        crop: Some("entropy".to_string()),
    };
    assert_eq!(
        build_download_url("https://img/x", &d),
        "https://img/x?w=100&h=200&fm=png&fit=crop&crop=entropy"
    );
}

#[test]
fn download_url_appends_to_an_existing_query() {
    let d = DownloadParams {
        w: 10,
        h: 20,
        fm: "jpg".to_string(),
        fit: "max".to_string(),
        crop: None,
    };
    assert_eq!(
        build_download_url("https://img/x?ixid=abc", &d),
        "https://img/x?ixid=abc&w=10&h=20&fm=jpg&fit=max"
    );
}

#[test]
fn absent_crop_is_omitted_entirely() {
    let d = DownloadParams {
        w: 1,
        h: 2,
        fm: "jpg".to_string(),
        fit: "crop".to_string(),
        crop: None,
    };
    assert_eq!(build_download_url("https://img/x", &d), "https://img/x?w=1&h=2&fm=jpg&fit=crop");
}

#[test]
fn request_carries_auth_and_version_headers() {
    let q = QueryParams::default();
    let req = random_photo_request("abc", &q);
    assert_eq!(req.authorization, "Client-ID abc");
    assert_eq!(req.accept_version, "v1");
    assert_eq!(
        req.url,
        "https://api.unsplash.com/photos/random?query=wallpaper&featured=true&orientation=landscape"
    );
}

#[test]
fn well_shaped_body_yields_the_raw_url() {
    let r = parse_photo_response(200, "{\"urls\": {\"raw\": \"https://img/x\"}}").unwrap();
    assert_eq!(r.urls.raw, "https://img/x");
}

#[test]
fn body_missing_urls_raw_is_a_parse_error() {
    let e = parse_photo_response(200, "{\"urls\": {}}").unwrap_err();
    assert!(matches!(e, ApiError::Parse));
    let e = parse_photo_response(200, "{\"id\": \"abc\"}").unwrap_err();
    assert!(matches!(e, ApiError::Parse));
    let e = parse_photo_response(200, "not json at all").unwrap_err();
    assert!(matches!(e, ApiError::Parse));
    let e = parse_photo_response(200, "{\"urls\": {\"raw\": 7}}").unwrap_err();
    assert!(matches!(e, ApiError::Parse));
}

#[test]
fn non_2xx_status_is_an_http_error_with_that_status() {
    let e = parse_photo_response(401, "{\"urls\": {\"raw\": \"https://img/x\"}}").unwrap_err();
    assert!(matches!(e, ApiError::Http(401)));
    let e = parse_photo_response(500, "").unwrap_err();
    assert!(matches!(e, ApiError::Http(500)));
    assert!(parse_photo_response(204, "{\"urls\": {\"raw\": \"u\"}}").is_ok());
}

#[test]
fn extraction_outcome_maps_to_response_or_parse_error() {
    let r = response_from_extracted(Some("https://img/y".to_string())).unwrap();
    assert_eq!(r.urls.raw, "https://img/y");
    assert!(matches!(response_from_extracted(None).unwrap_err(), ApiError::Parse));
}

#[test]
fn full_flow_with_default_config_and_mocked_body() {
    let mut env = ConfigOverlay::empty();
    env.key = Some("abc".to_string());
    let config = Config::merged(&ConfigOverlay::empty(), &env);
    let req = random_photo_request(&config.key, &config.query);
    assert_eq!(req.authorization, "Client-ID abc");
    let body = "{\"urls\": {\"raw\": \"https://images.example/photo1\"}}";
    let resp = parse_photo_response(200, body).unwrap();
    let url = build_download_url(&resp.urls.raw, &config.download);
    assert_eq!(url, "https://images.example/photo1?w=1920&h=1080&fm=jpg&fit=crop&crop=entropy");
}
