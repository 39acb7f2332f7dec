use rain_viewer::{ColorKind, FetchError, RequestArguments};

#[test]
fn url_shape() {
    let args = RequestArguments::new_tile(26, 12, 6).unwrap();
    let url = rain_viewer::build_tile_url(
        "https://tilecache.rainviewer.com",
        "v2/radar/1609502400",
        &args,
    );
    assert_eq!(
        url,
        "https://tilecache.rainviewer.com/v2/radar/1609502400/256/6/26/12/2/1_1.png"
    );
}

#[test]
fn url_reflects_every_argument() {
    let mut args = RequestArguments::new_tile(4, 7, 6).unwrap();
    args.set_size(512).unwrap();
    args.set_color(ColorKind::Titan);
    args.set_snow(false);
    args.set_smooth(false);
    let url = rain_viewer::build_tile_url("http://host", "p", &args);
    assert_eq!(url, "http://host/p/512/6/4/7/3/0_0.png");
}

#[test]
fn url_is_deterministic() {
    let args = RequestArguments::new_tile(1, 2, 3).unwrap();
    let first = rain_viewer::build_tile_url("http://host", "path", &args);
    let second = rain_viewer::build_tile_url("http://host", "path", &args);
    assert_eq!(first, second);
}

#[test]
fn tile_response_success() {
    let body = vec![0x89u8, 0x50, 0x4e, 0x47];
    let out = rain_viewer::tile_response(200, body.clone()).unwrap();
    assert_eq!(out, body);
}

#[test]
fn tile_response_error_status() {
    match rain_viewer::tile_response(404, Vec::new()) {
        Err(FetchError::Http(status)) => assert_eq!(status, 404),
        other => panic!("expected an HTTP status error, got {:?}", other),
    }
}

#[test]
fn manifest_url_is_fixed() {
    assert_eq!(
        rain_viewer::manifest_url(),
        "https://api.rainviewer.com/public/weather-maps.json"
    );
}

#[test]
fn decimal_rendering() {
    assert_eq!(rain_viewer::u32_to_string(0), "0");
    assert_eq!(rain_viewer::u32_to_string(7), "7");
    assert_eq!(rain_viewer::u32_to_string(256), "256");
    assert_eq!(rain_viewer::u32_to_string(u32::MAX), "4294967295");
}
