use rain_viewer::{FetchError, Frame, RequestArguments};

const MANIFEST: &str = "{\
\"version\":\"2.0\",\
\"generated\":1609502460,\
\"host\":\"https://tilecache.rainviewer.com\",\
\"radar\":{\
\"past\":[\
{\"time\":1609502400,\"path\":\"v2/radar/1609502400\"},\
{\"time\":1609503000,\"path\":\"v2/radar/1609503000\"}],\
\"nowcast\":[\
{\"time\":1609503600,\"path\":\"v2/radar/nowcast_5678\"}]},\
\"satellite\":{\
\"infrared\":[\
{\"time\":1609502400,\"path\":\"v2/satellite/abcd\"}]}}";

#[test]
fn manifest_parses() {
    let maps = rain_viewer::manifest_from_json(MANIFEST).unwrap();
    assert_eq!(maps.host(), "https://tilecache.rainviewer.com");
    assert_eq!(maps.past_radar.len(), 2);
    assert_eq!(maps.past_radar[0].path, "v2/radar/1609502400");
    assert_eq!(maps.past_radar[1].path, "v2/radar/1609503000");
    assert_eq!(maps.nowcast_radar.len(), 1);
    assert_eq!(maps.nowcast_radar[0].path, "v2/radar/nowcast_5678");
    assert_eq!(maps.infrared_satellite.len(), 1);
    assert_eq!(maps.infrared_satellite[0].path, "v2/satellite/abcd");
    // The integer timestamps are converted to calendar date-times.
    let expected = chrono::DateTime::from_timestamp(1609502400, 0)
        .unwrap()
        .naive_utc();
    assert_eq!(maps.past_radar[0].time, expected);
    assert_eq!(maps.past_radar[0].time.to_string(), "2021-01-01 12:00:00");
}

#[test]
fn manifest_tile_url() {
    let maps = rain_viewer::manifest_from_json(MANIFEST).unwrap();
    let frame = &maps.past_radar[0];
    let args = RequestArguments::new_tile(26, 12, 6).unwrap();
    let url = rain_viewer::tile_url(&maps, frame, &args);
    assert_eq!(
        url,
        "https://tilecache.rainviewer.com/v2/radar/1609502400/256/6/26/12/2/1_1.png"
    );
}

#[test]
fn manifest_rejects_bad_json() {
    match rain_viewer::manifest_from_json("{not json") {
        Err(FetchError::Json(_)) => {}
        other => panic!("expected a JSON error, got {:?}", other),
    }
}

#[test]
fn manifest_rejects_missing_host() {
    let text = "{\"version\":\"2.0\",\"generated\":1609502460,\
\"radar\":{\"past\":[],\"nowcast\":[]},\"satellite\":{\"infrared\":[]}}";
    match rain_viewer::manifest_from_json(text) {
        Err(FetchError::Malformed(_)) => {}
        other => panic!("expected a malformed-manifest error, got {:?}", other),
    }
}

#[test]
fn manifest_rejects_bad_frame() {
    let text = "{\"version\":\"2.0\",\"generated\":1609502460,\
\"host\":\"https://tilecache.rainviewer.com\",\
\"radar\":{\"past\":[{\"time\":\"soon\",\"path\":\"v2/radar/x\"}],\"nowcast\":[]},\
\"satellite\":{\"infrared\":[]}}";
    match rain_viewer::manifest_from_json(text) {
        Err(FetchError::Malformed(_)) => {}
        other => panic!("expected a malformed-manifest error, got {:?}", other),
    }
}

#[test]
fn manifest_accepts_empty_frame_lists() {
    let text = "{\"version\":\"2.0\",\"generated\":1609502460,\
\"host\":\"https://tilecache.rainviewer.com\",\
\"radar\":{\"past\":[],\"nowcast\":[]},\"satellite\":{\"infrared\":[]}}";
    let maps = rain_viewer::manifest_from_json(text).unwrap();
    assert!(maps.past_radar.is_empty());
    assert!(maps.nowcast_radar.is_empty());
    assert!(maps.infrared_satellite.is_empty());
}

#[test]
fn frame_from_unix_converts() {
    let frame = Frame::from_unix(0, String::from("v2/radar/epoch")).unwrap();
    assert_eq!(frame.path, "v2/radar/epoch");
    assert_eq!(frame.time.to_string(), "1970-01-01 00:00:00");
}

#[test]
fn frame_from_unix_rejects_out_of_range() {
    assert!(Frame::from_unix(u64::MAX, String::from("p")).is_none());
    // Fits a signed 64-bit count but lies beyond the representable calendar.
    assert!(Frame::from_unix(i64::MAX as u64, String::from("p")).is_none());
    // Matches chrono's own acceptance on an in-range value.
    let secs: u64 = 4_102_444_800;
    assert_eq!(
        Frame::from_unix(secs, String::from("p")).is_some(),
        chrono::DateTime::from_timestamp(secs as i64, 0).is_some()
    );
}
