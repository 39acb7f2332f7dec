use rain_viewer::{ColorKind, ParameterError, RequestArguments};

#[test]
fn new_tile_defaults() {
    let args = RequestArguments::new_tile(26, 12, 6).unwrap();
    assert_eq!(args.x(), 26);
    assert_eq!(args.y(), 12);
    assert_eq!(args.zoom(), 6);
    assert_eq!(args.size(), 256);
    assert_eq!(args.color(), ColorKind::UniversalBlue);
    assert!(args.smooth());
    assert!(args.snow());
}

#[test]
fn new_tile_boundary() {
    // 2^2 = 4, so 3 is the last valid coordinate at zoom 2.
    assert!(RequestArguments::new_tile(3, 3, 2).is_ok());
    assert!(RequestArguments::new_tile(4, 3, 2).is_err());
    assert!(RequestArguments::new_tile(3, 4, 2).is_err());
    // At zoom 0 only the single tile (0, 0) exists.
    assert!(RequestArguments::new_tile(0, 0, 0).is_ok());
    assert!(RequestArguments::new_tile(1, 0, 0).is_err());
}

#[test]
fn new_tile_wide_zoom() {
    // At zooms of 32 and above every 32-bit coordinate fits the grid.
    assert!(RequestArguments::new_tile(4_000_000_000, 4_000_000_000, 32).is_ok());
    assert!(RequestArguments::new_tile(u32::MAX, u32::MAX, 40).is_ok());
}

#[test]
fn x_out_of_range_detail() {
    // x is checked before y, so x wins when both are out of range.
    match RequestArguments::new_tile(40, 40, 2) {
        Err(ParameterError::XOutOfRange(value, message)) => {
            assert_eq!(value, 40);
            assert_eq!(message, "With a zoom of 2, the max value for x is 3");
        }
        other => panic!("expected XOutOfRange, got {:?}", other),
    }
}

#[test]
fn y_out_of_range_detail() {
    match RequestArguments::new_tile(0, 4, 2) {
        Err(ParameterError::YOutOfRange(value, message)) => {
            assert_eq!(value, 4);
            assert_eq!(message, "With a zoom of 2, the max value for y is 3");
        }
        other => panic!("expected YOutOfRange, got {:?}", other),
    }
}

#[test]
fn set_size_accepts_256_and_512() {
    let mut args = RequestArguments::new_tile(1, 2, 3).unwrap();
    assert!(args.set_size(512).is_ok());
    assert_eq!(args.size(), 512);
    // Applying the same size again changes nothing.
    assert!(args.set_size(512).is_ok());
    assert_eq!(args.size(), 512);
    assert!(args.set_size(256).is_ok());
    assert_eq!(args.size(), 256);
    assert!(args.set_size(256).is_ok());
    assert_eq!(args.size(), 256);
}

#[test]
fn set_size_rejects_other_sizes() {
    let mut args = RequestArguments::new_tile(1, 2, 3).unwrap();
    match args.set_size(100) {
        Err(ParameterError::InvalidSize(value, message)) => {
            assert_eq!(value, 100);
            assert_eq!(message, "Image size must be either 256 or 512");
        }
        other => panic!("expected InvalidSize, got {:?}", other),
    }
    // The arguments are unchanged after the failure.
    assert_eq!(args.size(), 256);
}

#[test]
fn setters_update_fields() {
    let mut args = RequestArguments::new_tile(4, 7, 6).unwrap();
    args.set_color(ColorKind::Titan);
    args.set_snow(true);
    args.set_smooth(false);
    assert_eq!(args.color(), ColorKind::Titan);
    assert!(args.snow());
    assert!(!args.smooth());
    // The coordinates are untouched by the mutators.
    assert_eq!(args.x(), 4);
    assert_eq!(args.y(), 7);
    assert_eq!(args.zoom(), 6);
}

#[test]
fn color_codes_are_fixed() {
    assert_eq!(u32::from(ColorKind::BlackAndWhite), 0);
    assert_eq!(u32::from(ColorKind::Original), 1);
    assert_eq!(u32::from(ColorKind::UniversalBlue), 2);
    assert_eq!(u32::from(ColorKind::Titan), 3);
    assert_eq!(u32::from(ColorKind::TheWeatherChannel), 4);
    assert_eq!(u32::from(ColorKind::Meteored), 5);
    assert_eq!(u32::from(ColorKind::NexradLevelIII), 6);
    assert_eq!(u32::from(ColorKind::RainbowSelexIS), 7);
    assert_eq!(u32::from(ColorKind::DarkSky), 8);
}
