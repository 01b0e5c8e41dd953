use runarium::types::route_config::{
    Color, FileConfig, LapDataConfig, PaceDistConfig, RouteColor, RouteScale, RouteVideoConfig,
};

#[test]
fn route_config_test_color_to_bgra() {
    assert_eq!(Color::Red.to_bgra(), [0, 0, 255, 0]);
    assert_eq!(Color::Green.to_bgra(), [0, 255, 0, 0]);
    assert_eq!(Color::Blue.to_bgra(), [255, 0, 0, 0]);
    assert_eq!(Color::White.to_bgra(), [255, 255, 255, 0]);
    assert_eq!(Color::Black.to_bgra(), [0, 0, 0, 0]);
}

#[test]
fn route_config_test_route_scale_presets() {
    let default = RouteScale::default();
    assert_eq!(default.scale, 200_000);
    assert_eq!(default.offset_x_percent, 100_000);
    assert_eq!(default.offset_y_percent, 100_000);

    let centered = RouteScale::centered();
    assert_eq!(centered.scale, 400_000);
    assert_eq!(centered.offset_x_percent, 300_000);
    assert_eq!(centered.offset_y_percent, 300_000);

    let large = RouteScale::large();
    assert_eq!(large.scale, 700_000);
    assert_eq!(large.offset_x_percent, 150_000);
    assert_eq!(large.offset_y_percent, 150_000);
}

#[test]
fn route_config_test_route_scale_custom() {
    let custom = RouteScale::new(500_000, 200_000, 300_000);
    assert_eq!(custom.scale, 500_000);
    assert_eq!(custom.offset_x_percent, 200_000);
    assert_eq!(custom.offset_y_percent, 300_000);
}

#[test]
fn route_config_test_lap_data_position_percentages() {
    let config = LapDataConfig::default();

    // Positions should be between 0.0 and 1.0
    assert!(config.position.0 >= 0 && config.position.0 <= 1_000_000);
    assert!(config.position.1 >= 0 && config.position.1 <= 1_000_000);

    // Pixel positions for 1920x1080
    let x: i64 = config.position.0 as i64 * 1920 / 1_000_000;
    let y: i64 = config.position.1 as i64 * 1080 / 1_000_000;

    assert!(x >= 0 && x <= 1920);
    assert!(y >= 0 && y <= 1080);
}

#[test]
fn route_config_test_pace_dist_config() {
    let default = PaceDistConfig::default();
    assert!(default.show_pace);
    assert!(default.show_distance);

    let pace_only = PaceDistConfig::pace_only();
    assert!(pace_only.show_pace);
    assert!(!pace_only.show_distance);
}

#[test]
fn route_config_test_route_video_config_presets() {
    let default = RouteVideoConfig::default();
    assert_eq!(default.show_bottom_bar, true);
    assert_eq!(default.show_route, true);
    assert_eq!(default.show_lap_data, true);
    assert_eq!(default.file_config.fit_file, "source/car.fit");
    assert_eq!(default.file_config.background_image, "source/car.jpg");
    assert_eq!(default.file_config.output_file, "outputs/car.mp4");

    let minimalist = RouteVideoConfig::minimalist();
    assert!(minimalist.show_bottom_bar);

    let neon = RouteVideoConfig::neon();
    assert!(neon.show_route);
}

#[test]
fn route_config_test_route_video_config_custom() {
    let file_config = FileConfig::new(
        "test.fit".to_string(),
        "test.jpg".to_string(),
        "test.mp4".to_string(),
    );

    let config = RouteVideoConfig::new(
        RouteScale::new(500_000, 100_000, 200_000),
        RouteColor::default(),
        PaceDistConfig::default(),
        LapDataConfig::default(),
        file_config,
        true,
        false,
        true,
    );

    assert_eq!(config.show_route, false);
    assert_eq!(config.file_config.fit_file, "test.fit");
    assert_eq!(config.file_config.background_image, "test.jpg");
    assert_eq!(config.file_config.output_file, "test.mp4");
}

#[test]
fn route_config_test_visibility_flags() {
    let mut config = RouteVideoConfig::default();
    config.show_bottom_bar = false;
    config.show_route = false;
    config.show_lap_data = false;

    assert!(!config.show_bottom_bar);
    assert!(!config.show_route);
    assert!(!config.show_lap_data);
}
