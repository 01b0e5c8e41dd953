use runarium::configs::config::{Color, FileConfig, Font, RouteColor, RouteScale};
use runarium::configs::image_config::RouteImageConfig;
use runarium::configs::video_config::LapDataConfig;
use runarium::generators::route_image::{image_route_with_config, route_image};
use runarium::generators::running_route_image::generate_running_route_image;
use runarium::types::drawer_data::{CanvasSpec, DrawOp, PositionRect, SizeRect};
use runarium::types::error::InputError;
use runarium::types::fit_data::{LapData, RouteData};

fn route() -> RouteData {
    RouteData {
        paces: vec!["5:00".to_string(), "5:10".to_string(), "5:20".to_string()],
        gps_points: vec![(0, 0), (100, 50), (200, 100)],
        distances: vec![0, 1_250_000, 2_504_000],
    }
}

fn laps() -> LapData {
    LapData {
        avg_heart_rate: vec![150, 162],
        enhanced_avg_speed: vec!["5:00".to_string(), "6:00".to_string()],
        avg_step_length: vec![1_052_300, 1_100_000],
    }
}

fn files() -> FileConfig {
    FileConfig::new("a.fit".to_string(), "a.jpg".to_string(), "a.png".to_string())
}

fn chain(color: [u8; 4], thickness: i32) -> DrawOp {
    DrawOp::Polyline {
        points: vec![
            PositionRect { x: 108, y: 324 },
            PositionRect { x: 216, y: 216 },
            PositionRect { x: 324, y: 108 },
        ],
        color,
        thickness,
        line_type: 16,
    }
}

#[test]
fn image_config_constructors() {
    let plain = RouteImageConfig::new(RouteScale::default(), RouteColor::default(), files(), 3);
    assert!(!plain.show_lap_data());
    assert_eq!(plain.line_thickness, 3);
    let with_panel = RouteImageConfig::with_lap_data(
        RouteScale::default(),
        RouteColor::default(),
        files(),
        3,
        LapDataConfig::default(),
    );
    assert!(with_panel.show_lap_data());
    let default = RouteImageConfig::default(
        "a.fit".to_string(),
        "a.jpg".to_string(),
        "a.png".to_string(),
    );
    assert!(!default.show_lap_data());
    assert_eq!(default.line_thickness, 2);
    assert_eq!(default.route_scale, RouteScale::default());
    assert_eq!(default.colors, RouteColor::default());
    assert_eq!(default.file_config.output_file, "a.png");
}

#[test]
fn palettes() {
    let default = RouteColor::default();
    assert_eq!(default.route_line, [0, 0, 255, 0]);
    assert_eq!(default.current_position, [0, 255, 0, 0]);
    assert_eq!(default.text, [255, 255, 255, 0]);
    assert_eq!(default.lap_bars, [0, 255, 0, 0]);
    let blue = RouteColor::blue_scheme();
    assert_eq!(blue.route_line, [255, 0, 0, 0]);
    assert_eq!(blue.current_position, [255, 255, 0, 0]);
    assert_eq!(blue.lap_bars, [255, 128, 0, 0]);
    let neon = RouteColor::neon_scheme();
    assert_eq!(neon.route_line, [255, 0, 255, 0]);
    assert_eq!(neon.current_position, [0, 255, 255, 0]);
    assert_eq!(neon.lap_bars, [255, 0, 255, 0]);
    let custom = RouteColor::new([1, 2, 3, 4], [5, 6, 7, 8], [9, 10, 11, 12], [13, 14, 15, 16]);
    assert_eq!(custom.text, [9, 10, 11, 12]);
    assert_eq!(Color::Orange.to_bgra(), [0, 165, 255, 0]);
    assert_eq!(Color::YellowGreen.to_bgra(), [47, 255, 173, 0]);
    assert_eq!(Color::BlueViolet.to_bgra(), [226, 43, 138, 0]);
}

#[test]
fn font_codes() {
    assert_eq!(Font::Simplex.to_opencv(), 0);
    assert_eq!(Font::Plain.to_opencv(), 1);
    assert_eq!(Font::Duplex.to_opencv(), 2);
    assert_eq!(Font::Complex.to_opencv(), 3);
    assert_eq!(Font::Triplex.to_opencv(), 4);
    assert_eq!(Font::ComplexSmall.to_opencv(), 5);
    assert_eq!(Font::ScriptSimplex.to_opencv(), 6);
    assert_eq!(Font::ScriptComplex.to_opencv(), 7);
    assert_eq!(Font::Italic.to_opencv(), 16);
}

#[test]
fn plain_image_is_the_route() {
    let plan = route_image(
        200_000,
        100_000,
        100_000,
        &route(),
        SizeRect { width: 1080, height: 720 },
    )
    .unwrap();
    assert_eq!(plan.canvas, CanvasSpec { width: 1080, height: 720 });
    assert_eq!(plan.image.ops, vec![chain([0, 0, 255, 0], 2)]);
    let run = generate_running_route_image(
        200_000,
        100_000,
        100_000,
        &route(),
        SizeRect { width: 1080, height: 720 },
    )
    .unwrap();
    assert_eq!(run.image, plan.image);
}

#[test]
fn configured_image_without_panel() {
    let config = RouteImageConfig::new(
        RouteScale::default(),
        RouteColor::blue_scheme(),
        files(),
        5,
    );
    let plan = image_route_with_config(
        &config,
        &route(),
        &laps(),
        SizeRect { width: 1080, height: 720 },
        &Vec::new(),
    )
    .unwrap();
    assert_eq!(plan.image.ops, vec![chain([255, 0, 0, 0], 5)]);
}

#[test]
fn configured_image_with_panel() {
    let mut panel = LapDataConfig::minimal();
    panel.text_color = Color::Yellow;
    let config = RouteImageConfig::with_lap_data(
        RouteScale::default(),
        RouteColor::neon_scheme(),
        files(),
        2,
        panel,
    );
    let lap_sizes = vec![SizeRect { width: 40, height: 12 }; 2];
    let plan = image_route_with_config(
        &config,
        &route(),
        &laps(),
        SizeRect { width: 1080, height: 720 },
        &lap_sizes,
    )
    .unwrap();
    // header, two rows of pace and bar, and the route on top
    assert_eq!(plan.image.len(), 4 + 2 * 2 + 1);
    assert_eq!(plan.image.ops[8], chain([255, 0, 255, 0], 2));
    // the header of an image is bold; the anchor is at 0.5 * 1080 and 0.09 * 720 = 64.8
    assert_eq!(
        plan.image.ops[0],
        DrawOp::Text {
            text: "KM   PACE".to_string(),
            origin: PositionRect { x: 520, y: 44 },
            font: Font::Simplex,
            font_scale: 500_000,
            color: [255, 255, 0, 0],
            thickness: 2,
            line_type: 16,
        }
    );
    assert_eq!(
        plan.image.ops[4],
        DrawOp::Text {
            text: "1   5:00".to_string(),
            origin: PositionRect { x: 520, y: 64 },
            font: Font::Simplex,
            font_scale: 500_000,
            color: [0, 255, 255, 0],
            thickness: 1,
            line_type: 16,
        }
    );
}

#[test]
fn image_of_an_empty_track_is_refused() {
    let empty = RouteData { paces: Vec::new(), gps_points: Vec::new(), distances: Vec::new() };
    let config = RouteImageConfig::new(RouteScale::default(), RouteColor::default(), files(), 2);
    let image = SizeRect { width: 1080, height: 720 };
    assert_eq!(
        image_route_with_config(&config, &empty, &laps(), image, &Vec::new()).err(),
        Some(InputError::EmptyTrack)
    );
    assert_eq!(
        route_image(200_000, 100_000, 100_000, &empty, image).err(),
        Some(InputError::EmptyTrack)
    );
    assert_eq!(
        route_image(200_000, 100_000, 100_000, &route(), SizeRect { width: 0, height: 9 }).err(),
        Some(InputError::EmptyImage)
    );
}
