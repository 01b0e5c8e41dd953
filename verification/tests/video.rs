use runarium::configs::config::{Color, Font, RouteScale};
use runarium::configs::video_config::RouteVideoConfig;
use runarium::generators::compositor::{FrameCompositor, Phase};
use runarium::generators::route_video::{
    progressive_route, progressive_route_with_config, strip_texts, StripStyle,
};
use runarium::generators::running_route_video::generate_running_route_video;
use runarium::types::drawer_data::{CanvasSpec, DrawOp, PositionRect, Rect, SizeRect};
use runarium::types::error::InputError;
use runarium::types::fit_data::{LapData, RouteData};
use runarium::utils::element_drawer::Drawer;

const WHITE: [u8; 4] = [255, 255, 255, 0];
const RED: [u8; 4] = [0, 0, 255, 0];
const GREEN: [u8; 4] = [0, 255, 0, 0];

fn route() -> RouteData {
    RouteData {
        paces: vec!["5:00".to_string(), "5:10".to_string(), "5:20".to_string(), "5:30".to_string()],
        gps_points: vec![(0, 0), (100, 50), (200, 100), (100, 100)],
        distances: vec![0, 1_250_000, 2_504_000],
    }
}

fn laps() -> LapData {
    LapData {
        avg_heart_rate: vec![150, 162],
        enhanced_avg_speed: vec!["5:00".to_string(), "6:00".to_string()],
        avg_step_length: vec![1_052_300, 1_100_000],
    }
}

fn image() -> SizeRect {
    SizeRect { width: 2000, height: 1000 }
}

fn stroke(from: (i32, i32), to: (i32, i32), color: [u8; 4]) -> DrawOp {
    DrawOp::Line {
        from: PositionRect { x: from.0, y: from.1 },
        to: PositionRect { x: to.0, y: to.1 },
        color,
        thickness: 4,
        line_type: 16,
    }
}

fn marker(at: (i32, i32), color: [u8; 4]) -> DrawOp {
    DrawOp::Disc { center: PositionRect { x: at.0, y: at.1 }, radius: 8, color, line_type: 16 }
}

fn text(text: &str, x: i32, y: i32, scale: i32, thickness: i32, font: Font) -> DrawOp {
    DrawOp::Text {
        text: text.to_string(),
        origin: PositionRect { x, y },
        font,
        font_scale: scale,
        color: WHITE,
        thickness,
        line_type: 16,
    }
}

fn bar(y: i32, width: i32, height: i32) -> DrawOp {
    DrawOp::FilledRect {
        rect: Rect { pos: PositionRect { x: 0, y }, size: SizeRect { width, height } },
        color: [0, 0, 0, 0],
        line_type: 16,
    }
}

#[test]
fn compositor_goes_through_its_phases() {
    let points = vec![
        PositionRect { x: 1, y: 1 },
        PositionRect { x: 2, y: 2 },
        PositionRect { x: 3, y: 3 },
    ];
    let mut compositor = FrameCompositor::new(Drawer::new(100, 100), points, RED, GREEN, true);
    assert_eq!(compositor.due(), None);
    compositor.initialize();
    assert_eq!(compositor.due(), None);
    compositor.begin();
    assert_eq!(compositor.due(), Some(0));

    let first = compositor.next_frame().unwrap();
    assert_eq!(first.base, 0);
    assert_eq!(first.overlay.ops, vec![marker((1, 1), GREEN)]);
    assert_eq!(compositor.canvas().len(), 0);
    assert_eq!(compositor.due(), Some(1));

    let second = compositor.next_frame().unwrap();
    assert_eq!(second.base, 1);
    assert_eq!(second.overlay.ops, vec![marker((2, 2), GREEN)]);
    assert_eq!(compositor.canvas().ops, vec![stroke((1, 1), (2, 2), RED)]);

    let third = compositor.next_frame().unwrap();
    assert_eq!(third.base, 2);
    assert_eq!(third.overlay.ops, vec![marker((3, 3), GREEN)]);
    assert_eq!(compositor.due(), None);

    assert_eq!(compositor.next_frame(), None);
    assert_eq!(compositor.due(), None);
    assert_eq!(
        compositor.into_canvas().ops,
        vec![stroke((1, 1), (2, 2), RED), stroke((2, 2), (3, 3), RED)]
    );
}

#[test]
fn compositor_of_no_points_emits_nothing() {
    let mut compositor = FrameCompositor::new(Drawer::new(100, 100), Vec::new(), RED, GREEN, true);
    compositor.initialize();
    compositor.begin();
    assert_eq!(compositor.due(), None);
    assert_eq!(compositor.next_frame(), None);
    assert_eq!(compositor.into_canvas().len(), 0);
}

#[test]
fn compositor_without_route_paints_nothing() {
    let points = vec![PositionRect { x: 1, y: 1 }, PositionRect { x: 2, y: 2 }];
    let mut compositor = FrameCompositor::new(Drawer::new(100, 100), points, RED, GREEN, false);
    compositor.initialize();
    compositor.begin();
    let first = compositor.next_frame().unwrap();
    let second = compositor.next_frame().unwrap();
    assert_eq!(first.base, 0);
    assert_eq!(second.base, 0);
    assert_eq!(first.overlay.len(), 0);
    assert_eq!(second.overlay.len(), 0);
    assert_eq!(compositor.next_frame(), None);
    assert_eq!(compositor.into_canvas().len(), 0);
}

#[test]
fn video_has_a_frame_for_each_point() {
    let config = RouteVideoConfig::default();
    let lap_sizes = vec![SizeRect { width: 40, height: 12 }; 2];
    let dist_sizes = vec![SizeRect { width: 150, height: 20 }; 4];
    let plan = progressive_route_with_config(
        &config,
        &route(),
        &laps(),
        image(),
        &lap_sizes,
        &dist_sizes,
    )
    .unwrap();
    assert_eq!(plan.canvas, CanvasSpec { width: 1080, height: 540 });
    assert_eq!(plan.fps, 0);
    assert_eq!(plan.frames.len(), 4);
    // header and two rows of four under every frame, then one stroke more each
    let ground: usize = 4 + 2 * 4;
    for (k, frame) in plan.frames.iter().enumerate() {
        assert_eq!(frame.base, ground + k);
        let under = &plan.buffer.ops[..frame.base];
        let strokes = under.iter().filter(|op| matches!(op, DrawOp::Line { .. })).count();
        assert_eq!(strokes, k);
    }
    assert_eq!(plan.buffer.len(), ground + 3);
    // the route: offsets 0.1, scale 0.2, width 1080
    assert_eq!(
        plan.buffer.ops[ground..],
        [
            stroke((108, 324), (216, 216), RED),
            stroke((216, 216), (324, 108), RED),
            stroke((324, 108), (324, 216), RED),
        ]
    );
    // the panel is anchored at half the width and 9% of the height
    assert_eq!(
        plan.buffer.ops[4],
        text("1   5:00", 520, 48, 500_000, 1, Font::Simplex)
    );
    // frames 0 to 2 have a pace and a distance, frame 3 has no distance
    assert_eq!(
        plan.frames[1].overlay.ops,
        vec![
            marker((216, 216), GREEN),
            bar(490, 1080, 50),
            text("Pace: 5:10 min/km", 20, 520, 500_000, 1, Font::Simplex),
            text("Dist: 1.25 km", 910, 520, 500_000, 1, Font::Simplex),
        ]
    );
    assert_eq!(plan.frames[2].overlay.len(), 4);
    assert_eq!(plan.frames[3].overlay.ops, vec![marker((324, 216), GREEN)]);
}

#[test]
fn video_frame_rate_for_a_long_track() {
    let mut config = RouteVideoConfig::minimalist();
    config.show_lap_data = false;
    let mut track = RouteData { paces: Vec::new(), gps_points: Vec::new(), distances: Vec::new() };
    let mut i: i32 = 0;
    while i < 500 {
        track.gps_points.push((i * 3, i * i));
        track.paces.push("5:00".to_string());
        track.distances.push(i as i64 * 10_000);
        i += 1;
    }
    let dist_sizes = vec![SizeRect { width: 0, height: 20 }; 500];
    let plan = progressive_route_with_config(
        &config,
        &track,
        &laps(),
        image(),
        &Vec::new(),
        &dist_sizes,
    )
    .unwrap();
    assert_eq!(plan.fps, 33);
    assert_eq!(plan.frames.len(), 500);
    assert_eq!(plan.buffer.len(), 499);
    assert_eq!(plan.frames[0].base, 0);
    assert_eq!(plan.frames[499].base, 499);
    // pace only: the distance text is empty, the strip keeps its place
    assert_eq!(
        plan.frames[7].overlay.ops[1..],
        [
            bar(490, 1080, 50),
            text("Pace: 5:00 min/km", 20, 520, 500_000, 1, Font::Simplex),
            text("", 1060, 520, 500_000, 1, Font::Simplex),
        ]
    );
}

#[test]
fn video_flags_switch_the_parts_off() {
    let mut config = RouteVideoConfig::default();
    config.show_route = false;
    config.show_lap_data = false;
    config.show_bottom_bar = false;
    let dist_sizes = vec![SizeRect { width: 150, height: 20 }; 4];
    let plan = progressive_route_with_config(
        &config,
        &route(),
        &laps(),
        image(),
        &Vec::new(),
        &dist_sizes,
    )
    .unwrap();
    assert_eq!(plan.frames.len(), 4);
    assert_eq!(plan.buffer.len(), 0);
    for frame in plan.frames.iter() {
        assert_eq!(frame.base, 0);
        assert_eq!(frame.overlay.len(), 0);
    }

    let mut config = RouteVideoConfig::default();
    config.pace_dist.show_pace = false;
    config.pace_dist.show_distance = false;
    let lap_sizes = vec![SizeRect { width: 40, height: 12 }; 2];
    let plan = progressive_route_with_config(
        &config,
        &route(),
        &laps(),
        image(),
        &lap_sizes,
        &dist_sizes,
    )
    .unwrap();
    for frame in plan.frames.iter() {
        assert_eq!(frame.overlay.len(), 1);
    }
}

#[test]
fn video_of_an_empty_track_is_refused() {
    let config = RouteVideoConfig::default();
    let empty = RouteData { paces: Vec::new(), gps_points: Vec::new(), distances: Vec::new() };
    let lap_sizes = vec![SizeRect { width: 40, height: 12 }; 2];
    let plan = progressive_route_with_config(
        &config,
        &empty,
        &laps(),
        image(),
        &lap_sizes,
        &Vec::new(),
    );
    assert_eq!(plan.err(), Some(InputError::EmptyTrack));
    let plan = progressive_route(200_000, 100_000, 100_000, &empty, &laps(), image(), &lap_sizes, &Vec::new());
    assert_eq!(plan.err(), Some(InputError::EmptyTrack));
}

#[test]
fn video_on_an_empty_image_is_refused() {
    let config = RouteVideoConfig::default();
    let lap_sizes = vec![SizeRect { width: 40, height: 12 }; 2];
    let dist_sizes = vec![SizeRect { width: 150, height: 20 }; 4];
    let plan = progressive_route_with_config(
        &config,
        &route(),
        &laps(),
        SizeRect { width: 0, height: 0 },
        &lap_sizes,
        &dist_sizes,
    );
    assert_eq!(plan.err(), Some(InputError::EmptyImage));
}

#[test]
fn plain_video() {
    let lap_sizes = vec![SizeRect { width: 40, height: 12 }; 2];
    let dist_sizes = vec![SizeRect { width: 150, height: 20 }; 4];
    let plan = progressive_route(
        400_000,
        300_000,
        300_000,
        &route(),
        &laps(),
        image(),
        &lap_sizes,
        &dist_sizes,
    )
    .unwrap();
    assert_eq!(plan.frames.len(), 4);
    // the panel is anchored at half the width, a hundred pixels down
    assert_eq!(plan.buffer.ops[0], DrawOp::Text {
        text: "KM   PACE".to_string(),
        origin: PositionRect { x: 520, y: 80 },
        font: Font::Simplex,
        font_scale: 500_000,
        color: [255, 255, 0, 0],
        thickness: 1,
        line_type: 16,
    });
    assert_eq!(plan.buffer.ops[4], text("1   5:00", 520, 100, 500_000, 1, Font::Simplex));
    assert_eq!(plan.buffer.ops[8], text("2   6:00", 520, 117, 500_000, 1, Font::Simplex));
    assert_eq!(plan.buffer.ops[12], stroke((324, 756), (540, 540), RED));
    assert_eq!(
        plan.frames[0].overlay.ops,
        vec![
            marker((324, 756), GREEN),
            bar(490, 1080, 50),
            text("Pace: 5:00 min/km", 20, 520, 800_000, 2, Font::Simplex),
            text("Dist: 0.00 km", 910, 520, 800_000, 2, Font::Simplex),
        ]
    );
}

#[test]
fn running_video_has_its_panel_higher() {
    let lap_sizes = vec![SizeRect { width: 40, height: 12 }; 2];
    let dist_sizes = vec![SizeRect { width: 150, height: 20 }; 4];
    let plan = generate_running_route_video(
        200_000,
        100_000,
        100_000,
        &route(),
        &laps(),
        image(),
        &lap_sizes,
        &dist_sizes,
    )
    .unwrap();
    assert_eq!(plan.frames.len(), 4);
    // the laps are numbered from one; the anchor is fifty pixels down
    assert_eq!(plan.buffer.ops[4], text("1   5:00", 520, 50, 500_000, 1, Font::Simplex));
    assert_eq!(plan.buffer.ops[8], text("2   6:00", 520, 67, 500_000, 1, Font::Simplex));
    assert_eq!(plan.buffer.len(), 12 + 3);
}

#[test]
fn strip_texts_of_a_frame() {
    let both = Some(StripStyle {
        font_scale: 500_000,
        thickness: 1,
        font: Font::Simplex,
        show_pace: true,
        show_distance: true,
    });
    assert_eq!(
        strip_texts(&both, &route(), 2),
        Some(("Pace: 5:20 min/km".to_string(), "Dist: 2.50 km".to_string()))
    );
    // no distance for the last sample
    assert_eq!(strip_texts(&both, &route(), 3), None);
    assert_eq!(strip_texts(&both, &route(), 4), None);
    assert_eq!(strip_texts(&None, &route(), 0), None);
    let pace_only = Some(StripStyle {
        font_scale: 500_000,
        thickness: 1,
        font: Font::Simplex,
        show_pace: true,
        show_distance: false,
    });
    assert_eq!(
        strip_texts(&pace_only, &route(), 0),
        Some(("Pace: 5:00 min/km".to_string(), String::new()))
    );
    let neither = Some(StripStyle {
        font_scale: 500_000,
        thickness: 1,
        font: Font::Simplex,
        show_pace: false,
        show_distance: false,
    });
    assert_eq!(strip_texts(&neither, &route(), 0), None);
}

#[test]
fn scale_presets_shape_the_route() {
    let mut config = RouteVideoConfig::detailed();
    config.show_lap_data = false;
    config.show_bottom_bar = false;
    assert_eq!(config.route_scale, RouteScale::large());
    let dist_sizes = vec![SizeRect { width: 0, height: 0 }; 4];
    let plan = progressive_route_with_config(
        &config,
        &route(),
        &laps(),
        image(),
        &Vec::new(),
        &dist_sizes,
    )
    .unwrap();
    // offsets 0.15, scale 0.7, width 1080
    assert_eq!(plan.buffer.ops[0], stroke((162, 918), (540, 540), Color::Red.to_bgra()));
    assert_eq!(plan.frames[0].overlay.ops, vec![marker((162, 918), GREEN)]);
    assert_eq!(plan.frames[0].base, 0);
    assert_eq!(Phase::Accumulating(1), Phase::Accumulating(1));
}
