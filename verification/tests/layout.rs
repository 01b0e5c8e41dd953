use runarium::configs::config::{Color, Font};
use runarium::generators::lap_panel::{lap_panel, PanelStyle};
use runarium::types::drawer_data::{Canvas, DrawOp, PositionRect, Rect, SizeRect};
use runarium::types::fit_data::LapData;
use runarium::utils::element_drawer::Drawer;

const WHITE: [u8; 4] = [255, 255, 255, 0];
const GREEN: [u8; 4] = [0, 255, 0, 0];
const HEADER: [u8; 4] = [255, 255, 0, 0];

fn text(text: &str, x: i32, y: i32, scale: i32, thickness: i32, color: [u8; 4]) -> DrawOp {
    DrawOp::Text {
        text: text.to_string(),
        origin: PositionRect { x, y },
        font: Font::Simplex,
        font_scale: scale,
        color,
        thickness,
        line_type: 16,
    }
}

fn three_laps() -> LapData {
    LapData {
        avg_heart_rate: vec![150, 162, 98],
        enhanced_avg_speed: vec!["5:00".to_string(), "6:00".to_string(), "6:30".to_string()],
        avg_step_length: vec![1_052_300, 1_100_000, 998_000],
    }
}

fn style() -> PanelStyle {
    PanelStyle {
        anchor: PositionRect { x: 540, y: 54 },
        font_scale: 500_000,
        thickness: 1,
        header_thickness: 1,
        font: Font::Simplex,
        text_color: WHITE,
        bar_color: GREEN,
        bar_max_width: 200,
        show_heart_rate: true,
        show_stride_length: true,
        show_pace_bars: true,
    }
}

#[test]
fn drawer_is_anti_aliased() {
    let drawer = Drawer::new(1080, 607);
    assert_eq!(drawer.width, 1080);
    assert_eq!(drawer.height, 607);
    assert_eq!(drawer.line, 16);
}

#[test]
fn single_primitives() {
    let drawer = Drawer::new(1080, 607);
    let mut frame = Canvas::new();
    let a = PositionRect { x: 1, y: 2 };
    let b = PositionRect { x: 3, y: 4 };
    drawer.line(&mut frame, a, b, Color::Red.to_bgra());
    drawer.point(&mut frame, b, GREEN);
    drawer.rectangle(
        &mut frame,
        Rect { pos: a, size: SizeRect { width: 5, height: 6 } },
        WHITE,
    );
    drawer.text(&mut frame, "hello", 7, 8, 600_000, 2, Font::Italic, WHITE);
    drawer.polyline(&mut frame, vec![a, b, a], GREEN, 3);
    assert_eq!(frame.len(), 5);
    assert_eq!(
        frame.ops,
        vec![
            DrawOp::Line { from: a, to: b, color: [0, 0, 255, 0], thickness: 4, line_type: 16 },
            DrawOp::Disc { center: b, radius: 8, color: GREEN, line_type: 16 },
            DrawOp::FilledRect {
                rect: Rect { pos: a, size: SizeRect { width: 5, height: 6 } },
                color: WHITE,
                line_type: 16,
            },
            DrawOp::Text {
                text: "hello".to_string(),
                origin: PositionRect { x: 7, y: 8 },
                font: Font::Italic,
                font_scale: 600_000,
                color: WHITE,
                thickness: 2,
                line_type: 16,
            },
            DrawOp::Polyline { points: vec![a, b, a], color: GREEN, thickness: 3, line_type: 16 },
        ]
    );
}

#[test]
fn header_columns() {
    let drawer = Drawer::new(1080, 607);
    let mut frame = Canvas::new();
    drawer.header(&mut frame, 540, 100, 500_000, 1, Font::Simplex);
    assert_eq!(
        frame.ops,
        vec![
            text("KM   PACE", 520, 80, 500_000, 1, HEADER),
            text("BAR", 690, 80, 500_000, 1, HEADER),
            text("HR", 825, 80, 500_000, 1, HEADER),
            text("LENGTH", 860, 80, 500_000, 1, HEADER),
        ]
    );
}

#[test]
fn header_saturates() {
    let drawer = Drawer::new(1080, 607);
    let mut frame = Canvas::new();
    drawer.header(&mut frame, i32::MAX, i32::MIN, 500_000, 1, Font::Simplex);
    assert_eq!(
        frame.ops,
        vec![
            text("KM   PACE", i32::MAX - 20, i32::MIN, 500_000, 1, HEADER),
            text("BAR", i32::MAX, i32::MIN, 500_000, 1, HEADER),
            text("HR", i32::MAX, i32::MIN, 500_000, 1, HEADER),
            text("LENGTH", i32::MAX, i32::MIN, 500_000, 1, HEADER),
        ]
    );
}

#[test]
fn strip_layout() {
    let drawer = Drawer::new(1080, 607);
    let mut frame = Canvas::new();
    drawer.text_bar(
        &mut frame,
        "Pace: 5:30 min/km",
        "Dist: 1.25 km",
        SizeRect { width: 150, height: 20 },
        800_000,
        2,
        Font::Simplex,
    );
    assert_eq!(
        frame.ops,
        vec![
            DrawOp::FilledRect {
                rect: Rect {
                    pos: PositionRect { x: 0, y: 557 },
                    size: SizeRect { width: 1080, height: 50 },
                },
                color: [0, 0, 0, 0],
                line_type: 16,
            },
            text("Pace: 5:30 min/km", 20, 587, 800_000, 2, WHITE),
            text("Dist: 1.25 km", 910, 587, 800_000, 2, WHITE),
        ]
    );
}

#[test]
fn strip_keeps_its_place_without_texts() {
    let drawer = Drawer::new(640, 480);
    let mut frame = Canvas::new();
    drawer.text_bar(&mut frame, "", "", SizeRect { width: 0, height: 11 }, 500_000, 1, Font::Simplex);
    assert_eq!(
        frame.ops,
        vec![
            DrawOp::FilledRect {
                rect: Rect {
                    pos: PositionRect { x: 0, y: 439 },
                    size: SizeRect { width: 640, height: 41 },
                },
                color: [0, 0, 0, 0],
                line_type: 16,
            },
            text("", 20, 460, 500_000, 1, WHITE),
            text("", 620, 460, 500_000, 1, WHITE),
        ]
    );
}

#[test]
fn panel_rows() {
    let drawer = Drawer::new(1080, 607);
    let mut frame = Canvas::new();
    let sizes = vec![
        SizeRect { width: 40, height: 12 },
        SizeRect { width: 41, height: 12 },
        SizeRect { width: 38, height: 13 },
    ];
    lap_panel(&drawer, &mut frame, &style(), &three_laps(), &sizes);
    let bar = |x: i32, y: i32, width: i32, height: i32| DrawOp::FilledRect {
        rect: Rect { pos: PositionRect { x, y }, size: SizeRect { width, height } },
        color: GREEN,
        line_type: 16,
    };
    assert_eq!(
        frame.ops,
        vec![
            text("KM   PACE", 520, 34, 500_000, 1, HEADER),
            text("BAR", 690, 34, 500_000, 1, HEADER),
            text("HR", 825, 34, 500_000, 1, HEADER),
            text("LENGTH", 860, 34, 500_000, 1, HEADER),
            // row 0: centred on 540, at the anchor's height
            text("1   5:00", 520, 54, 500_000, 1, WHITE),
            text("150", 820, 54, 500_000, 1, WHITE),
            text("105.23", 870, 54, 500_000, 1, WHITE),
            bar(620, 42, 200, 12),
            // row 1: 41 / 2 rounds to 20; one row height and five pixels down
            text("2   6:00", 520, 71, 500_000, 1, WHITE),
            text("162", 820, 71, 500_000, 1, WHITE),
            text("110", 870, 71, 500_000, 1, WHITE),
            bar(621, 59, 166, 12),
            // row 2: its own height counts twice
            text("3   6:30", 521, 90, 500_000, 1, WHITE),
            text("98", 821, 90, 500_000, 1, WHITE),
            text("99.8", 871, 90, 500_000, 1, WHITE),
            bar(619, 77, 153, 13),
        ]
    );
}

#[test]
fn panel_columns_can_be_left_out() {
    let drawer = Drawer::new(1080, 607);
    let sizes = vec![SizeRect { width: 40, height: 12 }; 3];
    let mut bare = style();
    bare.show_heart_rate = false;
    bare.show_stride_length = false;
    bare.show_pace_bars = false;
    bare.header_thickness = 2;
    let mut frame = Canvas::new();
    lap_panel(&drawer, &mut frame, &bare, &three_laps(), &sizes);
    assert_eq!(
        frame.ops,
        vec![
            text("KM   PACE", 520, 34, 500_000, 2, HEADER),
            text("BAR", 690, 34, 500_000, 2, HEADER),
            text("HR", 825, 34, 500_000, 2, HEADER),
            text("LENGTH", 860, 34, 500_000, 2, HEADER),
            text("1   5:00", 520, 54, 500_000, 1, WHITE),
            text("2   6:00", 520, 71, 500_000, 1, WHITE),
            text("3   6:30", 520, 88, 500_000, 1, WHITE),
        ]
    );

    let mut only_bars = bare;
    only_bars.show_pace_bars = true;
    only_bars.bar_max_width = 100;
    let mut frame = Canvas::new();
    lap_panel(&drawer, &mut frame, &only_bars, &three_laps(), &sizes);
    assert_eq!(frame.len(), 4 + 3 * 2);
    assert_eq!(
        frame.ops[9],
        DrawOp::FilledRect {
            rect: Rect {
                pos: PositionRect { x: 620, y: 76 },
                size: SizeRect { width: 76, height: 12 },
            },
            color: GREEN,
            line_type: 16,
        }
    );
}

#[test]
fn panel_without_laps_is_its_header() {
    let drawer = Drawer::new(1080, 607);
    let none = LapData {
        avg_heart_rate: Vec::new(),
        enhanced_avg_speed: Vec::new(),
        avg_step_length: Vec::new(),
    };
    let mut frame = Canvas::new();
    lap_panel(&drawer, &mut frame, &style(), &none, &Vec::new());
    assert_eq!(frame.len(), 4);
}

#[test]
fn panel_pads_the_numbers_of_ten_laps() {
    let drawer = Drawer::new(1080, 607);
    let laps = LapData {
        avg_heart_rate: vec![120; 10],
        enhanced_avg_speed: vec!["5:10".to_string(); 10],
        avg_step_length: vec![1_000_000; 10],
    };
    let sizes = vec![SizeRect { width: 40, height: 12 }; 10];
    let mut plain = style();
    plain.show_heart_rate = false;
    plain.show_stride_length = false;
    plain.show_pace_bars = false;
    let mut frame = Canvas::new();
    lap_panel(&drawer, &mut frame, &plain, &laps, &sizes);
    assert_eq!(frame.ops[4], text("1    5:10", 520, 54, 500_000, 1, WHITE));
    assert_eq!(frame.ops[12], text("9    5:10", 520, 54 + 8 * 17, 500_000, 1, WHITE));
    assert_eq!(frame.ops[13], text("10   5:10", 520, 54 + 9 * 17, 500_000, 1, WHITE));
}
