//! The single route image: the lap panel, if one is asked for, and on top
//! the whole route as one chain of strokes.

use vstd::prelude::*;

use super::lap_panel::{lap_panel, panel_ops, PanelStyle};
use super::route_video::{drawer_of, ground_ops, MAX_SIDE};
use crate::configs::config::{Color, RouteColor, RouteScale};
use crate::configs::image_config::RouteImageConfig;
use crate::configs::video_config::LapDataConfig;
use crate::types::drawer_data::{Canvas, CanvasSpec, PositionRect, Primitive, SizeRect};
use crate::types::error::InputError;
use crate::types::fit_data::{LapData, LapView, RouteData};
use crate::utils::canvas::{anchor_at, fitted, panel_anchor};
use crate::utils::element_drawer::Drawer;
use crate::utils::projector::{project_route, route_pixels};

verus! {

/// Stroke thickness of the header of the panel on an image.
pub const IMAGE_HEADER_THICKNESS: i32 = 2;

/// Stroke thickness of the route on an image with nothing configured.
pub const PLAIN_LINE_THICKNESS: i32 = 2;

/// What a route image is made of.
#[derive(Debug)]
pub struct ImagePlan {
    /// The extent of the image.
    pub canvas: CanvasSpec,
    /// What is painted on the background, in this order.
    pub image: Canvas,
}

/// The style of the lap panel that an image configuration asks for; the
/// header is bold.
pub open spec fn image_panel_style(
    panel: LapDataConfig,
    colors: RouteColor,
    canvas: CanvasSpec,
) -> PanelStyle {
    PanelStyle {
        anchor: anchor_at(panel.position, canvas),
        font_scale: panel.font_scale,
        thickness: panel.thickness,
        header_thickness: IMAGE_HEADER_THICKNESS,
        font: panel.font,
        text_color: panel.text_color.bgra(),
        bar_color: colors.lap_bars,
        bar_max_width: panel.bar_max_width,
        show_heart_rate: panel.show_heart_rate,
        show_stride_length: panel.show_stride_length,
        show_pace_bars: panel.show_pace_bars,
    }
}

/// The style of the lap panel of an image, if it has one.
pub open spec fn image_panel(config: RouteImageConfig, canvas: CanvasSpec) -> Option<PanelStyle> {
    match config.lap_data {
        Some(panel) => Some(image_panel_style(panel, config.colors, canvas)),
        None => None,
    }
}

/// Whether `plan` is the image of the track `points` over a background
/// image of the extent `image`: on the canvas fitted to the greatest side,
/// the panel if there is one, then the route as one open chain of strokes
/// through the projected points.
pub open spec fn is_image_plan(
    plan: ImagePlan,
    panel: Option<PanelStyle>,
    color: [u8; 4],
    thickness: i32,
    scale: RouteScale,
    image: SizeRect,
    points: Seq<(i32, i32)>,
    laps: LapView,
    lap_sizes: Seq<SizeRect>,
) -> bool {
    let canvas = fitted(image, MAX_SIDE as int);
    &&& plan.canvas == canvas
    &&& plan.image@ == ground_ops(drawer_of(canvas), panel, laps, lap_sizes).push(
        drawer_of(canvas).polyline_op(
            route_pixels(points, image, scale, MAX_SIDE as int),
            color@,
            thickness as int,
        ),
    )
}

/// Composes the image of the track with the pixels `pixels`.
fn compose_image(
    drawer: Drawer,
    pixels: Vec<PositionRect>,
    panel: &Option<PanelStyle>,
    color: [u8; 4],
    thickness: i32,
    lap: &LapData,
    lap_sizes: &Vec<SizeRect>,
) -> (image: Canvas)
    requires
        panel is Some ==> lap@.wf() && lap_sizes.len() == lap@.len(),
    ensures
        image@ == ground_ops(drawer, *panel, lap@, lap_sizes@).push(
            drawer.polyline_op(pixels@, color@, thickness as int),
        ),
{
    let mut image = Canvas::new();
    match panel {
        Some(style) => {
            lap_panel(&drawer, &mut image, style, lap, lap_sizes);
        },
        None => {},
    }
    assert(image@ =~= ground_ops(drawer, *panel, lap@, lap_sizes@));
    drawer.polyline(&mut image, pixels, color, thickness);
    image
}

/// Plans the image of a route with everything configured.
///
/// `image` is the extent of the background image; `lap_sizes` holds, lap by
/// lap, the measured extent of the lap's bare pace label at the panel's font
/// settings, and is not read where no panel is asked for.
///
/// A track without points is refused before anything is projected; after
/// that, a background image without pixels.
pub fn image_route_with_config(
    config: &RouteImageConfig,
    route: &RouteData,
    lap: &LapData,
    image: SizeRect,
    lap_sizes: &Vec<SizeRect>,
) -> (plan: Result<ImagePlan, InputError>)
    requires
        config.lap_data is Some ==> lap@.wf() && lap_sizes.len() == lap@.len(),
    ensures
        route.gps_points.len() == 0 ==> plan is Err && plan->Err_0 == InputError::EmptyTrack,
        route.gps_points.len() > 0 && (image.width <= 0 || image.height <= 0) ==> plan is Err
            && plan->Err_0 == InputError::EmptyImage,
        route.gps_points.len() > 0 && image.width > 0 && image.height > 0 ==> plan is Ok
            && is_image_plan(
            plan->Ok_0,
            image_panel(*config, fitted(image, MAX_SIDE as int)),
            config.colors.route_line,
            config.line_thickness,
            config.route_scale,
            image,
            route.gps_points@,
            lap@,
            lap_sizes@,
        ),
{
    match project_route(&route.gps_points, image, &config.route_scale, MAX_SIDE) {
        Ok((canvas, pixels)) => {
            let panel: Option<PanelStyle> = match &config.lap_data {
                Some(settings) => Some(
                    PanelStyle {
                        anchor: panel_anchor(settings.position, canvas),
                        font_scale: settings.font_scale,
                        thickness: settings.thickness,
                        header_thickness: IMAGE_HEADER_THICKNESS,
                        font: settings.font,
                        text_color: settings.text_color.to_bgra(),
                        bar_color: config.colors.lap_bars,
                        bar_max_width: settings.bar_max_width,
                        show_heart_rate: settings.show_heart_rate,
                        show_stride_length: settings.show_stride_length,
                        show_pace_bars: settings.show_pace_bars,
                                    },
                ),
                None => None,
            };
            let drawer = Drawer::new(canvas.width, canvas.height);
            let picture = compose_image(
                drawer,
                pixels,
                &panel,
                config.colors.route_line,
                config.line_thickness,
                lap,
                lap_sizes,
            );
            Ok(ImagePlan { canvas, image: picture })
        },
        Err(e) => Err(e),
    }
}

/// Plans the image of a route with nothing configured but the placement of
/// the route: its scale and its offsets, in millionths of the canvas width.
/// The route is red and two pixels thick; there is no panel.
pub fn route_image(
    route_scale: i32,
    offset_x_percent: i32,
    offset_y_percent: i32,
    route: &RouteData,
    image: SizeRect,
) -> (plan: Result<ImagePlan, InputError>)
    ensures
        route.gps_points.len() == 0 ==> plan is Err && plan->Err_0 == InputError::EmptyTrack,
        route.gps_points.len() > 0 && (image.width <= 0 || image.height <= 0) ==> plan is Err
            && plan->Err_0 == InputError::EmptyImage,
        route.gps_points.len() > 0 && image.width > 0 && image.height > 0 ==> plan is Ok && {
            &&& plan->Ok_0.canvas == fitted(image, MAX_SIDE as int)
            &&& plan->Ok_0.image@ == seq![
                drawer_of(fitted(image, MAX_SIDE as int)).polyline_op(
                    route_pixels(
                        route.gps_points@,
                        image,
                        (RouteScale { scale: route_scale, offset_x_percent, offset_y_percent }),
                        MAX_SIDE as int,
                    ),
                    Color::Red.bgra()@,
                    PLAIN_LINE_THICKNESS as int,
                ),
            ]
        },
{
    let scale = RouteScale::new(route_scale, offset_x_percent, offset_y_percent);
    match project_route(&route.gps_points, image, &scale, MAX_SIDE) {
        Ok((canvas, pixels)) => {
            let drawer = Drawer::new(canvas.width, canvas.height);
            let mut picture = Canvas::new();
            drawer.polyline(&mut picture, pixels, Color::Red.to_bgra(), PLAIN_LINE_THICKNESS);
            assert(picture@ =~= seq![
                drawer.polyline_op(
                    route_pixels(route.gps_points@, image, scale, MAX_SIDE as int),
                    Color::Red.bgra()@,
                    PLAIN_LINE_THICKNESS as int,
                ),
            ]);
            Ok(ImagePlan { canvas, image: picture })
        },
        Err(e) => Err(e),
    }
}

} // verus!
