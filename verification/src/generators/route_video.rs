//! The animated route video: what is painted on the persistent buffer and
//! what each frame shows on top.

use vstd::prelude::*;
use vstd::string::*;

use super::compositor::{marker_ops, strokes, strokes_after, Frame, FrameCompositor, Phase};
use super::lap_panel::{panel_ops, PanelStyle};
use crate::configs::config::{Color, Font};
use crate::configs::video_config::RouteVideoConfig;
use crate::configs::RouteScale;
use crate::types::drawer_data::{Canvas, CanvasSpec, PositionRect, Primitive, SizeRect};
use crate::types::error::InputError;
use crate::types::fit_data::{LapData, LapView, RouteData, RouteView};
use crate::utils::canvas::{anchor_at, fitted, panel_anchor};
use crate::utils::converter::frame_rate;
use crate::utils::element_drawer::{Drawer, LINE_AA};
use crate::utils::fixed::{div_toward_zero, trunc_div};
use crate::utils::labels::{distance_caption, distance_text, pace_caption, pace_text};
use crate::utils::projector::{project_route, route_pixels};

verus! {

/// The longer side of the canvas, at most.
pub const MAX_SIDE: i32 = 1080;

/// How the pace/distance strips of a video are set.
#[derive(Debug, Clone, Copy, PartialEq, Eq, Structural)]
pub struct StripStyle {
    /// Font scale, in millionths.
    pub font_scale: i32,
    /// Stroke thickness of the texts.
    pub thickness: i32,
    /// Typeface of the texts.
    pub font: Font,
    /// Whether the pace is written.
    pub show_pace: bool,
    /// Whether the distance is written.
    pub show_distance: bool,
}

/// Everything that shapes the frames of a video, the canvas apart.
#[derive(Debug, Clone, Copy, PartialEq, Eq)]
pub struct VideoStyle {
    /// Colour of the route strokes.
    pub route_color: [u8; 4],
    /// Colour of the position marker.
    pub marker_color: [u8; 4],
    /// Whether the route and the marker are drawn.
    pub show_route: bool,
    /// The lap panel, if one is drawn.
    pub panel: Option<PanelStyle>,
    /// The strips, if any are drawn.
    pub strips: Option<StripStyle>,
}

/// What a route video is made of.
#[derive(Debug)]
pub struct VideoPlan {
    /// The extent of every frame.
    pub canvas: CanvasSpec,
    /// Frames per second.
    pub fps: usize,
    /// The persistent buffer after the last frame.
    pub buffer: Canvas,
    /// The frames, in the order in which they are shown.
    pub frames: Vec<Frame>,
}

/// The pace/distance strip of one frame.
pub struct Strip {
    /// The pace text; empty where the pace is not shown.
    pub pace: Seq<char>,
    /// The distance text; empty where the distance is not shown.
    pub dist: Seq<char>,
    /// The measured extent of the distance text.
    pub dist_size: SizeRect,
    /// Font scale, in millionths.
    pub font_scale: int,
    /// Stroke thickness of the texts.
    pub thickness: int,
    /// Typeface of the texts.
    pub font: Font,
}

/// Whether frame `i` of the track `route` has a strip: strips are drawn, the
/// track has a pace and a distance for the frame, and at least one of the
/// two is shown.
pub open spec fn has_strip(style: Option<StripStyle>, route: RouteView, i: int) -> bool {
    &&& style is Some
    &&& 0 <= i < route.paces.len()
    &&& i < route.distances.len()
    &&& (style->0.show_pace || style->0.show_distance)
}

/// The pace text of frame `i`; empty where the pace is not shown.
pub open spec fn strip_pace(style: StripStyle, route: RouteView, i: int) -> Seq<char> {
    if style.show_pace {
        pace_caption(route.paces[i])
    } else {
        Seq::<char>::empty()
    }
}

/// The distance text of frame `i`; empty where the distance is not shown.
pub open spec fn strip_dist(style: StripStyle, route: RouteView, i: int) -> Seq<char> {
    if style.show_distance {
        distance_caption(route.distances[i] as int)
    } else {
        Seq::<char>::empty()
    }
}

/// The strip of frame `i`, if it has one. `dist_sizes` holds, frame by
/// frame, the measured extent of the frame's distance text.
pub open spec fn strip_at(
    style: Option<StripStyle>,
    route: RouteView,
    dist_sizes: Seq<SizeRect>,
    i: int,
) -> Option<Strip> {
    if has_strip(style, route, i) {
        Some(
            Strip {
                pace: strip_pace(style->0, route, i),
                dist: strip_dist(style->0, route, i),
                dist_size: dist_sizes[i],
                font_scale: style->0.font_scale as int,
                thickness: style->0.thickness as int,
                font: style->0.font,
            },
        )
    } else {
        None
    }
}

/// The pace text and the distance text of the strip of frame `i`, if the
/// frame has a strip. The distance text is the one to measure.
pub fn strip_texts(style: &Option<StripStyle>, route: &RouteData, i: usize) -> (texts: Option<
    (String, String),
>)
    ensures
        texts is Some <==> has_strip(*style, route@, i as int),
        texts matches Some((pace, dist)) ==> {
            &&& pace@ == strip_pace(style->0, route@, i as int)
            &&& dist@ == strip_dist(style->0, route@, i as int)
        },
{
    match style {
        Some(st) => {
            if i < route.paces.len() && i < route.distances.len() && (st.show_pace
                || st.show_distance) {
                assert(route@.paces[i as int] == route.paces[i as int]@);
                let pace = if st.show_pace {
                    pace_text(route.paces[i].as_str())
                } else {
                    String::new()
                };
                let dist = if st.show_distance {
                    distance_text(route.distances[i])
                } else {
                    String::new()
                };
                Some((pace, dist))
            } else {
                None
            }
        },
        None => None,
    }
}

/// What a frame shows on the copy: the position marker where the route is
/// shown, then the strip if the frame has one.
pub open spec fn overlay_ops(
    drawer: Drawer,
    point: PositionRect,
    marker_color: Seq<u8>,
    show_route: bool,
    strip: Option<Strip>,
) -> Seq<Primitive> {
    marker_ops(drawer, point, marker_color, show_route) + (match strip {
        Some(s) => drawer.text_bar_ops(s.pace, s.dist, s.dist_size, s.font_scale, s.thickness, s.font),
        None => Seq::<Primitive>::empty(),
    })
}

/// Paints the strip of frame `i` on the frame's copy, if the frame has one.
fn paint_strip(
    drawer: &Drawer,
    copy: &mut Canvas,
    style: &Option<StripStyle>,
    route: &RouteData,
    dist_sizes: &Vec<SizeRect>,
    i: usize,
)
    requires
        i < dist_sizes.len(),
    ensures
        final(copy)@ == old(copy)@ + (match strip_at(*style, route@, dist_sizes@, i as int) {
            Some(s) => drawer.text_bar_ops(
                s.pace,
                s.dist,
                s.dist_size,
                s.font_scale,
                s.thickness,
                s.font,
            ),
            None => Seq::<Primitive>::empty(),
        }),
{
    match strip_texts(style, route, i) {
        Some((pace, dist)) => {
            match style {
                Some(st) => {
                    drawer.text_bar(
                        copy,
                        pace.as_str(),
                        dist.as_str(),
                        dist_sizes[i],
                        st.font_scale,
                        st.thickness,
                        st.font,
                    );
                },
                None => {},
            }
        },
        None => {
            assert(copy@ =~= old(copy)@ + Seq::<Primitive>::empty());
        },
    }
}

/// What is on the persistent buffer when the first frame is due: the lap
/// panel, if one is drawn.
pub open spec fn ground_ops(
    drawer: Drawer,
    panel: Option<PanelStyle>,
    laps: LapView,
    lap_sizes: Seq<SizeRect>,
) -> Seq<Primitive> {
    match panel {
        Some(style) => panel_ops(drawer, style, laps, lap_sizes),
        None => Seq::<Primitive>::empty(),
    }
}

/// Whether `buffer` and `frames` are the video of the track with the pixels
/// `pixels`:
///
/// * there is one frame per pixel, in the order of the pixels;
/// * frame `k` is taken from the buffer when it holds the ground and, where
///   the route is shown, the first `k` strokes, and nothing else;
/// * on the copy, frame `k` has the marker at pixel `k` where the route is
///   shown, and its strip if it has one;
/// * in the end the buffer holds the ground and every stroke.
pub open spec fn is_video(
    buffer: Seq<Primitive>,
    frames: Seq<Frame>,
    drawer: Drawer,
    pixels: Seq<PositionRect>,
    style: VideoStyle,
    ground: Seq<Primitive>,
    route: RouteView,
    dist_sizes: Seq<SizeRect>,
) -> bool {
    &&& frames.len() == pixels.len()
    &&& buffer == ground + strokes(
        drawer,
        pixels,
        style.route_color@,
        strokes_after(style.show_route, pixels.len()),
    )
    &&& forall|k: int|
        0 <= k < frames.len() ==> {
            &&& (#[trigger] frames[k]).base == ground.len() + strokes_after(
                style.show_route,
                (k + 1) as nat,
            )
            &&& frames[k].overlay@ == overlay_ops(
                drawer,
                pixels[k],
                style.marker_color@,
                style.show_route,
                strip_at(style.strips, route, dist_sizes, k),
            )
        }
}

/// A video of a track of `n` points has exactly `n` frames, and frame `K`,
/// counted from one, is a copy of the buffer as it stood with exactly
/// `K - 1` strokes over the ground, where the route is shown, and with none
/// where it is not. What a frame was copied from is never painted over: it
/// is what the buffer still begins with in the end.
pub proof fn lemma_frames_and_strokes(
    buffer: Seq<Primitive>,
    frames: Seq<Frame>,
    drawer: Drawer,
    pixels: Seq<PositionRect>,
    style: VideoStyle,
    ground: Seq<Primitive>,
    route: RouteView,
    dist_sizes: Seq<SizeRect>,
    k: int,
)
    requires
        is_video(buffer, frames, drawer, pixels, style, ground, route, dist_sizes),
        0 <= k < pixels.len(),
    ensures
        frames.len() == pixels.len(),
        frames[k].base == ground.len() + (if style.show_route {
            k
        } else {
            0
        }),
        frames[k].base <= buffer.len(),
        buffer.take(frames[k].base as int) == ground + strokes(
            drawer,
            pixels,
            style.route_color@,
            strokes_after(style.show_route, (k + 1) as nat),
        ),
{
    let all = strokes(
        drawer,
        pixels,
        style.route_color@,
        strokes_after(style.show_route, pixels.len()),
    );
    let some = strokes(
        drawer,
        pixels,
        style.route_color@,
        strokes_after(style.show_route, (k + 1) as nat),
    );
    assert(buffer.take(frames[k].base as int) =~= ground + some);
}

/// Composes the video of the track with the pixels `pixels`: runs a frame
/// compositor from `Idle` to `Finalized` and keeps what it emits.
pub fn compose_video(
    drawer: Drawer,
    pixels: Vec<PositionRect>,
    style: &VideoStyle,
    route: &RouteData,
    lap: &LapData,
    lap_sizes: &Vec<SizeRect>,
    dist_sizes: &Vec<SizeRect>,
) -> (video: (Canvas, Vec<Frame>))
    requires
        style.panel is Some ==> lap@.wf() && lap_sizes.len() == lap@.len(),
        dist_sizes.len() == pixels.len(),
    ensures
        is_video(
            video.0@,
            video.1@,
            drawer,
            pixels@,
            *style,
            ground_ops(drawer, style.panel, lap@, lap_sizes@),
            route@,
            dist_sizes@,
        ),
{
    let n: usize = pixels.len();
    let ghost points = pixels@;
    let ghost ground = ground_ops(drawer, style.panel, lap@, lap_sizes@);
    let mut compositor = FrameCompositor::new(
        drawer,
        pixels,
        style.route_color,
        style.marker_color,
        style.show_route,
    );
    compositor.initialize();
    match &style.panel {
        Some(panel) => {
            compositor.paint_panel(panel, lap, lap_sizes);
            assert(compositor.buffer() =~= ground);
        },
        None => {},
    }
    compositor.begin();
    let mut frames: Vec<Frame> = Vec::new();
    let mut i: usize = 0;
    while i < n
        invariant
            i <= n == points.len(),
            dist_sizes.len() == n,
            compositor.wf(),
            compositor.phase() == Phase::Accumulating(i),
            compositor.ground() == ground,
            compositor.drawer() == drawer,
            compositor.points() == points,
            compositor.route_color() == style.route_color@,
            compositor.marker_color() == style.marker_color@,
            compositor.show_route() == style.show_route,
            frames.len() == i,
            forall|k: int|
                0 <= k < i ==> {
                    &&& (#[trigger] frames[k]).base == ground.len() + strokes_after(
                        style.show_route,
                        (k + 1) as nat,
                    )
                    &&& frames[k].overlay@ == overlay_ops(
                        drawer,
                        points[k],
                        style.marker_color@,
                        style.show_route,
                        strip_at(style.strips, route@, dist_sizes@, k),
                    )
                },
        decreases n - i,
    {
        match compositor.next_frame() {
            Some(frame) => {
                let mut frame = frame;
                paint_strip(&drawer, &mut frame.overlay, &style.strips, route, dist_sizes, i);
                frames.push(frame);
            },
            None => {},
        }
        i = i + 1;
    }
    let last = compositor.next_frame();
    proof {
        compositor.lemma_buffer();
    }
    (compositor.into_canvas(), frames)
}

/// The style of the strips that `config` asks for, if it asks for any.
pub open spec fn config_strips(config: RouteVideoConfig) -> Option<StripStyle> {
    if config.show_bottom_bar {
        Some(
            StripStyle {
                font_scale: config.pace_dist.font_scale,
                thickness: config.pace_dist.thickness,
                font: config.pace_dist.font,
                show_pace: config.pace_dist.show_pace,
                show_distance: config.pace_dist.show_distance,
            },
        )
    } else {
        None
    }
}

/// The style of the strips that `config` asks for, if it asks for any.
pub fn strip_style(config: &RouteVideoConfig) -> (strips: Option<StripStyle>)
    ensures
        strips == config_strips(*config),
{
    if config.show_bottom_bar {
        Some(
            StripStyle {
                font_scale: config.pace_dist.font_scale,
                thickness: config.pace_dist.thickness,
                font: config.pace_dist.font,
                show_pace: config.pace_dist.show_pace,
                show_distance: config.pace_dist.show_distance,
            },
        )
    } else {
        None
    }
}

/// The style of the video that `config` asks for, on the canvas `canvas`.
pub open spec fn config_style(config: RouteVideoConfig, canvas: CanvasSpec) -> VideoStyle {
    VideoStyle {
        route_color: config.colors.route_line,
        marker_color: config.colors.current_position,
        show_route: config.show_route,
        panel: if config.show_lap_data {
            Some(
                PanelStyle {
                    anchor: anchor_at(config.lap_data.position, canvas),
                    font_scale: config.lap_data.font_scale,
                    thickness: config.lap_data.thickness,
                    header_thickness: config.lap_data.thickness,
                    font: config.lap_data.font,
                    text_color: config.lap_data.text_color.bgra(),
                    bar_color: config.colors.lap_bars,
                    bar_max_width: config.lap_data.bar_max_width,
                    show_heart_rate: config.lap_data.show_heart_rate,
                    show_stride_length: config.lap_data.show_stride_length,
                    show_pace_bars: config.lap_data.show_pace_bars,
                },
            )
        } else {
            None
        },
        strips: config_strips(config),
    }
}

/// The style of the video that `config` asks for, on the canvas `canvas`.
pub fn video_style(config: &RouteVideoConfig, canvas: CanvasSpec) -> (style: VideoStyle)
    ensures
        style == config_style(*config, canvas),
{
    VideoStyle {
        route_color: config.colors.route_line,
        marker_color: config.colors.current_position,
        show_route: config.show_route,
        panel: if config.show_lap_data {
            Some(
                PanelStyle {
                    anchor: panel_anchor(config.lap_data.position, canvas),
                    font_scale: config.lap_data.font_scale,
                    thickness: config.lap_data.thickness,
                    header_thickness: config.lap_data.thickness,
                    font: config.lap_data.font,
                    text_color: config.lap_data.text_color.to_bgra(),
                    bar_color: config.colors.lap_bars,
                    bar_max_width: config.lap_data.bar_max_width,
                    show_heart_rate: config.lap_data.show_heart_rate,
                    show_stride_length: config.lap_data.show_stride_length,
                    show_pace_bars: config.lap_data.show_pace_bars,
                },
            )
        } else {
            None
        },
        strips: strip_style(config),
    }
}

/// The strips of a video with nothing configured: bold, at scale 0.8, with
/// pace and distance.
pub open spec fn plain_strips() -> StripStyle {
    StripStyle {
        font_scale: 800_000,
        thickness: 2,
        font: Font::Simplex,
        show_pace: true,
        show_distance: true,
    }
}

/// The strips of a video with nothing configured.
pub fn plain_strip_style() -> (strips: StripStyle)
    ensures
        strips == plain_strips(),
{
    StripStyle {
        font_scale: 800_000,
        thickness: 2,
        font: Font::Simplex,
        show_pace: true,
        show_distance: true,
    }
}

/// The style of a video with nothing configured: red route, green marker
/// and bars, white text; the panel anchored at half the width and `top`
/// pixels from the top, with every column, thin text at scale 0.5 and bars
/// of up to 200 pixels; bold strips at scale 0.8 with pace and distance.
pub open spec fn plain_style(canvas: CanvasSpec, top: i32) -> VideoStyle {
    VideoStyle {
        route_color: Color::Red.bgra(),
        marker_color: Color::Green.bgra(),
        show_route: true,
        panel: Some(
            PanelStyle {
                anchor: PositionRect { x: trunc_div(canvas.width as int, 2) as i32, y: top },
                font_scale: 500_000,
                thickness: 1,
                header_thickness: 1,
                font: Font::Simplex,
                text_color: Color::White.bgra(),
                bar_color: Color::Green.bgra(),
                bar_max_width: 200,
                show_heart_rate: true,
                show_stride_length: true,
                show_pace_bars: true,
            },
        ),
        strips: Some(plain_strips()),
    }
}

/// The style of a video with nothing configured.
pub fn plain_video_style(canvas: CanvasSpec, top: i32) -> (style: VideoStyle)
    ensures
        style == plain_style(canvas, top),
{
    let half: i128 = div_toward_zero(canvas.width as i128, 2);
    VideoStyle {
        route_color: Color::Red.to_bgra(),
        marker_color: Color::Green.to_bgra(),
        show_route: true,
        panel: Some(
            PanelStyle {
                anchor: PositionRect { x: half as i32, y: top },
                font_scale: 500_000,
                thickness: 1,
                header_thickness: 1,
                font: Font::Simplex,
                text_color: Color::White.to_bgra(),
                bar_color: Color::Green.to_bgra(),
                bar_max_width: 200,
                show_heart_rate: true,
                show_stride_length: true,
                show_pace_bars: true,
            },
        ),
        strips: Some(plain_strip_style()),
    }
}

/// The drawer of a canvas.
pub open spec fn drawer_of(canvas: CanvasSpec) -> Drawer {
    Drawer { width: canvas.width, height: canvas.height, line: LINE_AA }
}

/// Whether `plan` is the video of the track `route` in the style `style`
/// over a background image of the extent `image`: the canvas is the image
/// fitted to the greatest side, the rate is a fifteenth of the number of
/// points, and buffer and frames are the video of the projected track.
pub open spec fn is_video_plan(
    plan: VideoPlan,
    style: VideoStyle,
    scale: RouteScale,
    image: SizeRect,
    route: RouteView,
    laps: LapView,
    lap_sizes: Seq<SizeRect>,
    dist_sizes: Seq<SizeRect>,
) -> bool {
    let canvas = fitted(image, MAX_SIDE as int);
    &&& plan.canvas == canvas
    &&& plan.fps == route.gps_points.len() / 15
    &&& is_video(
        plan.buffer@,
        plan.frames@,
        drawer_of(canvas),
        route_pixels(route.gps_points, image, scale, MAX_SIDE as int),
        style,
        ground_ops(drawer_of(canvas), style.panel, laps, lap_sizes),
        route,
        dist_sizes,
    )
}

/// Plans the animated video of a route with everything configured.
///
/// `image` is the extent of the background image; `lap_sizes` holds, lap by
/// lap, the measured extent of the lap's bare pace label at the panel's font
/// settings; `dist_sizes` holds, frame by frame, the measured extent of the
/// distance text of the frame's strip at the strip's font settings (see
/// `strip_texts`), and anything for a frame without a strip.
///
/// A track without points is refused before anything is projected; after
/// that, a background image without pixels.
pub fn progressive_route_with_config(
    config: &RouteVideoConfig,
    route: &RouteData,
    lap: &LapData,
    image: SizeRect,
    lap_sizes: &Vec<SizeRect>,
    dist_sizes: &Vec<SizeRect>,
) -> (plan: Result<VideoPlan, InputError>)
    requires
        config.show_lap_data ==> lap@.wf() && lap_sizes.len() == lap@.len(),
        dist_sizes.len() == route.gps_points.len(),
    ensures
        route.gps_points.len() == 0 ==> plan is Err && plan->Err_0 == InputError::EmptyTrack,
        route.gps_points.len() > 0 && (image.width <= 0 || image.height <= 0) ==> plan is Err
            && plan->Err_0 == InputError::EmptyImage,
        route.gps_points.len() > 0 && image.width > 0 && image.height > 0 ==> plan is Ok
            && is_video_plan(
            plan->Ok_0,
            config_style(*config, fitted(image, MAX_SIDE as int)),
            config.route_scale,
            image,
            route@,
            lap@,
            lap_sizes@,
            dist_sizes@,
        ),
{
    match project_route(&route.gps_points, image, &config.route_scale, MAX_SIDE) {
        Ok((canvas, pixels)) => {
            let style = video_style(config, canvas);
            let fps: usize = frame_rate(pixels.len());
            let drawer = Drawer::new(canvas.width, canvas.height);
            let (buffer, frames) = compose_video(
                drawer,
                pixels,
                &style,
                route,
                lap,
                lap_sizes,
                dist_sizes,
            );
            Ok(VideoPlan { canvas, fps, buffer, frames })
        },
        Err(e) => Err(e),
    }
}

/// The distance of the panel's anchor from the top of the canvas in a video
/// with nothing configured.
pub const PLAIN_PANEL_TOP: i32 = 100;

/// Plans the animated video of a route with nothing configured but the
/// placement of the route: its scale and its offsets, in millionths of the
/// canvas width.
///
/// `image`, `lap_sizes` and `dist_sizes` are as for
/// `progressive_route_with_config`; the panel's texts are thin, at scale
/// 0.5, the strips' bold, at scale 0.8.
pub fn progressive_route(
    route_scale: i32,
    offset_x_percent: i32,
    offset_y_percent: i32,
    route: &RouteData,
    lap: &LapData,
    image: SizeRect,
    lap_sizes: &Vec<SizeRect>,
    dist_sizes: &Vec<SizeRect>,
) -> (plan: Result<VideoPlan, InputError>)
    requires
        lap@.wf(),
        lap_sizes.len() == lap@.len(),
        dist_sizes.len() == route.gps_points.len(),
    ensures
        route.gps_points.len() == 0 ==> plan is Err && plan->Err_0 == InputError::EmptyTrack,
        route.gps_points.len() > 0 && (image.width <= 0 || image.height <= 0) ==> plan is Err
            && plan->Err_0 == InputError::EmptyImage,
        route.gps_points.len() > 0 && image.width > 0 && image.height > 0 ==> plan is Ok
            && is_video_plan(
            plan->Ok_0,
            plain_style(fitted(image, MAX_SIDE as int), PLAIN_PANEL_TOP),
            (RouteScale { scale: route_scale, offset_x_percent, offset_y_percent }),
            image,
            route@,
            lap@,
            lap_sizes@,
            dist_sizes@,
        ),
{
    let scale = RouteScale::new(route_scale, offset_x_percent, offset_y_percent);
    match project_route(&route.gps_points, image, &scale, MAX_SIDE) {
        Ok((canvas, pixels)) => {
            let style = plain_video_style(canvas, PLAIN_PANEL_TOP);
            let fps: usize = frame_rate(pixels.len());
            let drawer = Drawer::new(canvas.width, canvas.height);
            let (buffer, frames) = compose_video(
                drawer,
                pixels,
                &style,
                route,
                lap,
                lap_sizes,
                dist_sizes,
            );
            Ok(VideoPlan { canvas, fps, buffer, frames })
        },
        Err(e) => Err(e),
    }
}

} // verus!
