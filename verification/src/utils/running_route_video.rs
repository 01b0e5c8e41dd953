//! The barest route video: the route, the marker and a pace/distance strip,
//! no lap panel, everything fixed.
//!
//! The strip differs from `Drawer::text_bar` in two ways: its bar is as high
//! as the distance text measured at scale 0.8, while the texts are set, and
//! the distance text is placed, at scale 0.7; and its bar has plain edges.

use vstd::prelude::*;
use vstd::string::*;

use super::canvas::fitted;
use super::converter::frame_rate;
use super::element_drawer::{Drawer, STRIP_MARGIN, STRIP_PADDING};
use super::fixed::{clamp_i32, saturate};
use super::labels::{distance_caption, distance_text, pace_caption, pace_text};
use super::projector::{project_route, route_pixels};
use super::read_file::{fit_reader, route_of};
use crate::configs::config::{Color, Font, RouteScale};
use crate::generators::compositor::{
    marker_ops, strokes, strokes_after, Frame, FrameCompositor, Phase,
};
use crate::generators::route_video::{drawer_of, VideoPlan, MAX_SIDE};
use crate::types::drawer_data::{
    Canvas, DrawOp, PositionRect, Primitive, Rect, SizeRect,
};
use crate::types::error::InputError;
use crate::types::fit_data::{texts, FitMessage, RouteData, RouteView};

verus! {

/// The code of strokes with plain edges.
pub const LINE_8: i32 = 8;

/// Font scale of the strip's texts, in millionths.
pub const BARE_FONT_SCALE: i32 = 700_000;

/// Font scale at which the text is measured that the strip's bar is as high
/// as, in millionths.
pub const BARE_BAR_FONT_SCALE: i32 = 800_000;

/// Stroke thickness of the strip's texts.
pub const BARE_THICKNESS: i32 = 2;

/// The bar at the bottom of a canvas of the given extent, thirty pixels
/// higher than a text of the measured extent `text_size`.
pub open spec fn bottom_bar(text_size: SizeRect, height: int, width: int) -> Primitive {
    let top = clamp_i32(height - clamp_i32(text_size.height + STRIP_PADDING));
    Primitive::FilledRect {
        rect: Rect {
            pos: PositionRect { x: 0, y: top as i32 },
            size: SizeRect { width: width as i32, height: clamp_i32(height - top) as i32 },
        },
        color: Color::Black.bgra()@,
        line_type: LINE_8 as int,
    }
}

/// Paints the bar of the strip at the bottom of `current_frame`.
pub fn draw_rec(text_size: SizeRect, height: i32, width: i32, current_frame: &mut Canvas)
    ensures
        final(current_frame)@ == old(current_frame)@.push(
            bottom_bar(text_size, height as int, width as int),
        ),
{
    let bar_height: i32 = saturate(text_size.height as i128 + STRIP_PADDING as i128);
    let top: i32 = saturate(height as i128 - bar_height as i128);
    current_frame.paint(
        DrawOp::FilledRect {
            rect: Rect {
                pos: PositionRect { x: 0, y: top },
                size: SizeRect { width, height: saturate(height as i128 - top as i128) },
            },
            color: Color::Black.to_bgra(),
            line_type: LINE_8,
        },
    );
}

/// The paces, the positions and the distances that the decoded messages of
/// a recording hold; lap messages are passed over.
pub fn read_fit_file(messages: &Vec<FitMessage>) -> (track: (Vec<String>, Vec<(i32, i32)>, Vec<i64>))
    ensures
        texts(track.0@) == route_of(messages@).paces,
        track.1@ == route_of(messages@).gps_points,
        track.2@ == route_of(messages@).distances,
{
    let (route, _laps) = fit_reader(messages);
    (route.paces, route.gps_points, route.distances)
}

/// What frame `i` shows on the copy: the marker, then, where the track has a
/// pace and a distance for the frame, the bar, the pace text on the left
/// and the distance text on the right. `bar_sizes` and `dist_sizes` hold the
/// measured extent of the distance text at scale 0.8 and at scale 0.7.
pub open spec fn bare_overlay(
    drawer: Drawer,
    point: PositionRect,
    route: RouteView,
    bar_sizes: Seq<SizeRect>,
    dist_sizes: Seq<SizeRect>,
    i: int,
) -> Seq<Primitive> {
    marker_ops(drawer, point, Color::Green.bgra()@, true) + (if i < route.paces.len() && i
        < route.distances.len() {
        seq![
            bottom_bar(bar_sizes[i], drawer.height as int, drawer.width as int),
            drawer.text_op(
                pace_caption(route.paces[i]),
                STRIP_MARGIN as int,
                clamp_i32(drawer.height - STRIP_MARGIN),
                BARE_FONT_SCALE as int,
                BARE_THICKNESS as int,
                Font::Simplex,
                Color::White.bgra()@,
            ),
            drawer.text_op(
                distance_caption(route.distances[i] as int),
                clamp_i32(drawer.width - dist_sizes[i].width - STRIP_MARGIN),
                clamp_i32(drawer.height - STRIP_MARGIN),
                BARE_FONT_SCALE as int,
                BARE_THICKNESS as int,
                Font::Simplex,
                Color::White.bgra()@,
            ),
        ]
    } else {
        Seq::<Primitive>::empty()
    })
}

/// The placement of the route.
pub open spec fn bare_scale() -> RouteScale {
    RouteScale { scale: 200_000, offset_x_percent: 100_000, offset_y_percent: 100_000 }
}

/// Whether `plan` is the bare video of the track `route` over a background
/// image of the extent `image`: one frame per point; under frame `k` the
/// first `k` strokes and nothing else; on its copy what `bare_overlay`
/// says; in the end every stroke on the buffer.
pub open spec fn is_bare_video(
    plan: VideoPlan,
    image: SizeRect,
    route: RouteView,
    bar_sizes: Seq<SizeRect>,
    dist_sizes: Seq<SizeRect>,
) -> bool {
    let canvas = fitted(image, MAX_SIDE as int);
    let drawer = drawer_of(canvas);
    let pixels = route_pixels(route.gps_points, image, bare_scale(), MAX_SIDE as int);
    &&& plan.canvas == canvas
    &&& plan.fps == route.gps_points.len() / 15
    &&& plan.frames@.len() == pixels.len()
    &&& plan.buffer@ == strokes(
        drawer,
        pixels,
        Color::Red.bgra()@,
        strokes_after(true, pixels.len()),
    )
    &&& forall|k: int|
        0 <= k < plan.frames@.len() ==> {
            &&& (#[trigger] plan.frames@[k]).base == strokes_after(true, (k + 1) as nat)
            &&& plan.frames@[k].overlay@ == bare_overlay(
                drawer,
                pixels[k],
                route,
                bar_sizes,
                dist_sizes,
                k,
            )
        }
}

/// Paints the strip of frame `i` on the frame's copy, if the track has a
/// pace and a distance for the frame.
fn paint_bare_strip(
    drawer: &Drawer,
    copy: &mut Canvas,
    route: &RouteData,
    bar_sizes: &Vec<SizeRect>,
    dist_sizes: &Vec<SizeRect>,
    Ghost(point): Ghost<PositionRect>,
    i: usize,
)
    requires
        i < bar_sizes.len(),
        i < dist_sizes.len(),
        old(copy)@ == marker_ops(*drawer, point, Color::Green.bgra()@, true),
    ensures
        final(copy)@ == bare_overlay(*drawer, point, route@, bar_sizes@, dist_sizes@, i as int),
{
    if i < route.paces.len() && i < route.distances.len() {
        assert(route@.paces[i as int] == route.paces[i as int]@);
        let pace = pace_text(route.paces[i].as_str());
        let dist = distance_text(route.distances[i]);
        let baseline: i32 = saturate(drawer.height as i128 - STRIP_MARGIN as i128);
        draw_rec(bar_sizes[i], drawer.height, drawer.width, copy);
        drawer.text(
            copy,
            pace.as_str(),
            STRIP_MARGIN,
            baseline,
            BARE_FONT_SCALE,
            BARE_THICKNESS,
            Font::Simplex,
            Color::White.to_bgra(),
        );
        let right: i32 = saturate(
            drawer.width as i128 - dist_sizes[i].width as i128 - STRIP_MARGIN as i128,
        );
        drawer.text(
            copy,
            dist.as_str(),
            right,
            baseline,
            BARE_FONT_SCALE,
            BARE_THICKNESS,
            Font::Simplex,
            Color::White.to_bgra(),
        );
    }
    assert(copy@ =~= bare_overlay(*drawer, point, route@, bar_sizes@, dist_sizes@, i as int));
}

/// Plans the bare video of a run: the route at scale 0.2 with offsets 0.1,
/// red strokes, a green marker, and a strip with pace and distance.
///
/// `image` is the extent of the background image; `bar_sizes` and
/// `dist_sizes` hold, frame by frame, the measured extent of the frame's
/// distance text in the plain sans-serif face at thickness 2, the first at
/// scale 0.8, the second at scale 0.7.
///
/// A track without points is refused before anything is projected; after
/// that, a background image without pixels.
pub fn generate_running_route_video(
    route: &RouteData,
    image: SizeRect,
    bar_sizes: &Vec<SizeRect>,
    dist_sizes: &Vec<SizeRect>,
) -> (plan: Result<VideoPlan, InputError>)
    requires
        bar_sizes.len() == route.gps_points.len(),
        dist_sizes.len() == route.gps_points.len(),
    ensures
        route.gps_points.len() == 0 ==> plan is Err && plan->Err_0 == InputError::EmptyTrack,
        route.gps_points.len() > 0 && (image.width <= 0 || image.height <= 0) ==> plan is Err
            && plan->Err_0 == InputError::EmptyImage,
        route.gps_points.len() > 0 && image.width > 0 && image.height > 0 ==> plan is Ok
            && is_bare_video(plan->Ok_0, image, route@, bar_sizes@, dist_sizes@),
{
    let scale = RouteScale::default();
    match project_route(&route.gps_points, image, &scale, MAX_SIDE) {
        Ok((canvas, pixels)) => {
            let n: usize = pixels.len();
            let fps: usize = frame_rate(n);
            let drawer = Drawer::new(canvas.width, canvas.height);
            let ghost points = pixels@;
            let mut compositor = FrameCompositor::new(
                drawer,
                pixels,
                Color::Red.to_bgra(),
                Color::Green.to_bgra(),
                true,
            );
            compositor.initialize();
            compositor.begin();
            let mut frames: Vec<Frame> = Vec::new();
            let mut i: usize = 0;
            while i < n
                invariant
                    i <= n == points.len(),
                    bar_sizes.len() == n,
                    dist_sizes.len() == n,
                    compositor.wf(),
                    compositor.phase() == Phase::Accumulating(i),
                    compositor.ground() == Seq::<Primitive>::empty(),
                    compositor.drawer() == drawer,
                    compositor.points() == points,
                    compositor.route_color() == Color::Red.bgra()@,
                    compositor.marker_color() == Color::Green.bgra()@,
                    compositor.show_route(),
                    frames.len() == i,
                    forall|k: int|
                        0 <= k < i ==> {
                            &&& (#[trigger] frames[k]).base == strokes_after(true, (k + 1) as nat)
                            &&& frames[k].overlay@ == bare_overlay(
                                drawer,
                                points[k],
                                route@,
                                bar_sizes@,
                                dist_sizes@,
                                k,
                            )
                        },
                decreases n - i,
            {
                match compositor.next_frame() {
                    Some(frame) => {
                        let mut frame = frame;
                        let ghost point = points[i as int];
                        paint_bare_strip(
                            &drawer,
                            &mut frame.overlay,
                            route,
                            bar_sizes,
                            dist_sizes,
                            Ghost(point),
                            i,
                        );
                        frames.push(frame);
                    },
                    None => {},
                }
                i = i + 1;
            }
            let last = compositor.next_frame();
            proof {
                compositor.lemma_buffer();
            }
            Ok(VideoPlan { canvas, fps, buffer: compositor.into_canvas(), frames })
        },
        Err(e) => Err(e),
    }
}

} // verus!
