//! Projection of a track onto the canvas.
//!
//! Each coordinate is scaled linearly between the least and the greatest
//! value that the track takes on its axis, so that the track fills a square
//! whose side is `scale` times the canvas width and whose top-left corner is
//! at the offsets. North is up: the latitude axis is flipped. Both axes are
//! scaled by the canvas *width*.

use vstd::prelude::*;
use vstd::arithmetic::div_mod::{
    lemma_div_denominator, lemma_div_is_ordered, lemma_div_multiples_vanish,
};

use super::canvas::{fit_canvas, fitted};
use super::converter::{bounds_of, get_bounds, is_bounds_of};
use super::fixed::{clamp_i32, div_toward_zero, saturate, trunc_div};
use crate::configs::config::{RouteScale, MILLION};
use crate::types::drawer_data::{CanvasSpec, PositionRect, SizeRect};
use crate::types::error::InputError;

verus! {

/// Where `v` lies between `lo` and `hi`, as a fraction (numerator,
/// denominator): 0 at `lo`, 1 at `hi`. Where `lo` and `hi` are one value the
/// axis has no extent, and every `v` lies at one half.
pub open spec fn normalized(v: int, lo: int, hi: int) -> (int, int) {
    if hi != lo {
        (v - lo, hi - lo)
    } else {
        (1, 2)
    }
}

/// One minus the fraction `f`.
pub open spec fn complement(f: (int, int)) -> (int, int) {
    (f.1 - f.0, f.1)
}

/// The pixel coordinate of a point at the fraction `position` of its axis:
/// `(offset + position * scale) * width`, with offset and scale in
/// millionths, rounded towards zero and brought into the range of `i32`.
pub open spec fn project_axis(offset: int, scale: int, position: (int, int), width: int) -> int {
    clamp_i32(
        trunc_div(
            width * (offset * position.1 + position.0 * scale),
            MILLION * position.1,
        ),
    )
}

/// The pixel that the point `point`, a (latitude, longitude), has on a canvas
/// of width `width`, for a track with the bounding box `bounds`.
pub open spec fn projected(
    point: (i32, i32),
    bounds: ((i32, i32), (i32, i32)),
    scale: RouteScale,
    width: int,
) -> PositionRect {
    PositionRect {
        x: project_axis(
            scale.offset_x_percent as int,
            scale.scale as int,
            normalized(point.1 as int, bounds.1.0 as int, bounds.1.1 as int),
            width,
        ) as i32,
        y: project_axis(
            scale.offset_y_percent as int,
            scale.scale as int,
            complement(normalized(point.0 as int, bounds.0.0 as int, bounds.0.1 as int)),
            width,
        ) as i32,
    }
}

/// The pixels of the track `points`, point by point.
pub open spec fn projected_track(
    points: Seq<(i32, i32)>,
    bounds: ((i32, i32), (i32, i32)),
    scale: RouteScale,
    width: int,
) -> Seq<PositionRect> {
    Seq::new(points.len(), |i: int| projected(points[i], bounds, scale, width))
}

/// The pixel coordinate of a point at `numerator / denominator` of its axis.
fn axis_pixel(offset: i32, scale: i32, numerator: i64, denominator: i64, width: i32) -> (pixel: i32)
    requires
        -0x2_0000_0000 <= numerator <= 0x2_0000_0000,
        -0x1_0000_0000 <= denominator <= 0x1_0000_0000,
        denominator != 0,
    ensures
        pixel == project_axis(
            offset as int,
            scale as int,
            (numerator as int, denominator as int),
            width as int,
        ),
{
    assert(-0x8000_0000 * 0x1_0000_0000 <= offset * denominator <= 0x8000_0000 * 0x1_0000_0000)
        by (nonlinear_arith)
        requires
            -0x8000_0000 <= offset < 0x8000_0000,
            -0x1_0000_0000 <= denominator <= 0x1_0000_0000,
    ;
    assert(-0x2_0000_0000 * 0x8000_0000 <= numerator * scale <= 0x2_0000_0000 * 0x8000_0000)
        by (nonlinear_arith)
        requires
            -0x8000_0000 <= scale < 0x8000_0000,
            -0x2_0000_0000 <= numerator <= 0x2_0000_0000,
    ;
    let extent: i128 = (offset as i128) * (denominator as i128) + (numerator as i128) * (
    scale as i128);
    assert(-0x8000_0000 * 0x2_0000_0000_0000_0000 <= width * extent <= 0x8000_0000
        * 0x2_0000_0000_0000_0000) by (nonlinear_arith)
        requires
            -0x8000_0000 <= width < 0x8000_0000,
            -0x2_0000_0000_0000_0000 <= extent <= 0x2_0000_0000_0000_0000,
    ;
    let scaled: i128 = (width as i128) * extent;
    assert(MILLION * denominator == 1_000_000 * denominator);
    let unit: i128 = (MILLION as i128) * (denominator as i128);
    saturate(div_toward_zero(scaled, unit))
}

/// The pixel of the point at latitude `lat` and longitude `lon`, for a
/// track with the bounding box `bounds`, on a canvas of width `width`.
pub fn to_px(
    lat: i32,
    lon: i32,
    bounds: ((i32, i32), (i32, i32)),
    scale: &RouteScale,
    width: i32,
) -> (pixel: PositionRect)
    ensures
        pixel == projected((lat, lon), bounds, *scale, width as int),
{
    let ((lat_min, lat_max), (lon_min, lon_max)) = bounds;
    let x: i32 = if lon_max != lon_min {
        axis_pixel(
            scale.offset_x_percent,
            scale.scale,
            lon as i64 - lon_min as i64,
            lon_max as i64 - lon_min as i64,
            width,
        )
    } else {
        axis_pixel(scale.offset_x_percent, scale.scale, 1, 2, width)
    };
    let y: i32 = if lat_max != lat_min {
        let span: i64 = lat_max as i64 - lat_min as i64;
        axis_pixel(
            scale.offset_y_percent,
            scale.scale,
            span - (lat as i64 - lat_min as i64),
            span,
            width,
        )
    } else {
        axis_pixel(scale.offset_y_percent, scale.scale, 1, 2, width)
    };
    PositionRect { x, y }
}

/// The pixels of a track, in the order of its points.
pub fn project_track(
    points: &Vec<(i32, i32)>,
    bounds: ((i32, i32), (i32, i32)),
    scale: &RouteScale,
    width: i32,
) -> (pixels: Vec<PositionRect>)
    ensures
        pixels@ == projected_track(points@, bounds, *scale, width as int),
        pixels.len() == points.len(),
{
    let mut pixels: Vec<PositionRect> = Vec::new();
    let mut i: usize = 0;
    while i < points.len()
        invariant
            i <= points.len(),
            pixels.len() == i,
            forall|k: int|
                0 <= k < i ==> pixels[k] == projected(points[k], bounds, *scale, width as int),
        decreases points.len() - i,
    {
        let p: (i32, i32) = points[i];
        pixels.push(to_px(p.0, p.1, bounds, scale, width));
        i = i + 1;
    }
    assert(pixels@ =~= projected_track(points@, bounds, *scale, width as int));
    pixels
}

/// The pixels of the track `points` on the canvas fitted to a background
/// image of the extent `image`.
pub open spec fn route_pixels(
    points: Seq<(i32, i32)>,
    image: SizeRect,
    scale: RouteScale,
    max_dim: int,
) -> Seq<PositionRect> {
    projected_track(points, bounds_of(points), scale, fitted(image, max_dim).width as int)
}

/// The canvas for a background image of the extent `image`, and the pixels
/// of the track `points` on it.
///
/// A track without points is refused before anything is projected, an image
/// without pixels after that.
pub fn project_route(
    points: &Vec<(i32, i32)>,
    image: SizeRect,
    scale: &RouteScale,
    max_dim: i32,
) -> (projection: Result<(CanvasSpec, Vec<PositionRect>), InputError>)
    ensures
        points.len() == 0 ==> projection == Err::<(CanvasSpec, Vec<PositionRect>), InputError>(
            InputError::EmptyTrack,
        ),
        points.len() > 0 && (image.width <= 0 || image.height <= 0) ==> projection == Err::<
            (CanvasSpec, Vec<PositionRect>),
            InputError,
        >(InputError::EmptyImage),
        points.len() > 0 && image.width > 0 && image.height > 0 ==> {
            &&& projection is Ok
            &&& projection->Ok_0.0 == fitted(image, max_dim as int)
            &&& projection->Ok_0.1@ == route_pixels(points@, image, *scale, max_dim as int)
            &&& projection->Ok_0.1.len() == points.len()
        },
{
    match get_bounds(points) {
        Ok(bounds) => {
            match fit_canvas(image, max_dim) {
                Ok(canvas) => {
                    let pixels = project_track(points, bounds, scale, canvas.width);
                    Ok((canvas, pixels))
                },
                Err(e) => Err(e),
            }
        },
        Err(e) => Err(e),
    }
}

/// A track that keeps one latitude (or one longitude) is drawn on the
/// midline of that axis: with the bounding box of the track, each of its
/// points is projected as a point at one half of the axis is.
pub proof fn lemma_flat_track_on_midline(
    points: Seq<(i32, i32)>,
    bounds: ((i32, i32), (i32, i32)),
    scale: RouteScale,
    width: int,
    i: int,
)
    requires
        is_bounds_of(points, bounds),
        0 <= i < points.len(),
    ensures
        (forall|j: int| 0 <= j < points.len() ==> (#[trigger] points[j]).0 == points[i].0)
            ==> projected(points[i], bounds, scale, width).y == project_axis(
            scale.offset_y_percent as int,
            scale.scale as int,
            (1, 2),
            width,
        ) as i32,
        (forall|j: int| 0 <= j < points.len() ==> (#[trigger] points[j]).1 == points[i].1)
            ==> projected(points[i], bounds, scale, width).x == project_axis(
            scale.offset_x_percent as int,
            scale.scale as int,
            (1, 2),
            width,
        ) as i32,
{
    if forall|j: int| 0 <= j < points.len() ==> (#[trigger] points[j]).0 == points[i].0 {
        let lo = choose|k: int| 0 <= k < points.len() && (#[trigger] points[k]).0 == bounds.0.0;
        let hi = choose|k: int| 0 <= k < points.len() && (#[trigger] points[k]).0 == bounds.0.1;
        assert(points[lo].0 == points[i].0);
        assert(points[hi].0 == points[i].0);
    }
    if forall|j: int| 0 <= j < points.len() ==> (#[trigger] points[j]).1 == points[i].1 {
        let lo = choose|k: int| 0 <= k < points.len() && (#[trigger] points[k]).1 == bounds.1.0;
        let hi = choose|k: int| 0 <= k < points.len() && (#[trigger] points[k]).1 == bounds.1.1;
        assert(points[lo].1 == points[i].1);
        assert(points[hi].1 == points[i].1);
    }
}

/// The quotient `width * (offset * d + n * scale) / (1_000_000 * d)` lies
/// between those for `n = 0` and `n = d`, where nothing is negative.
proof fn lemma_axis_between(offset: int, scale: int, n: int, d: int, width: int)
    requires
        0 <= offset,
        0 <= scale,
        0 <= width,
        0 <= n <= d,
        0 < d,
    ensures
        trunc_div(width * (offset * 1 + 0 * scale), 1_000_000int * 1) <= trunc_div(
            width * (offset * d + n * scale),
            1_000_000 * d,
        ) <= trunc_div(width * (offset * 1 + 1 * scale), 1_000_000int * 1),
{
    let low = width * offset;
    let high = width * (offset + scale);
    let mid = width * (offset * d + n * scale);
    assert(0 <= low <= high) by (nonlinear_arith)
        requires
            0 <= offset,
            0 <= scale,
            0 <= width,
            low == width * offset,
            high == width * (offset + scale),
    ;
    assert(d * low <= mid <= d * high && 0 <= mid) by (nonlinear_arith)
        requires
            0 <= offset,
            0 <= scale,
            0 <= width,
            0 <= n <= d,
            low == width * offset,
            high == width * (offset + scale),
            mid == width * (offset * d + n * scale),
    ;
    lemma_div_multiples_vanish(low, d);
    lemma_div_multiples_vanish(high, d);
    lemma_div_is_ordered(d * low, mid, d);
    lemma_div_is_ordered(mid, d * high, d);
    lemma_div_denominator(mid, d, 1_000_000);
    lemma_div_is_ordered(low, mid / d, 1_000_000);
    lemma_div_is_ordered(mid / d, high, 1_000_000);
    assert(d * 1_000_000 == 1_000_000 * d);
    assert(mid / (1_000_000 * d) == (mid / d) / 1_000_000);
    assert(0 <= mid / (1_000_000 * d)) by {
        lemma_div_is_ordered(0, low, 1_000_000);
    }
    assert(width * (offset * 1 + 0 * scale) == low) by (nonlinear_arith)
        requires
            low == width * offset,
    ;
    assert(width * (offset * 1 + 1 * scale) == high) by (nonlinear_arith)
        requires
            high == width * (offset + scale),
    ;
}

/// The band a track is drawn in: where offset, scale and width are not
/// negative, every point between the least and the greatest value of its
/// axis is projected between `offset * width` and `(offset + scale) * width`,
/// each rounded towards zero, whether the axis is flipped or not.
pub proof fn lemma_projection_band(offset: int, scale: int, v: int, lo: int, hi: int, width: int)
    requires
        0 <= offset,
        0 <= scale,
        0 <= width,
        lo <= v <= hi,
    ensures
        project_axis(offset, scale, (0, 1), width) <= project_axis(
            offset,
            scale,
            normalized(v, lo, hi),
            width,
        ) <= project_axis(offset, scale, (1, 1), width),
        project_axis(offset, scale, (0, 1), width) <= project_axis(
            offset,
            scale,
            complement(normalized(v, lo, hi)),
            width,
        ) <= project_axis(offset, scale, (1, 1), width),
        project_axis(offset, scale, (0, 1), width) == clamp_i32((width * offset) / 1_000_000),
        project_axis(offset, scale, (1, 1), width) == clamp_i32(
            (width * (offset + scale)) / 1_000_000,
        ),
{
    let f = normalized(v, lo, hi);
    lemma_axis_between(offset, scale, f.0, f.1, width);
    lemma_axis_between(offset, scale, f.1 - f.0, f.1, width);
    lemma_axis_between(offset, scale, 0, 1, width);
    assert(width * (offset * 1 + 0 * scale) == width * offset) by (nonlinear_arith);
    assert(width * (offset * 1 + 1 * scale) == width * (offset + scale)) by (nonlinear_arith);
    assert(0 <= width * offset && 0 <= width * (offset + scale)) by (nonlinear_arith)
        requires
            0 <= offset,
            0 <= scale,
            0 <= width,
    ;
}

} // verus!
