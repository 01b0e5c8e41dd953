//! The extent of the canvas and positions given as fractions of it.

use vstd::prelude::*;

use super::fixed::{clamp_i32, div_toward_zero, saturate, trunc_div};
use crate::configs::config::MILLION;
use crate::types::drawer_data::{CanvasSpec, PositionRect, SizeRect};
use crate::types::error::InputError;

verus! {

/// The extent of an image of the extent `image` after it is scaled down, if
/// need be, so that its longer side has at most `max_dim` pixels; the ratio
/// of its sides is kept, each side rounded towards zero. An image that is
/// small enough keeps its extent.
pub open spec fn fitted(image: SizeRect, max_dim: int) -> CanvasSpec {
    let longer = if image.width >= image.height {
        image.width as int
    } else {
        image.height as int
    };
    if longer <= max_dim {
        CanvasSpec { width: image.width, height: image.height }
    } else {
        CanvasSpec {
            width: trunc_div(image.width * max_dim, longer) as i32,
            height: trunc_div(image.height * max_dim, longer) as i32,
        }
    }
}

/// The canvas for a background image of the extent `image`, with no side
/// longer than `max_dim` unless the image is smaller anyway. An image
/// without pixels gives no canvas.
pub fn fit_canvas(image: SizeRect, max_dim: i32) -> (canvas: Result<CanvasSpec, InputError>)
    ensures
        image.width <= 0 || image.height <= 0 ==> canvas == Err::<CanvasSpec, InputError>(
            InputError::EmptyImage,
        ),
        image.width > 0 && image.height > 0 ==> canvas == Ok::<CanvasSpec, InputError>(
            fitted(image, max_dim as int),
        ),
{
    if image.width <= 0 || image.height <= 0 {
        return Err(InputError::EmptyImage);
    }
    let longer: i32 = if image.width >= image.height { image.width } else { image.height };
    if longer <= max_dim {
        return Ok(CanvasSpec { width: image.width, height: image.height });
    }
    assert(-0x8000_0000 * 0x8000_0000 <= image.width * max_dim <= 0x8000_0000 * 0x8000_0000)
        by (nonlinear_arith)
        requires
            0 < image.width < 0x8000_0000,
            -0x8000_0000 <= max_dim < 0x8000_0000,
    ;
    assert(-0x8000_0000 * 0x8000_0000 <= image.height * max_dim <= 0x8000_0000 * 0x8000_0000)
        by (nonlinear_arith)
        requires
            0 < image.height < 0x8000_0000,
            -0x8000_0000 <= max_dim < 0x8000_0000,
    ;
    let width: i128 = div_toward_zero((image.width as i128) * (max_dim as i128), longer as i128);
    let height: i128 = div_toward_zero((image.height as i128) * (max_dim as i128), longer as i128);
    proof {
        lemma_scaled_side(image.width as int, max_dim as int, longer as int);
        lemma_scaled_side(image.height as int, max_dim as int, longer as int);
    }
    Ok(CanvasSpec { width: width as i32, height: height as i32 })
}

/// A side scaled by `max_dim / longer`, where it is no longer than `longer`,
/// is no longer than `max_dim`.
proof fn lemma_scaled_side(side: int, max_dim: int, longer: int)
    requires
        0 < side <= longer,
    ensures
        max_dim >= 0 ==> 0 <= trunc_div(side * max_dim, longer) <= max_dim,
        max_dim < 0 ==> max_dim <= trunc_div(side * max_dim, longer) <= 0,
{
    if max_dim >= 0 {
        let p = side * max_dim;
        assert(0 <= p <= longer * max_dim) by (nonlinear_arith)
            requires
                0 < side <= longer,
                max_dim >= 0,
                p == side * max_dim,
        ;
        assert(0 <= p / longer <= max_dim) by (nonlinear_arith)
            requires
                0 <= p <= longer * max_dim,
                longer > 0,
        ;
    } else {
        let p = -(side * max_dim);
        assert(0 <= p <= longer * (-max_dim)) by (nonlinear_arith)
            requires
                0 < side <= longer,
                max_dim < 0,
                p == -(side * max_dim),
        ;
        assert(0 <= p / longer <= -max_dim) by (nonlinear_arith)
            requires
                0 <= p <= longer * (-max_dim),
                longer > 0,
        ;
    }
}

/// The pixel at the fractions `position`, in millionths of the canvas width
/// and height, rounded towards zero.
pub open spec fn anchor_at(position: (i32, i32), canvas: CanvasSpec) -> PositionRect {
    PositionRect {
        x: clamp_i32(trunc_div(position.0 * canvas.width, MILLION as int)) as i32,
        y: clamp_i32(trunc_div(position.1 * canvas.height, MILLION as int)) as i32,
    }
}

/// The pixel at the fractions `position` of the canvas.
pub fn panel_anchor(position: (i32, i32), canvas: CanvasSpec) -> (anchor: PositionRect)
    ensures
        anchor == anchor_at(position, canvas),
{
    assert(-0x8000_0000 * 0x8000_0000 <= position.0 * canvas.width <= 0x8000_0000 * 0x8000_0000)
        by (nonlinear_arith)
        requires
            -0x8000_0000 <= position.0 < 0x8000_0000,
            -0x8000_0000 <= canvas.width < 0x8000_0000,
    ;
    assert(-0x8000_0000 * 0x8000_0000 <= position.1 * canvas.height <= 0x8000_0000 * 0x8000_0000)
        by (nonlinear_arith)
        requires
            -0x8000_0000 <= position.1 < 0x8000_0000,
            -0x8000_0000 <= canvas.height < 0x8000_0000,
    ;
    PositionRect {
        x: saturate(
            div_toward_zero((position.0 as i128) * (canvas.width as i128), MILLION as i128),
        ),
        y: saturate(
            div_toward_zero((position.1 as i128) * (canvas.height as i128), MILLION as i128),
        ),
    }
}

} // verus!
