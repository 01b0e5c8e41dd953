//! The route image of a run, with nothing configured but the placement.

use vstd::prelude::*;

use super::route_image::{route_image, ImagePlan, PLAIN_LINE_THICKNESS};
use super::route_video::{drawer_of, MAX_SIDE};
use crate::configs::config::{Color, RouteScale};
use crate::types::drawer_data::SizeRect;
use crate::types::error::InputError;
use crate::types::fit_data::RouteData;
use crate::utils::canvas::fitted;
use crate::utils::projector::route_pixels;

verus! {

/// Plans the image of a run: the whole route in red, two pixels thick, on
/// the background. Scale and offsets are in millionths of the canvas width.
pub fn generate_running_route_image(
    route_scale: i32,
    offset_x_percent: i32,
    offset_y_percent: i32,
    route: &RouteData,
    image: SizeRect,
) -> (plan: Result<ImagePlan, InputError>)
    ensures
        route.gps_points.len() == 0 ==> plan is Err && plan->Err_0 == InputError::EmptyTrack,
        route.gps_points.len() > 0 && (image.width <= 0 || image.height <= 0) ==> plan is Err
            && plan->Err_0 == InputError::EmptyImage,
        route.gps_points.len() > 0 && image.width > 0 && image.height > 0 ==> plan is Ok && {
            &&& plan->Ok_0.canvas == fitted(image, MAX_SIDE as int)
            &&& plan->Ok_0.image@ == seq![
                drawer_of(fitted(image, MAX_SIDE as int)).polyline_op(
                    route_pixels(
                        route.gps_points@,
                        image,
                        (RouteScale { scale: route_scale, offset_x_percent, offset_y_percent }),
                        MAX_SIDE as int,
                    ),
                    Color::Red.bgra()@,
                    PLAIN_LINE_THICKNESS as int,
                ),
            ]
        },
{
    route_image(route_scale, offset_x_percent, offset_y_percent, route, image)
}

} // verus!
