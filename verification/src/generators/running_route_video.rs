//! The route video of a run, with nothing configured but the placement; the
//! panel sits higher than in `route_video::progressive_route`.

use vstd::prelude::*;

use super::route_video::{
    compose_video, is_video_plan, plain_style, plain_video_style, VideoPlan, MAX_SIDE,
};
use crate::configs::config::RouteScale;
use crate::types::drawer_data::SizeRect;
use crate::types::error::InputError;
use crate::types::fit_data::{LapData, RouteData};
use crate::utils::canvas::fitted;
use crate::utils::converter::frame_rate;
use crate::utils::element_drawer::Drawer;
use crate::utils::projector::project_route;

verus! {

/// The distance of the panel's anchor from the top of the canvas.
pub const RUN_PANEL_TOP: i32 = 50;

/// Plans the animated video of a run. Scale and offsets are in millionths
/// of the canvas width; `image`, `lap_sizes` and `dist_sizes` are as for
/// `route_video::progressive_route`.
///
/// A track without points is refused before anything is projected; after
/// that, a background image without pixels.
pub fn generate_running_route_video(
    route_scale: i32,
    offset_x_percent: i32,
    offset_y_percent: i32,
    route: &RouteData,
    lap: &LapData,
    image: SizeRect,
    lap_sizes: &Vec<SizeRect>,
    dist_sizes: &Vec<SizeRect>,
) -> (plan: Result<VideoPlan, InputError>)
    requires
        lap@.wf(),
        lap_sizes.len() == lap@.len(),
        dist_sizes.len() == route.gps_points.len(),
    ensures
        route.gps_points.len() == 0 ==> plan is Err && plan->Err_0 == InputError::EmptyTrack,
        route.gps_points.len() > 0 && (image.width <= 0 || image.height <= 0) ==> plan is Err
            && plan->Err_0 == InputError::EmptyImage,
        route.gps_points.len() > 0 && image.width > 0 && image.height > 0 ==> plan is Ok
            && is_video_plan(
            plan->Ok_0,
            plain_style(fitted(image, MAX_SIDE as int), RUN_PANEL_TOP),
            (RouteScale { scale: route_scale, offset_x_percent, offset_y_percent }),
            image,
            route@,
            lap@,
            lap_sizes@,
            dist_sizes@,
        ),
{
    let scale = RouteScale::new(route_scale, offset_x_percent, offset_y_percent);
    match project_route(&route.gps_points, image, &scale, MAX_SIDE) {
        Ok((canvas, pixels)) => {
            let style = plain_video_style(canvas, RUN_PANEL_TOP);
            let fps: usize = frame_rate(pixels.len());
            let drawer = Drawer::new(canvas.width, canvas.height);
            let (buffer, frames) = compose_video(
                drawer,
                pixels,
                &style,
                route,
                lap,
                lap_sizes,
                dist_sizes,
            );
            Ok(VideoPlan { canvas, fps, buffer, frames })
        },
        Err(e) => Err(e),
    }
}

} // verus!
