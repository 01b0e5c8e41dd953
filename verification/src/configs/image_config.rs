//! Configuration of the single route image.

use vstd::prelude::*;

use super::config::{FileConfig, RouteColor, RouteScale};
use super::video_config::LapDataConfig;

verus! {

/// Everything that shapes a route image.
///
/// The lap statistics panel is drawn exactly when `lap_data` is present.
#[derive(Debug, Clone)]
pub struct RouteImageConfig {
    /// Placement of the route.
    pub route_scale: RouteScale,
    /// Colours of the drawn elements.
    pub colors: RouteColor,
    /// The files of the job.
    pub file_config: FileConfig,
    /// Stroke thickness of the route line.
    pub line_thickness: i32,
    /// The lap statistics panel, if one is drawn.
    pub lap_data: Option<LapDataConfig>,
}

impl RouteImageConfig {
    /// An image of the route alone.
    pub fn new(
        route_scale: RouteScale,
        colors: RouteColor,
        file_config: FileConfig,
        line_thickness: i32,
    ) -> (r: Self)
        ensures
            r == (RouteImageConfig {
                route_scale,
                colors,
                file_config,
                line_thickness,
                lap_data: None,
            }),
    {
        Self { route_scale, colors, file_config, line_thickness, lap_data: None }
    }

    /// An image of the route with the lap statistics panel.
    pub fn with_lap_data(
        route_scale: RouteScale,
        colors: RouteColor,
        file_config: FileConfig,
        line_thickness: i32,
        lap_data: LapDataConfig,
    ) -> (r: Self)
        ensures
            r == (RouteImageConfig {
                route_scale,
                colors,
                file_config,
                line_thickness,
                lap_data: Some(lap_data),
            }),
    {
        Self { route_scale, colors, file_config, line_thickness, lap_data: Some(lap_data) }
    }

    /// The default placement and palette, a line of thickness 2, no panel.
    pub fn default(fit_file: String, background_image: String, output_file: String) -> (r: Self)
        ensures
            r.route_scale == RouteScale::default(),
            r.colors == RouteColor::default(),
            r.file_config.fit_file == fit_file,
            r.file_config.background_image == background_image,
            r.file_config.output_file == output_file,
            r.line_thickness == 2,
            r.lap_data is None,
    {
        Self {
            route_scale: RouteScale::default(),
            colors: RouteColor::default(),
            file_config: FileConfig::new(fit_file, background_image, output_file),
            line_thickness: 2,
            lap_data: None,
        }
    }

    /// Whether the lap statistics panel is drawn.
    pub fn show_lap_data(&self) -> (shown: bool)
        ensures
            shown == self.lap_data is Some,
    {
        self.lap_data.is_some()
    }
}

} // verus!
