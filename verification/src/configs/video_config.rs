//! Configuration of the animated route video.

use vstd::prelude::*;

pub use super::config::{Color, FileConfig, Font, RouteColor, RouteScale};

verus! {

/// How the pace/distance strip at the bottom of a frame is set.
#[derive(Debug, Clone, Copy, PartialEq, Eq)]
pub struct PaceDistConfig {
    /// Font scale, in millionths.
    pub font_scale: i32,
    /// Stroke thickness of the text.
    pub thickness: i32,
    /// Typeface of the text.
    pub font: Font,
    /// Where the strip is put; `None` leaves it at the bottom edge.
    pub position: Option<(i32, i32)>,
    /// Whether the pace is written.
    pub show_pace: bool,
    /// Whether the distance is written.
    pub show_distance: bool,
}

impl PaceDistConfig {
    /// A strip with the given settings.
    pub fn new(
        font_scale: i32,
        thickness: i32,
        font: Font,
        position: Option<(i32, i32)>,
        show_pace: bool,
        show_distance: bool,
    ) -> (r: Self)
        ensures
            r == (PaceDistConfig { font_scale, thickness, font, position, show_pace, show_distance }),
    {
        Self { font_scale, thickness, font, position, show_pace, show_distance }
    }

    /// Thin text at scale 0.5, pace and distance both written.
    pub open spec fn spec_default() -> Self {
        PaceDistConfig {
            font_scale: 500_000,
            thickness: 1,
            font: Font::Simplex,
            position: None,
            show_pace: true,
            show_distance: true,
        }
    }

    /// Thin text at scale 0.5, pace and distance both written.
    #[verifier::when_used_as_spec(spec_default)]
    pub fn default() -> (r: Self)
        ensures
            r == Self::spec_default(),
    {
        Self {
            font_scale: 500_000,
            thickness: 1,
            font: Font::Simplex,
            position: None,
            show_pace: true,
            show_distance: true,
        }
    }

    /// Bold text at scale 0.8, pace and distance both written.
    pub open spec fn spec_large_text() -> Self {
        PaceDistConfig {
            font_scale: 800_000,
            thickness: 2,
            font: Font::Duplex,
            position: None,
            show_pace: true,
            show_distance: true,
        }
    }

    /// Bold text at scale 0.8, pace and distance both written.
    #[verifier::when_used_as_spec(spec_large_text)]
    pub fn large_text() -> (r: Self)
        ensures
            r == Self::spec_large_text(),
    {
        Self {
            font_scale: 800_000,
            thickness: 2,
            font: Font::Duplex,
            position: None,
            show_pace: true,
            show_distance: true,
        }
    }

    /// Thin text at scale 0.5, the pace alone.
    pub open spec fn spec_pace_only() -> Self {
        PaceDistConfig {
            font_scale: 500_000,
            thickness: 1,
            font: Font::Simplex,
            position: None,
            show_pace: true,
            show_distance: false,
        }
    }

    /// Thin text at scale 0.5, the pace alone.
    #[verifier::when_used_as_spec(spec_pace_only)]
    pub fn pace_only() -> (r: Self)
        ensures
            r == Self::spec_pace_only(),
    {
        Self {
            font_scale: 500_000,
            thickness: 1,
            font: Font::Simplex,
            position: None,
            show_pace: true,
            show_distance: false,
        }
    }
}

/// How the lap statistics panel is set.
#[derive(Debug, Clone, Copy, PartialEq, Eq)]
pub struct LapDataConfig {
    /// The anchor of the panel as fractions of the canvas width and height,
    /// in millionths.
    pub position: (i32, i32),
    /// Font scale, in millionths.
    pub font_scale: i32,
    /// Stroke thickness of the text.
    pub thickness: i32,
    /// Typeface of the text.
    pub font: Font,
    /// Colour of the rows' text.
    pub text_color: Color,
    /// Length in pixels of a bar that stands for the baseline pace.
    pub bar_max_width: i32,
    /// Whether the heart rate column is written.
    pub show_heart_rate: bool,
    /// Whether the stride length column is written.
    pub show_stride_length: bool,
    /// Whether the pace bars are drawn.
    pub show_pace_bars: bool,
}

impl LapDataConfig {
    /// A panel with the given settings.
    pub fn new(
        position: (i32, i32),
        font_scale: i32,
        thickness: i32,
        font: Font,
        text_color: Color,
        bar_max_width: i32,
        show_heart_rate: bool,
        show_stride_length: bool,
        show_pace_bars: bool,
    ) -> (r: Self)
        ensures
            r == (LapDataConfig {
                position,
                font_scale,
                thickness,
                font,
                text_color,
                bar_max_width,
                show_heart_rate,
                show_stride_length,
                show_pace_bars,
            }),
    {
        Self {
            position,
            font_scale,
            thickness,
            font,
            text_color,
            bar_max_width,
            show_heart_rate,
            show_stride_length,
            show_pace_bars,
        }
    }

    /// All columns, anchored at half the width and 9% of the height.
    pub open spec fn spec_default() -> Self {
        LapDataConfig {
            position: (500_000, 90_000),
            font_scale: 500_000,
            thickness: 1,
            font: Font::Simplex,
            text_color: Color::White,
            bar_max_width: 200,
            show_heart_rate: true,
            show_stride_length: true,
            show_pace_bars: true,
        }
    }

    /// All columns, anchored at half the width and 9% of the height.
    #[verifier::when_used_as_spec(spec_default)]
    pub fn default() -> (r: Self)
        ensures
            r == Self::spec_default(),
    {
        Self {
            position: (500_000, 90_000),
            font_scale: 500_000,
            thickness: 1,
            font: Font::Simplex,
            text_color: Color::White,
            bar_max_width: 200,
            show_heart_rate: true,
            show_stride_length: true,
            show_pace_bars: true,
        }
    }

    /// Pace and bars only, anchored at half the width and 9% of the height.
    pub open spec fn spec_minimal() -> Self {
        LapDataConfig {
            position: (500_000, 90_000),
            font_scale: 500_000,
            thickness: 1,
            font: Font::Simplex,
            text_color: Color::White,
            bar_max_width: 200,
            show_heart_rate: false,
            show_stride_length: false,
            show_pace_bars: true,
        }
    }

    /// Pace and bars only, anchored at half the width and 9% of the height.
    #[verifier::when_used_as_spec(spec_minimal)]
    pub fn minimal() -> (r: Self)
        ensures
            r == Self::spec_minimal(),
    {
        Self {
            position: (500_000, 90_000),
            font_scale: 500_000,
            thickness: 1,
            font: Font::Simplex,
            text_color: Color::White,
            bar_max_width: 200,
            show_heart_rate: false,
            show_stride_length: false,
            show_pace_bars: true,
        }
    }

    /// All columns, anchored at half the width and 7% of the height.
    pub open spec fn spec_detailed() -> Self {
        LapDataConfig {
            position: (500_000, 70_000),
            font_scale: 500_000,
            thickness: 1,
            font: Font::Simplex,
            text_color: Color::White,
            bar_max_width: 200,
            show_heart_rate: true,
            show_stride_length: true,
            show_pace_bars: true,
        }
    }

    /// All columns, anchored at half the width and 7% of the height.
    #[verifier::when_used_as_spec(spec_detailed)]
    pub fn detailed() -> (r: Self)
        ensures
            r == Self::spec_detailed(),
    {
        Self {
            position: (500_000, 70_000),
            font_scale: 500_000,
            thickness: 1,
            font: Font::Simplex,
            text_color: Color::White,
            bar_max_width: 200,
            show_heart_rate: true,
            show_stride_length: true,
            show_pace_bars: true,
        }
    }
}

/// Everything that shapes a route video.
#[derive(Debug, Clone)]
pub struct RouteVideoConfig {
    /// Placement of the route.
    pub route_scale: RouteScale,
    /// Colours of the drawn elements.
    pub colors: RouteColor,
    /// The pace/distance strip.
    pub pace_dist: PaceDistConfig,
    /// The lap statistics panel.
    pub lap_data: LapDataConfig,
    /// The files of the job.
    pub file_config: FileConfig,
    /// Whether the pace/distance strip is drawn.
    pub show_bottom_bar: bool,
    /// Whether the route and the position marker are drawn.
    pub show_route: bool,
    /// Whether the lap statistics panel is drawn.
    pub show_lap_data: bool,
}

impl RouteVideoConfig {
    /// A configuration made of the given parts.
    pub fn new(
        route_scale: RouteScale,
        colors: RouteColor,
        pace_dist: PaceDistConfig,
        lap_data: LapDataConfig,
        file_config: FileConfig,
        show_bottom_bar: bool,
        show_route: bool,
        show_lap_data: bool,
    ) -> (r: Self)
        ensures
            r == (RouteVideoConfig {
                route_scale,
                colors,
                pace_dist,
                lap_data,
                file_config,
                show_bottom_bar,
                show_route,
                show_lap_data,
            }),
    {
        Self {
            route_scale,
            colors,
            pace_dist,
            lap_data,
            file_config,
            show_bottom_bar,
            show_route,
            show_lap_data,
        }
    }

    /// The defaults of every part, everything shown.
    pub fn default() -> (r: Self)
        ensures
            r.route_scale == RouteScale::default(),
            r.colors == RouteColor::default(),
            r.pace_dist == PaceDistConfig::default(),
            r.lap_data == LapDataConfig::default(),
            r.file_config.fit_file@ == "source/car.fit"@,
            r.file_config.background_image@ == "source/car.jpg"@,
            r.file_config.output_file@ == "outputs/car.mp4"@,
            r.show_bottom_bar && r.show_route && r.show_lap_data,
    {
        Self {
            route_scale: RouteScale::default(),
            colors: RouteColor::default(),
            pace_dist: PaceDistConfig::default(),
            lap_data: LapDataConfig::default(),
            show_bottom_bar: true,
            show_route: true,
            show_lap_data: true,
            file_config: FileConfig::default(),
        }
    }
    /// Pace-only strip and a panel without heart rate and stride columns.
    pub fn minimalist() -> (r: Self)
        ensures
            r.route_scale == RouteScale::default(),
            r.colors == RouteColor::default(),
            r.pace_dist == PaceDistConfig::pace_only(),
            r.lap_data == LapDataConfig::minimal(),
            r.file_config.fit_file@ == "source/car.fit"@,
            r.file_config.background_image@ == "source/car.jpg"@,
            r.file_config.output_file@ == "outputs/car.mp4"@,
            r.show_bottom_bar && r.show_route && r.show_lap_data,
    {
        Self {
            route_scale: RouteScale::default(),
            colors: RouteColor::default(),
            pace_dist: PaceDistConfig::pace_only(),
            lap_data: LapDataConfig::minimal(),
            show_bottom_bar: true,
            show_route: true,
            show_lap_data: true,
            file_config: FileConfig::default(),
        }
    }

    /// Large route, bold strip and a panel with every column.
    pub fn detailed() -> (r: Self)
        ensures
            r.route_scale == RouteScale::large(),
            r.colors == RouteColor::default(),
            r.pace_dist == PaceDistConfig::large_text(),
            r.lap_data == LapDataConfig::detailed(),
            r.file_config.fit_file@ == "source/car.fit"@,
            r.file_config.background_image@ == "source/car.jpg"@,
            r.file_config.output_file@ == "outputs/car.mp4"@,
            r.show_bottom_bar && r.show_route && r.show_lap_data,
    {
        Self {
            route_scale: RouteScale::large(),
            colors: RouteColor::default(),
            pace_dist: PaceDistConfig::large_text(),
            lap_data: LapDataConfig::detailed(),
            show_bottom_bar: true,
            show_route: true,
            show_lap_data: true,
            file_config: FileConfig::default(),
        }
    }

    /// Centred route in the neon palette.
    pub fn neon() -> (r: Self)
        ensures
            r.route_scale == RouteScale::centered(),
            r.colors == RouteColor::neon_scheme(),
            r.pace_dist == PaceDistConfig::default(),
            r.lap_data == LapDataConfig::default(),
            r.file_config.fit_file@ == "source/car.fit"@,
            r.file_config.background_image@ == "source/car.jpg"@,
            r.file_config.output_file@ == "outputs/car.mp4"@,
            r.show_bottom_bar && r.show_route && r.show_lap_data,
    {
        Self {
            route_scale: RouteScale::centered(),
            colors: RouteColor::neon_scheme(),
            pace_dist: PaceDistConfig::default(),
            lap_data: LapDataConfig::default(),
            show_bottom_bar: true,
            show_route: true,
            show_lap_data: true,
            file_config: FileConfig::default(),
        }
    }
}

} // verus!
