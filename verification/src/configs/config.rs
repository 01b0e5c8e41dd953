//! Building blocks shared by the image and the video configuration.

use vstd::prelude::*;

verus! {

/// The fixed-point unit of every fraction in a configuration: a stored value
/// `v` stands for `v / MILLION`.
pub const MILLION: i32 = 1_000_000;

/// Where the route sits on the canvas and how large it is drawn.
///
/// All three values are fractions of the canvas width, in millionths. They
/// are not held against the canvas: values outside `0..=MILLION` are legal
/// and put the route partly or wholly off the canvas.
#[derive(Debug, Clone, Copy, PartialEq, Eq, Structural)]
pub struct RouteScale {
    /// Side of the square the route is fitted into.
    pub scale: i32,
    /// Distance of that square from the left edge.
    pub offset_x_percent: i32,
    /// Distance of that square from the top edge.
    pub offset_y_percent: i32,
}

impl RouteScale {
    /// A scale with the given values.
    pub fn new(scale: i32, offset_x_percent: i32, offset_y_percent: i32) -> (r: Self)
        ensures
            r == (RouteScale { scale, offset_x_percent, offset_y_percent }),
    {
        Self { scale, offset_x_percent, offset_y_percent }
    }

    /// A small route in the top-left corner: scale 0.2, offsets 0.1.
    pub open spec fn spec_default() -> Self {
        RouteScale {
            scale: 200_000,
            offset_x_percent: 100_000,
            offset_y_percent: 100_000,
        }
    }

    /// A small route in the top-left corner: scale 0.2, offsets 0.1.
    #[verifier::when_used_as_spec(spec_default)]
    pub fn default() -> (r: Self)
        ensures
            r == Self::spec_default(),
    {
        Self { scale: 200_000, offset_x_percent: 100_000, offset_y_percent: 100_000 }
    }

    /// A medium route near the centre: scale 0.4, offsets 0.3.
    pub open spec fn spec_centered() -> Self {
        RouteScale {
            scale: 400_000,
            offset_x_percent: 300_000,
            offset_y_percent: 300_000,
        }
    }

    /// A medium route near the centre: scale 0.4, offsets 0.3.
    #[verifier::when_used_as_spec(spec_centered)]
    pub fn centered() -> (r: Self)
        ensures
            r == Self::spec_centered(),
    {
        Self { scale: 400_000, offset_x_percent: 300_000, offset_y_percent: 300_000 }
    }

    /// A route that fills most of the canvas: scale 0.7, offsets 0.15.
    pub open spec fn spec_large() -> Self {
        RouteScale {
            scale: 700_000,
            offset_x_percent: 150_000,
            offset_y_percent: 150_000,
        }
    }

    /// A route that fills most of the canvas: scale 0.7, offsets 0.15.
    #[verifier::when_used_as_spec(spec_large)]
    pub fn large() -> (r: Self)
        ensures
            r == Self::spec_large(),
    {
        Self { scale: 700_000, offset_x_percent: 150_000, offset_y_percent: 150_000 }
    }
}

/// The colours of the drawn elements, each as blue, green, red, alpha.
#[derive(Debug, Clone, Copy, PartialEq, Eq)]
pub struct RouteColor {
    /// The route line.
    pub route_line: [u8; 4],
    /// The marker of the current position.
    pub current_position: [u8; 4],
    /// Text.
    pub text: [u8; 4],
    /// The pace bars of the lap panel.
    pub lap_bars: [u8; 4],
}

impl RouteColor {
    /// A palette of the given colours.
    pub fn new(
        route_line: [u8; 4],
        current_position: [u8; 4],
        text: [u8; 4],
        lap_bars: [u8; 4],
    ) -> (r: Self)
        ensures
            r == (RouteColor { route_line, current_position, text, lap_bars }),
    {
        Self { route_line, current_position, text, lap_bars }
    }

    /// Red route, green marker, white text, green bars.
    pub open spec fn spec_default() -> Self {
        RouteColor {
            route_line: Color::Red.bgra(),
            current_position: Color::Green.bgra(),
            text: Color::White.bgra(),
            lap_bars: Color::Green.bgra(),
        }
    }

    /// Red route, green marker, white text, green bars.
    #[verifier::when_used_as_spec(spec_default)]
    pub fn default() -> (r: Self)
        ensures
            r == Self::spec_default(),
    {
        Self {
            route_line: [0, 0, 255, 0],
            current_position: [0, 255, 0, 0],
            text: [255, 255, 255, 0],
            lap_bars: [0, 255, 0, 0],
        }
    }

    /// Blue route, cyan marker, white text, azure bars.
    pub open spec fn spec_blue_scheme() -> Self {
        RouteColor {
            route_line: Color::Blue.bgra(),
            current_position: [255u8, 255u8, 0u8, 0u8],
            text: Color::White.bgra(),
            lap_bars: [255u8, 128u8, 0u8, 0u8],
        }
    }

    /// Blue route, cyan marker, white text, azure bars.
    #[verifier::when_used_as_spec(spec_blue_scheme)]
    pub fn blue_scheme() -> (r: Self)
        ensures
            r == Self::spec_blue_scheme(),
    {
        Self {
            route_line: [255, 0, 0, 0],
            current_position: [255, 255, 0, 0],
            text: [255, 255, 255, 0],
            lap_bars: [255, 128, 0, 0],
        }
    }

    /// Magenta route, yellow marker, white text, magenta bars.
    pub open spec fn spec_neon_scheme() -> Self {
        RouteColor {
            route_line: [255u8, 0u8, 255u8, 0u8],
            current_position: Color::Yellow.bgra(),
            text: Color::White.bgra(),
            lap_bars: [255u8, 0u8, 255u8, 0u8],
        }
    }

    /// Magenta route, yellow marker, white text, magenta bars.
    #[verifier::when_used_as_spec(spec_neon_scheme)]
    pub fn neon_scheme() -> (r: Self)
        ensures
            r == Self::spec_neon_scheme(),
    {
        Self {
            route_line: [255, 0, 255, 0],
            current_position: [0, 255, 255, 0],
            text: [255, 255, 255, 0],
            lap_bars: [255, 0, 255, 0],
        }
    }
}

/// The files of one render job.
#[derive(Debug, Clone)]
pub struct FileConfig {
    /// The recorded activity.
    pub fit_file: String,
    /// The picture the route is drawn on.
    pub background_image: String,
    /// Where the result is written.
    pub output_file: String,
}

impl FileConfig {
    /// The given paths.
    pub fn new(fit_file: String, background_image: String, output_file: String) -> (r: Self)
        ensures
            r.fit_file == fit_file,
            r.background_image == background_image,
            r.output_file == output_file,
    {
        Self { fit_file, background_image, output_file }
    }

    /// The sample activity: `source/car.fit` on `source/car.jpg`, written to
    /// `outputs/car.mp4`.
    pub fn default() -> (r: Self)
        ensures
            r.fit_file@ == "source/car.fit"@,
            r.background_image@ == "source/car.jpg"@,
            r.output_file@ == "outputs/car.mp4"@,
    {
        Self {
            fit_file: "source/car.fit".to_owned(),
            background_image: "source/car.jpg".to_owned(),
            output_file: "outputs/car.mp4".to_owned(),
        }
    }
}

/// The named colours a text can be given.
#[derive(Debug, Clone, Copy, PartialEq, Eq, Structural)]
pub enum Color {
    Black,
    White,
    Red,
    Orange,
    Yellow,
    YellowGreen,
    Green,
    BlueGreen,
    Blue,
    BlueViolet,
    Violet,
    RedViolet,
    RedOrange,
    YellowOrange,
}

impl Color {
    /// The channels of the colour: blue, green, red, alpha.
    pub open spec fn bgra(&self) -> [u8; 4] {
        match self {
            Color::Black => [0u8, 0u8, 0u8, 0u8],
            Color::White => [255u8, 255u8, 255u8, 0u8],
            Color::Red => [0u8, 0u8, 255u8, 0u8],
            Color::Orange => [0u8, 165u8, 255u8, 0u8],
            Color::Yellow => [0u8, 255u8, 255u8, 0u8],
            Color::YellowGreen => [47u8, 255u8, 173u8, 0u8],
            Color::Green => [0u8, 255u8, 0u8, 0u8],
            Color::BlueGreen => [128u8, 255u8, 0u8, 0u8],
            Color::Blue => [255u8, 0u8, 0u8, 0u8],
            Color::BlueViolet => [226u8, 43u8, 138u8, 0u8],
            Color::Violet => [211u8, 0u8, 148u8, 0u8],
            Color::RedViolet => [211u8, 0u8, 199u8, 0u8],
            Color::RedOrange => [0u8, 69u8, 255u8, 0u8],
            Color::YellowOrange => [0u8, 204u8, 255u8, 0u8],
        }
    }

    /// The channels of the colour in the order blue, green, red, alpha.
    #[verifier::when_used_as_spec(bgra)]
    pub fn to_bgra(&self) -> (c: [u8; 4])
        ensures
            c == self.bgra(),
    {
        match self {
            Color::Black => [0, 0, 0, 0],
            Color::White => [255, 255, 255, 0],
            Color::Red => [0, 0, 255, 0],
            Color::Orange => [0, 165, 255, 0],
            Color::Yellow => [0, 255, 255, 0],
            Color::YellowGreen => [47, 255, 173, 0],
            Color::Green => [0, 255, 0, 0],
            Color::BlueGreen => [128, 255, 0, 0],
            Color::Blue => [255, 0, 0, 0],
            Color::BlueViolet => [226, 43, 138, 0],
            Color::Violet => [211, 0, 148, 0],
            Color::RedViolet => [211, 0, 199, 0],
            Color::RedOrange => [0, 69, 255, 0],
            Color::YellowOrange => [0, 204, 255, 0],
        }
    }
}

/// The typefaces a text can be set in.
#[derive(Debug, Clone, Copy, PartialEq, Eq, Structural)]
pub enum Font {
    /// Normal size sans-serif.
    Simplex,
    /// Small size sans-serif.
    Plain,
    /// Normal size sans-serif, more detailed than `Simplex`.
    Duplex,
    /// Normal size serif.
    Complex,
    /// Normal size serif, more detailed than `Complex`.
    Triplex,
    /// A smaller `Complex`.
    ComplexSmall,
    /// Handwriting style.
    ScriptSimplex,
    /// Handwriting style, more detailed than `ScriptSimplex`.
    ScriptComplex,
    /// Slanted.
    Italic,
}

impl Font {
    /// The code by which the rasteriser knows the typeface.
    pub open spec fn code(&self) -> int {
        match self {
            Font::Simplex => 0,
            Font::Plain => 1,
            Font::Duplex => 2,
            Font::Complex => 3,
            Font::Triplex => 4,
            Font::ComplexSmall => 5,
            Font::ScriptSimplex => 6,
            Font::ScriptComplex => 7,
            Font::Italic => 16,
        }
    }

    /// The code by which the rasteriser knows the typeface.
    pub fn to_opencv(&self) -> (code: i32)
        ensures
            code == self.code(),
    {
        match self {
            Font::Simplex => 0,
            Font::Plain => 1,
            Font::Duplex => 2,
            Font::Complex => 3,
            Font::Triplex => 4,
            Font::ComplexSmall => 5,
            Font::ScriptSimplex => 6,
            Font::ScriptComplex => 7,
            Font::Italic => 16,
        }
    }
}

/// No two typefaces share a code.
pub proof fn lemma_font_codes_differ(a: Font, b: Font)
    ensures
        a.code() == b.code() <==> a == b,
{
}

} // verus!
