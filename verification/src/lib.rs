//! Rendering plans for GPS tracks: a recorded route is projected onto a
//! raster canvas and composed, primitive by primitive, into either a single
//! route image or the frames of a progressively drawn video, with a lap
//! statistics panel and a pace/distance strip.
//!
//! The crate computes *what* is drawn and *where*. Every real-valued
//! quantity is held as an integer in a fixed unit, so that each result is an
//! exact function of its inputs:
//!
//! * fractions of the canvas, scales and font scales: whole millionths;
//! * latitude and longitude: semicircles, as a recording holds them, of
//!   which 2^31 are 180 degrees;
//! * speeds, distances and stride lengths read from a recording: whole
//!   thousandths of the recorded unit;
//! * pace: whole seconds per kilometre.
//!
//! Rasterising the primitives, measuring text and encoding the result are
//! left to the caller.

pub mod configs;
pub mod generators;
pub mod types;
pub mod utils;

pub use configs::{config, image_config, video_config};
pub use generators::route_image::image_route_with_config;
pub use generators::route_video::progressive_route_with_config;
