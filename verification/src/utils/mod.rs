//! Conversions, text and geometry helpers.

pub mod canvas;
pub mod converter;
pub mod digits;
pub mod element_drawer;
pub mod fixed;
pub mod labels;
pub mod performance;
pub mod projector;
pub mod read_file;
pub mod running_route_video;
