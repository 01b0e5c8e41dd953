//! What is painted for a route image and for each frame of a route video.

pub mod compositor;
pub mod lap_panel;
pub mod route_image;
pub mod route_video;
pub mod running_route_image;
pub mod running_route_video;
