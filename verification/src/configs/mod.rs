//! Everything a render job can be configured with.

pub mod config;
pub mod image_config;
pub mod video_config;

pub use config::{Color, FileConfig, Font, RouteColor, RouteScale, MILLION};
pub use image_config::RouteImageConfig;
pub use video_config::{LapDataConfig, PaceDistConfig, RouteVideoConfig};
