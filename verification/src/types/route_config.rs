//! The configuration types, for those who look for them beside the other
//! types.

pub use crate::configs::config::{Color, FileConfig, Font, RouteColor, RouteScale};
pub use crate::configs::video_config::{LapDataConfig, PaceDistConfig, RouteVideoConfig};
