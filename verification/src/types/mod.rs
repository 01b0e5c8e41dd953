//! The data a render job works on.

pub mod drawer_data;
pub mod error;
pub mod fit_data;
pub mod route_config;
