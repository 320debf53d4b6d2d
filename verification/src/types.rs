//! The types of the library that callers name most, under one path.
pub use crate::device::{DacCapabilities, DacType, OutputModel};
pub use crate::point::LaserPoint;
pub use crate::session::SessionExit;
