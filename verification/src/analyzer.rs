//! The core analyzer types under their earlier module path.
pub use crate::image_analyzer::{ImageAnalysisTypes, ImageAnalyzerConfiguration, ImageOrientation};
