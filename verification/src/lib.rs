//! Verified core of the VisionKit bindings: the analysis and interaction
//! flag sets, analyzer configuration, selection ranges, menu tags, the
//! availability metadata of iOS-only areas, and the rules that turn the
//! Swift bridge's status codes and payloads into results.

pub mod analyzer;
pub mod barcode;
pub mod bridge;
pub mod data_scanner_view_controller;
pub mod error;
pub mod image_analyzer;
pub mod json;
pub mod live_text_interaction;
pub mod prelude;
pub mod recognized_item;
pub mod recognized_text;
pub mod status;
pub mod support;
pub mod text;
pub mod text_order;
pub mod vn_document_camera_view_controller;
pub mod wait;

pub use barcode::Barcode;
pub use data_scanner_view_controller::DataScannerViewController;
pub use error::{LiveTextSubjectUnavailable, VisionKitError};
pub use image_analyzer::{ImageAnalysisTypes, ImageAnalyzerConfiguration, ImageOrientation};
pub use live_text_interaction::{
    LiveTextAttributedText, LiveTextAttributedTextAttribute, LiveTextAttributedTextRun,
    LiveTextInteractionTypes, LiveTextMenu, LiveTextMenuItem, LiveTextMenuTag, LiveTextTextRange,
};
pub use recognized_item::RecognizedItem;
pub use recognized_text::RecognizedText;
pub use support::AreaSupportInfo;
pub use vn_document_camera_view_controller::VNDocumentCameraViewController;
