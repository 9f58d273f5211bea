//! The library's main types, for convenient imports.
pub use crate::barcode::Barcode;
pub use crate::data_scanner_view_controller::DataScannerViewController;
pub use crate::error::{LiveTextSubjectUnavailable, VisionKitError};
pub use crate::image_analyzer::{ImageAnalysisTypes, ImageAnalyzerConfiguration, ImageOrientation};
pub use crate::live_text_interaction::{
    LiveTextAttributedText, LiveTextAttributedTextAttribute, LiveTextAttributedTextRun,
    LiveTextInteractionTypes, LiveTextMenu, LiveTextMenuItem, LiveTextMenuTag, LiveTextTextRange,
};
pub use crate::recognized_item::RecognizedItem;
pub use crate::recognized_text::RecognizedText;
pub use crate::support::AreaSupportInfo;
pub use crate::vn_document_camera_view_controller::VNDocumentCameraViewController;
