use visionkit::{
    AreaSupportInfo, Barcode, DataScannerViewController, RecognizedItem, RecognizedText,
    VNDocumentCameraViewController, VisionKitError,
};

fn info(area: &str, reason: Option<&str>) -> AreaSupportInfo {
    AreaSupportInfo {
        area: area.to_owned(),
        current_platform: String::from("macOS"),
        available_on_current_platform: false,
        availability: String::from("iOS 16.0+"),
        reason: reason.map(str::to_owned),
        members: vec![String::from("capturePhoto()")],
        notes: Vec::new(),
    }
}

#[test]
fn unavailable_error_uses_the_reason_or_names_the_area() {
    assert_eq!(
        info("DataScannerViewController", Some("iOS only")).unavailable_error(),
        VisionKitError::UnavailableOnThisPlatform(String::from("iOS only"))
    );
    assert_eq!(
        info("DataScannerViewController", None).unavailable_error(),
        VisionKitError::UnavailableOnThisPlatform(String::from(
            "DataScannerViewController is unavailable on macOS"
        ))
    );
}

#[test]
fn ios_only_constructors_always_fail() {
    assert!(matches!(
        DataScannerViewController::new(Ok(info("DataScannerViewController", None))),
        Err(VisionKitError::UnavailableOnThisPlatform(_))
    ));
    let mut available = info("VNDocumentCameraViewController", Some("needs a camera"));
    available.available_on_current_platform = true;
    assert_eq!(
        VNDocumentCameraViewController::new(Ok(available)),
        Err(VisionKitError::UnavailableOnThisPlatform(String::from("needs a camera")))
    );
    let failure = VisionKitError::Unknown(String::from("bridge failed"));
    assert_eq!(
        VNDocumentCameraViewController::new(Err(failure.clone())),
        Err(failure)
    );
}

#[test]
fn availability_comes_from_the_report() {
    assert_eq!(Barcode::is_available_on_current_platform(Ok(info("Barcode", None))), Ok(false));
    let mut available = info("RecognizedText", None);
    available.available_on_current_platform = true;
    assert_eq!(RecognizedText::is_available_on_current_platform(Ok(available)), Ok(true));
    let failure = VisionKitError::TimedOut(String::from("late"));
    assert_eq!(
        RecognizedItem::is_available_on_current_platform(Err(failure.clone())),
        Err(failure)
    );
}
