use visionkit::image_analyzer::supported_text_recognition_languages;
use visionkit::status;
use visionkit::{ImageAnalysisTypes, ImageAnalyzerConfiguration, ImageOrientation, VisionKitError};

fn configuration() -> ImageAnalyzerConfiguration {
    ImageAnalyzerConfiguration::new(
        ImageAnalysisTypes::TEXT | ImageAnalysisTypes::MACHINE_READABLE_CODE,
    )
    .with_locales(&["en-US"])
}

#[test]
fn configuration_and_language_queries_work() {
    let languages = supported_text_recognition_languages(
        status::OK,
        Some(String::from(r#"["zh-Hans","en-US","fr-FR"]"#)),
        None,
    )
    .expect("languages");
    assert!(languages.iter().any(|language| language == "en-US"));

    let configuration = configuration();
    assert!(configuration
        .analysis_types()
        .contains(ImageAnalysisTypes::TEXT));
    assert_eq!(configuration.locales(), &[String::from("en-US")]);
    assert_eq!(ImageOrientation::Up.raw_value(), 1);
}

#[test]
fn languages_come_back_sorted() {
    let languages = supported_text_recognition_languages(
        status::OK,
        Some(String::from(r#"["zh-Hans","en-US","fr-FR","en-GB","de-DE"]"#)),
        None,
    )
    .expect("languages");
    assert_eq!(languages, vec!["de-DE", "en-GB", "en-US", "fr-FR", "zh-Hans"]);
}

#[test]
fn languages_sort_by_scalar_values_and_keep_duplicates() {
    let languages = supported_text_recognition_languages(
        status::OK,
        Some(String::from(r#"["é","e","ab","a","E","ab"]"#)),
        None,
    )
    .expect("languages");
    assert_eq!(languages, vec!["E", "a", "ab", "ab", "e", "é"]);
}

#[test]
fn language_query_errors() {
    let failed = supported_text_recognition_languages(status::FRAMEWORK_ERROR, None, None);
    assert_eq!(
        failed,
        Err(VisionKitError::Framework(String::from(
            "Swift bridge call failed with status code -20"
        )))
    );
    let missing = supported_text_recognition_languages(status::OK, None, None);
    assert_eq!(
        missing,
        Err(VisionKitError::Unknown(String::from(
            "missing supported text recognition languages response from Swift bridge"
        )))
    );
    match supported_text_recognition_languages(status::OK, Some(String::from("[1,")), None) {
        Err(VisionKitError::Unknown(message)) => assert!(message
            .starts_with("failed to decode supported text recognition languages JSON payload: ")),
        other => panic!("expected a decoding error, got {other:?}"),
    }
}

#[test]
fn analysis_types_combine_as_bit_sets() {
    let both = ImageAnalysisTypes::TEXT | ImageAnalysisTypes::MACHINE_READABLE_CODE;
    assert_eq!(both.bits(), 3);
    assert!(both.contains(ImageAnalysisTypes::TEXT));
    assert!(both.contains(ImageAnalysisTypes::MACHINE_READABLE_CODE));
    assert!(!both.contains(ImageAnalysisTypes::VISUAL_LOOK_UP));
    assert!(both.contains(ImageAnalysisTypes::NONE));
    assert_eq!(
        both | ImageAnalysisTypes::VISUAL_LOOK_UP,
        ImageAnalysisTypes::ALL
    );
    assert_eq!(ImageAnalysisTypes::ALL.bits(), 7);
    assert_eq!(ImageAnalysisTypes::new(7), ImageAnalysisTypes::ALL);
    assert_eq!(ImageAnalysisTypes::new(3), both);
    assert_eq!(ImageAnalysisTypes::new(1 << 40).bits(), 1 << 40);
    assert_eq!(ImageAnalysisTypes::default(), ImageAnalysisTypes::NONE);

    let mut accumulated = ImageAnalysisTypes::default();
    accumulated |= ImageAnalysisTypes::VISUAL_LOOK_UP;
    accumulated |= ImageAnalysisTypes::TEXT;
    assert_eq!(accumulated.bits(), 5);
    assert_eq!(
        accumulated,
        ImageAnalysisTypes::VISUAL_LOOK_UP | ImageAnalysisTypes::TEXT
    );
}

#[test]
fn orientations_have_their_core_graphics_values() {
    let all = [
        (ImageOrientation::Up, 1),
        (ImageOrientation::UpMirrored, 2),
        (ImageOrientation::Down, 3),
        (ImageOrientation::DownMirrored, 4),
        (ImageOrientation::LeftMirrored, 5),
        (ImageOrientation::Right, 6),
        (ImageOrientation::RightMirrored, 7),
        (ImageOrientation::Left, 8),
    ];
    for (orientation, raw) in all {
        assert_eq!(orientation.raw_value(), raw);
    }
    assert_eq!(ImageOrientation::default(), ImageOrientation::Up);
}

#[test]
fn configuration_replaces_locales() {
    let configuration = ImageAnalyzerConfiguration::new(ImageAnalysisTypes::TEXT);
    assert!(configuration.locales().is_empty());
    assert_eq!(configuration.analysis_types(), ImageAnalysisTypes::TEXT);
    let configuration = configuration
        .with_locales(&["en-US", "de-DE"])
        .with_locales(&["fr-FR"]);
    assert_eq!(configuration.locales(), &[String::from("fr-FR")]);
    assert_eq!(configuration.analysis_types(), ImageAnalysisTypes::TEXT);
}
