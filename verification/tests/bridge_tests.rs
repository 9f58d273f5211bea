use visionkit::bridge::{
    analysis_completion_outcome, analysis_token_outcome, buffer_length, check_c_string,
    completion_outcome, image_data_length, require_bridge_string, require_main_thread,
    status_to_string,
};
use visionkit::json::{decode_optional_u64, decode_string_list, decode_u64_list, encode_u64_list};
use visionkit::status::{
    self, analysis_error_from_status, error_for_status, error_from_status, status_to_bool, status_to_unit,
};
use visionkit::text::{push_signed_decimal, text_contains};
use visionkit::{LiveTextSubjectUnavailable, VisionKitError};

#[test]
fn statuses_map_to_their_errors() {
    let m = || String::from("m");
    assert_eq!(error_for_status(status::INVALID_ARGUMENT, m()), VisionKitError::InvalidArgument(m()));
    assert_eq!(
        error_for_status(status::UNAVAILABLE_ON_THIS_MACOS, m()),
        VisionKitError::UnavailableOnThisMacOS(m())
    );
    assert_eq!(error_for_status(status::TIMED_OUT, m()), VisionKitError::TimedOut(m()));
    assert_eq!(
        error_for_status(status::UNAVAILABLE_ON_THIS_PLATFORM, m()),
        VisionKitError::UnavailableOnThisPlatform(m())
    );
    assert_eq!(
        error_for_status(status::ANALYZER_NOT_SUPPORTED, m()),
        VisionKitError::AnalyzerNotSupported(m())
    );
    assert_eq!(error_for_status(status::FRAMEWORK_ERROR, m()), VisionKitError::Framework(m()));
    assert_eq!(error_for_status(status::UNKNOWN, m()), VisionKitError::Unknown(m()));
    assert_eq!(error_for_status(42, m()), VisionKitError::Unknown(m()));
}

#[test]
fn missing_messages_name_the_status_code() {
    assert_eq!(
        error_from_status(status::INVALID_ARGUMENT, None),
        VisionKitError::InvalidArgument(String::from(
            "Swift bridge call failed with status code -1"
        ))
    );
    assert_eq!(
        error_from_status(i32::MIN, None),
        VisionKitError::Unknown(String::from(
            "Swift bridge call failed with status code -2147483648"
        ))
    );
    assert_eq!(
        error_from_status(1234, None).to_string(),
        "Swift bridge call failed with status code 1234"
    );
    assert_eq!(
        error_from_status(status::INVALID_ARGUMENT, Some(String::from("missing file"))),
        VisionKitError::InvalidArgument(String::from("missing file"))
    );
}

#[test]
fn decimal_text_of_statuses() {
    for value in [0, 7, 10, -99, 2_147_483_647, -2_147_483_648] {
        let mut text = String::from("code ");
        push_signed_decimal(&mut text, value);
        assert_eq!(text, format!("code {value}"));
    }
}

#[test]
fn plain_results_follow_the_status() {
    assert_eq!(status_to_unit(status::OK, None), Ok(()));
    assert_eq!(
        status_to_unit(status::TIMED_OUT, Some(String::from("slow"))),
        Err(VisionKitError::TimedOut(String::from("slow")))
    );
    assert_eq!(status_to_bool(status::OK, 2, None), Ok(true));
    assert_eq!(status_to_bool(status::OK, 0, None), Ok(false));
    assert!(status_to_bool(status::FRAMEWORK_ERROR, 1, None).is_err());
    assert_eq!(
        status_to_string(status::OK, Some(String::from("hello")), None, "transcript"),
        Ok(String::from("hello"))
    );
    assert_eq!(
        status_to_string(status::OK, None, None, "image analysis transcript"),
        Err(VisionKitError::Unknown(String::from(
            "missing image analysis transcript response from Swift bridge"
        )))
    );
    assert_eq!(
        require_bridge_string(Some(String::from("x")), "ctx"),
        Ok(String::from("x"))
    );
}

#[test]
fn analysis_handles_must_not_be_empty() {
    assert_eq!(analysis_token_outcome(status::OK, false, None, "CGImage image analysis"), Ok(()));
    assert_eq!(
        analysis_token_outcome(status::OK, true, None, "CGImage image analysis"),
        Err(VisionKitError::Unknown(String::from(
            "Swift bridge returned an empty image analysis token for CGImage image analysis"
        )))
    );
    assert_eq!(
        analysis_token_outcome(status::INVALID_ARGUMENT, true, Some(String::from("no file")), "x"),
        Err(VisionKitError::InvalidArgument(String::from("no file")))
    );
    assert_eq!(
        completion_outcome(status::OK, true, None, "Swift bridge returned no image analysis"),
        Err(VisionKitError::Unknown(String::from("Swift bridge returned no image analysis")))
    );
    assert_eq!(completion_outcome(status::OK, false, None, "unused"), Ok(()));
    assert_eq!(
        completion_outcome(status::TIMED_OUT, false, None, "unused"),
        Err(VisionKitError::TimedOut(String::from(
            "Swift bridge call failed with status code -3"
        )))
    );
}

#[test]
fn c_strings_reject_interior_nul() {
    assert_eq!(check_c_string("/tmp/image.png"), Ok(()));
    assert_eq!(
        check_c_string("a\0b"),
        Err(VisionKitError::InvalidArgument(String::from(
            "string contained an interior NUL byte"
        )))
    );
}

#[test]
fn json_payloads_decode_and_encode() {
    assert_eq!(
        decode_string_list(r#"["b","a"]"#, "list"),
        Ok(vec![String::from("b"), String::from("a")])
    );
    assert_eq!(decode_u64_list("[3, 18446744073709551615]", "subjects"), Ok(vec![3, u64::MAX]));
    assert_eq!(decode_optional_u64("null", "subject"), Ok(None));
    assert_eq!(decode_optional_u64("77", "subject"), Ok(Some(77)));
    match decode_u64_list("[-1]", "live text interaction subjects") {
        Err(VisionKitError::Unknown(message)) => assert!(message
            .starts_with("failed to decode live text interaction subjects JSON payload: ")),
        other => panic!("expected a decoding error, got {other:?}"),
    }
    assert_eq!(encode_u64_list(&vec![]), "[]");
    assert_eq!(encode_u64_list(&vec![1, 23, 0]), "[1,23,0]");
}

#[test]
fn errors_describe_themselves() {
    assert_eq!(
        VisionKitError::LiveTextSubjectUnavailable(LiveTextSubjectUnavailable::ImageUnavailable)
            .to_string(),
        "subject image is unavailable"
    );
    assert_eq!(VisionKitError::Framework(String::from("boom")).to_string(), "boom");
    assert_eq!(
        VisionKitError::MainRunLoopNotRunning(String::from("the main thread is not running its run loop"))
            .to_string(),
        "the main thread is not running its run loop"
    );
    assert_eq!(
        VisionKitError::NotOnMainThread(String::from("create views on the main thread")).to_string(),
        "create views on the main thread"
    );
}

#[test]
fn null_buffers_hold_no_bytes() {
    assert_eq!(buffer_length(true, 0, "subject image"), Ok(0));
    assert_eq!(buffer_length(false, 12, "subject image"), Ok(12));
    assert_eq!(buffer_length(false, 0, "subject image"), Ok(0));
    assert_eq!(
        buffer_length(true, 12, "live text subject image"),
        Err(VisionKitError::Unknown(String::from(
            "missing live text subject image buffer from Swift bridge"
        )))
    );
}

#[test]
fn overlay_views_need_the_main_thread() {
    assert_eq!(require_main_thread(true, "LiveTextInteraction"), Ok(()));
    assert_eq!(
        require_main_thread(false, "LiveTextInteraction"),
        Err(VisionKitError::NotOnMainThread(String::from(
            "LiveTextInteraction must be created on the main thread"
        )))
    );
}

#[test]
fn decoding_errors_carry_the_parser_description() {
    for text in ["[1,", "{}", "[\"a\" \"b\"]"] {
        let detail = serde_json::from_str::<Vec<String>>(text).unwrap_err().to_string();
        assert_eq!(
            decode_string_list(text, "list"),
            Err(VisionKitError::Unknown(format!("failed to decode list JSON payload: {detail}")))
        );
    }
    let detail = serde_json::from_str::<Vec<u64>>("[-1]").unwrap_err().to_string();
    assert_eq!(
        decode_u64_list("[-1]", "subjects"),
        Err(VisionKitError::Unknown(format!("failed to decode subjects JSON payload: {detail}")))
    );
    let detail = serde_json::from_str::<Option<u64>>("true").unwrap_err().to_string();
    assert_eq!(
        decode_optional_u64("true", "subject"),
        Err(VisionKitError::Unknown(format!("failed to decode subject JSON payload: {detail}")))
    );
}

#[test]
fn text_search_finds_runs_anywhere() {
    assert!(text_contains("waited for the main thread", "main thread"));
    assert!(text_contains("main thread", "main thread"));
    assert!(text_contains("anything", ""));
    assert!(text_contains("", ""));
    assert!(!text_contains("main-thread", "main thread"));
    assert!(!text_contains("main threa", "main thread"));
    assert!(text_contains("zürich – main thread", "main thread"));
}

#[test]
fn an_unserviced_main_queue_is_told_apart_from_a_timeout() {
    let unserviced = "image analysis did not finish: nothing serviced the main queue on the main thread";
    match analysis_error_from_status(status::TIMED_OUT, Some(String::from(unserviced))) {
        VisionKitError::MainRunLoopNotRunning(message) => {
            assert_eq!(message, unserviced);
            assert!(message.contains("main thread"));
        }
        other => panic!("expected MainRunLoopNotRunning, got {other:?}"),
    }
    assert_eq!(
        analysis_error_from_status(status::TIMED_OUT, Some(String::from("analysis timed out after 60 seconds"))),
        VisionKitError::TimedOut(String::from("analysis timed out after 60 seconds"))
    );
    assert_eq!(
        analysis_error_from_status(status::TIMED_OUT, None),
        VisionKitError::TimedOut(String::from("Swift bridge call failed with status code -3"))
    );
    assert_eq!(
        analysis_error_from_status(status::FRAMEWORK_ERROR, Some(String::from("main thread"))),
        VisionKitError::Framework(String::from("main thread"))
    );
}

#[test]
fn analyses_report_an_unserviced_main_queue_both_ways() {
    let message = || Some(String::from("timed out waiting for the main thread"));
    assert_eq!(
        analysis_token_outcome(status::TIMED_OUT, true, message(), "image at path"),
        Err(VisionKitError::MainRunLoopNotRunning(String::from("timed out waiting for the main thread")))
    );
    assert_eq!(
        analysis_completion_outcome(status::TIMED_OUT, true, message(), "Swift bridge returned no image analysis"),
        Err(VisionKitError::MainRunLoopNotRunning(String::from("timed out waiting for the main thread")))
    );
    assert_eq!(
        analysis_completion_outcome(status::OK, true, None, "Swift bridge returned no image analysis"),
        Err(VisionKitError::Unknown(String::from("Swift bridge returned no image analysis")))
    );
    assert_eq!(analysis_completion_outcome(status::OK, false, None, "unused"), Ok(()));
    assert_eq!(
        analysis_completion_outcome(status::INVALID_ARGUMENT, false, None, "unused"),
        Err(VisionKitError::InvalidArgument(String::from("Swift bridge call failed with status code -1")))
    );
}

#[test]
fn image_data_lengths_follow_status_width_and_buffer() {
    assert_eq!(image_data_length(status::OK, None, 42, false, "subject image"), Ok(42));
    assert_eq!(image_data_length(status::OK, None, 0, true, "subject image"), Ok(0));
    assert_eq!(
        image_data_length(status::OK, None, 42, true, "subject image"),
        Err(VisionKitError::Unknown(String::from("missing subject image buffer from Swift bridge")))
    );
    assert_eq!(
        image_data_length(status::FRAMEWORK_ERROR, Some(String::from("no subject")), 42, false, "subject image"),
        Err(VisionKitError::Framework(String::from("no subject")))
    );
    assert_eq!(
        image_data_length(status::TIMED_OUT, None, 0, true, "subject image"),
        Err(VisionKitError::TimedOut(String::from("Swift bridge call failed with status code -3")))
    );
}
