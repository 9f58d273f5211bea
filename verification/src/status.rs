//! Status codes of the Swift bridge and the rules that turn a status, with
//! the message and payload that came with it, into a result.
use vstd::prelude::*;

use crate::error::{VisionKitError, VisionKitErrorView};
use crate::text::{contains_text, push_signed_decimal, signed_decimal, text_contains};

verus! {

/// The call succeeded.
pub const OK: i32 = 0;
/// VisionKit rejected an argument.
pub const INVALID_ARGUMENT: i32 = -1;
/// The API needs a newer macOS.
pub const UNAVAILABLE_ON_THIS_MACOS: i32 = -2;
/// VisionKit did not finish in time.
pub const TIMED_OUT: i32 = -3;
/// The API does not exist on this platform.
pub const UNAVAILABLE_ON_THIS_PLATFORM: i32 = -4;
/// The image analyzer is not supported on this Mac.
pub const ANALYZER_NOT_SUPPORTED: i32 = -10;
/// A framework-level failure.
pub const FRAMEWORK_ERROR: i32 = -20;
/// Any other failure.
pub const UNKNOWN: i32 = -99;

/// The error that a failing status stands for, carrying `message`.
pub open spec fn status_error(status: i32, message: Seq<char>) -> VisionKitErrorView {
    if status == INVALID_ARGUMENT {
        VisionKitErrorView::InvalidArgument(message)
    } else if status == UNAVAILABLE_ON_THIS_MACOS {
        VisionKitErrorView::UnavailableOnThisMacOS(message)
    } else if status == UNAVAILABLE_ON_THIS_PLATFORM {
        VisionKitErrorView::UnavailableOnThisPlatform(message)
    } else if status == TIMED_OUT {
        VisionKitErrorView::TimedOut(message)
    } else if status == ANALYZER_NOT_SUPPORTED {
        VisionKitErrorView::AnalyzerNotSupported(message)
    } else if status == FRAMEWORK_ERROR {
        VisionKitErrorView::Framework(message)
    } else {
        VisionKitErrorView::Unknown(message)
    }
}

/// The message used when the bridge reports a failure without one.
pub open spec fn default_status_message(status: i32) -> Seq<char> {
    "Swift bridge call failed with status code "@ + signed_decimal(status as int)
}

/// The message of a failure: the bridge's own, or the default one.
pub open spec fn failure_message(status: i32, message: Option<Seq<char>>) -> Seq<char> {
    match message {
        Some(m) => m,
        None => default_status_message(status),
    }
}

/// The view of an optional message.
pub open spec fn option_text(message: Option<String>) -> Option<Seq<char>> {
    match message {
        Some(m) => Some(m@),
        None => None,
    }
}

/// Maps a failing bridge status and its message to the error it stands for.
pub fn error_for_status(status: i32, message: String) -> (e: VisionKitError)
    ensures
        e@ == status_error(status, message@),
{
    if status == INVALID_ARGUMENT {
        VisionKitError::InvalidArgument(message)
    } else if status == UNAVAILABLE_ON_THIS_MACOS {
        VisionKitError::UnavailableOnThisMacOS(message)
    } else if status == UNAVAILABLE_ON_THIS_PLATFORM {
        VisionKitError::UnavailableOnThisPlatform(message)
    } else if status == TIMED_OUT {
        VisionKitError::TimedOut(message)
    } else if status == ANALYZER_NOT_SUPPORTED {
        VisionKitError::AnalyzerNotSupported(message)
    } else if status == FRAMEWORK_ERROR {
        VisionKitError::Framework(message)
    } else {
        VisionKitError::Unknown(message)
    }
}

/// The message used when the bridge reports a failure without one.
pub fn status_message(status: i32) -> (s: String)
    ensures
        s@ == default_status_message(status),
{
    let mut s = String::from_str("Swift bridge call failed with status code ");
    push_signed_decimal(&mut s, status);
    s
}

/// Maps a failing bridge status and the message it returned, if any, to an
/// error; without a message the error says which status code failed.
pub fn error_from_status(status: i32, message: Option<String>) -> (e: VisionKitError)
    ensures
        e@ == status_error(status, failure_message(status, option_text(message))),
{
    let text = match message {
        Some(m) => m,
        None => status_message(status),
    };
    error_for_status(status, text)
}

/// The result of a bridge call that returns nothing: `Ok` exactly when the
/// status is [`OK`].
pub fn status_to_unit(status: i32, message: Option<String>) -> (r: Result<(), VisionKitError>)
    ensures
        status == OK <==> r is Ok,
        r matches Err(e) ==> e@ == status_error(status, failure_message(status, option_text(message))),
{
    if status == OK {
        Ok(())
    } else {
        Err(error_from_status(status, message))
    }
}

/// The result of a bridge call that reports a flag as an integer: on
/// success, whether the flag is non-zero.
pub fn status_to_bool(status: i32, value: i32, message: Option<String>) -> (r: Result<bool, VisionKitError>)
    ensures
        status == OK <==> r is Ok,
        r matches Ok(b) ==> b == (value != 0),
        r matches Err(e) ==> e@ == status_error(status, failure_message(status, option_text(message))),
{
    if status == OK {
        Ok(value != 0)
    } else {
        Err(error_from_status(status, message))
    }
}

/// The phrase by which the bridge's timeout message says that an analysis
/// waited in vain for the main queue.
pub open spec fn main_thread_phrase() -> Seq<char> {
    "main thread"@
}

/// The error that a failing analysis status stands for: a timeout whose
/// message names the main thread means that nothing serviced the main
/// queue; every other status maps as for any bridge call.
pub open spec fn analysis_status_error(status: i32, message: Seq<char>) -> VisionKitErrorView {
    if status == TIMED_OUT && contains_text(message, main_thread_phrase()) {
        VisionKitErrorView::MainRunLoopNotRunning(message)
    } else {
        status_error(status, message)
    }
}

/// An analysis fails with `MainRunLoopNotRunning` only on a timeout, and
/// the message it then carries names the main thread.
pub proof fn lemma_unserviced_main_queue_names_main_thread(status: i32, message: Seq<char>)
    ensures
        analysis_status_error(status, message) matches VisionKitErrorView::MainRunLoopNotRunning(m) ==> status
            == TIMED_OUT && m == message && contains_text(m, main_thread_phrase()),
{
}

/// Maps a failing analysis status and the message it returned, if any, to
/// an error, telling a main queue that was never serviced apart from an
/// ordinary timeout.
pub fn analysis_error_from_status(status: i32, message: Option<String>) -> (e: VisionKitError)
    ensures
        e@ == analysis_status_error(status, failure_message(status, option_text(message))),
{
    let e = error_from_status(status, message);
    match e {
        VisionKitError::TimedOut(m) => {
            if text_contains(m.as_str(), "main thread") {
                VisionKitError::MainRunLoopNotRunning(m)
            } else {
                VisionKitError::TimedOut(m)
            }
        },
        other => other,
    }
}

} // verus!
