//! Rules for the payloads of the Swift bridge: required string responses,
//! returned handles, asynchronous completions, and text handed to it as C
//! strings.
use vstd::prelude::*;

use crate::error::{VisionKitError, VisionKitErrorView};
use crate::live_text_interaction::{address_width_message, u64_to_usize};
use crate::status::{
    analysis_error_from_status, analysis_status_error, error_from_status, failure_message, option_text,
    status_error, status_to_unit, OK,
};

verus! {

/// The message for a string response the bridge failed to provide.
pub open spec fn missing_response_message(context: Seq<char>) -> Seq<char> {
    "missing "@ + context + " response from Swift bridge"@
}

/// Requires the string response of a successful bridge call.
pub fn require_bridge_string(value: Option<String>, context: &str) -> (r: Result<String, VisionKitError>)
    ensures
        value is Some <==> r is Ok,
        r matches Ok(s) ==> s@ == value->0@,
        r matches Err(e) ==> e@ == VisionKitErrorView::Unknown(missing_response_message(context@)),
{
    match value {
        Some(s) => Ok(s),
        None => {
            let mut m = String::from_str("missing ");
            m.append(context);
            m.append(" response from Swift bridge");
            Err(VisionKitError::Unknown(m))
        },
    }
}

/// The result of a bridge call that returns a string: the string on success.
pub fn status_to_string(status: i32, value: Option<String>, message: Option<String>, context: &str) -> (r: Result<String, VisionKitError>)
    ensures
        r is Ok <==> (status == OK && value is Some),
        r matches Ok(s) ==> s@ == value->0@,
        r matches Err(e) ==> if status == OK {
            e@ == VisionKitErrorView::Unknown(missing_response_message(context@))
        } else {
            e@ == status_error(status, failure_message(status, option_text(message)))
        },
{
    if status == OK {
        require_bridge_string(value, context)
    } else {
        Err(error_from_status(status, message))
    }
}

/// The message for a successful analysis call that returned no analysis.
pub open spec fn empty_token_message(context: Seq<char>) -> Seq<char> {
    "Swift bridge returned an empty image analysis token for "@ + context
}

/// Decides the outcome of an analysis call from its status and whether the
/// analysis handle it returned is null.
pub fn analysis_token_outcome(status: i32, token_is_null: bool, message: Option<String>, context: &str) -> (r: Result<(), VisionKitError>)
    ensures
        r is Ok <==> (status == OK && !token_is_null),
        r matches Err(e) ==> if status == OK {
            e@ == VisionKitErrorView::Unknown(empty_token_message(context@))
        } else {
            e@ == analysis_status_error(status, failure_message(status, option_text(message)))
        },
{
    if status == OK {
        if token_is_null {
            let mut m = String::from_str("Swift bridge returned an empty image analysis token for ");
            m.append(context);
            Err(VisionKitError::Unknown(m))
        } else {
            Ok(())
        }
    } else {
        Err(analysis_error_from_status(status, message))
    }
}

/// The message for text that cannot cross the bridge as a C string.
pub open spec fn interior_nul_message() -> Seq<char> {
    "string contained an interior NUL byte"@
}

/// Checks that `value` can be handed to the bridge as a C string, that is,
/// that it holds no NUL character.
pub fn check_c_string(value: &str) -> (r: Result<(), VisionKitError>)
    ensures
        r is Ok <==> !value@.contains('\0'),
        r matches Err(e) ==> e@ == VisionKitErrorView::InvalidArgument(interior_nul_message()),
{
    let n = value.unicode_len();
    let mut i: usize = 0;
    while i < n
        invariant
            n == value@.len(),
            i <= n,
            forall|k: int| 0 <= k < i ==> value@[k] != '\0',
        decreases n - i,
    {
        if value.get_char(i) == '\0' {
            return Err(VisionKitError::InvalidArgument(String::from_str("string contained an interior NUL byte")));
        }
        i = i + 1;
    }
    Ok(())
}

/// Decides the outcome of an asynchronous completion from its status,
/// whether its result is null, and the error text it carried; `missing` is
/// the message for a successful completion without a result.
pub fn completion_outcome(status: i32, result_is_null: bool, error: Option<String>, missing: &str) -> (r: Result<(), VisionKitError>)
    ensures
        r is Ok <==> (status == OK && !result_is_null),
        r matches Err(e) ==> if status == OK {
            e@ == VisionKitErrorView::Unknown(missing@)
        } else {
            e@ == status_error(status, failure_message(status, option_text(error)))
        },
{
    if status != OK {
        Err(error_from_status(status, error))
    } else if result_is_null {
        Err(VisionKitError::Unknown(String::from_str(missing)))
    } else {
        Ok(())
    }
}

/// Decides the outcome of an asynchronous analysis from its completion's
/// status, whether the analysis it delivered is null, and the error text it
/// carried; failures map as for a synchronous analysis.
pub fn analysis_completion_outcome(status: i32, result_is_null: bool, error: Option<String>, missing: &str) -> (r: Result<(), VisionKitError>)
    ensures
        r is Ok <==> (status == OK && !result_is_null),
        r matches Err(e) ==> if status == OK {
            e@ == VisionKitErrorView::Unknown(missing@)
        } else {
            e@ == analysis_status_error(status, failure_message(status, option_text(error)))
        },
{
    if status != OK {
        Err(analysis_error_from_status(status, error))
    } else if result_is_null {
        Err(VisionKitError::Unknown(String::from_str(missing)))
    } else {
        Ok(())
    }
}

/// The message for a buffer the bridge announced but did not hand over.
pub open spec fn missing_buffer_message(context: Seq<char>) -> Seq<char> {
    "missing "@ + context + " buffer from Swift bridge"@
}

/// How many bytes to copy out of a buffer the bridge handed over, given
/// whether its pointer is null and the length it reported: a null buffer
/// stands for no bytes, and is an error when a length was reported.
pub fn buffer_length(is_null: bool, len: usize, context: &str) -> (r: Result<usize, VisionKitError>)
    ensures
        r is Ok <==> (!is_null || len == 0),
        r matches Ok(n) ==> n == len,
        r matches Err(e) ==> e@ == VisionKitErrorView::Unknown(missing_buffer_message(context@)),
{
    if is_null && len != 0 {
        let mut m = String::from_str("missing ");
        m.append(context);
        m.append(" buffer from Swift bridge");
        Err(VisionKitError::Unknown(m))
    } else {
        Ok(len)
    }
}

/// How many bytes of image data to copy out after a bridge call that hands
/// over an image buffer: the call's status decides first, then the length
/// it reported must fit in `usize`, then a null buffer must report no bytes.
pub fn image_data_length(status: i32, message: Option<String>, len: u64, is_null: bool, context: &str) -> (r: Result<usize, VisionKitError>)
    ensures
        r is Ok <==> (status == OK && len <= usize::MAX && (!is_null || len == 0)),
        r matches Ok(n) ==> n == len,
        r matches Err(e) ==> if status != OK {
            e@ == status_error(status, failure_message(status, option_text(message)))
        } else if len > usize::MAX {
            e@ == VisionKitErrorView::Unknown(address_width_message(context@))
        } else {
            e@ == VisionKitErrorView::Unknown(missing_buffer_message(context@))
        },
{
    match status_to_unit(status, message) {
        Err(e) => Err(e),
        Ok(()) => match u64_to_usize(len, context) {
            Err(e) => Err(e),
            Ok(n) => buffer_length(is_null, n, context),
        },
    }
}

/// The message for a main-thread-only view created on another thread.
pub open spec fn main_thread_message(view_name: Seq<char>) -> Seq<char> {
    view_name + " must be created on the main thread"@
}

/// Checks that a view wrapping a main-actor AppKit object is created on the
/// main thread.
pub fn require_main_thread(on_main_thread: bool, view_name: &str) -> (r: Result<(), VisionKitError>)
    ensures
        r is Ok <==> on_main_thread,
        r matches Err(e) ==> e@ == VisionKitErrorView::NotOnMainThread(main_thread_message(view_name@)),
{
    if on_main_thread {
        Ok(())
    } else {
        let mut m = String::from_str(view_name);
        m.append(" must be created on the main thread");
        Err(VisionKitError::NotOnMainThread(m))
    }
}

} // verus!
