//! JSON payloads of the Swift bridge that hold plain values: lists of
//! strings, lists of subject handles and optional subject handles. The
//! decoding and encoding is serde_json's; what the library does with the
//! outcome is verified here.
use vstd::prelude::*;

use crate::error::{VisionKitError, VisionKitErrorView};
use crate::text::decimal_digits;
use crate::text_order::string_views;

verus! {

/// serde_json's error type, carried without looking inside.
#[verifier::external_type_specification]
#[verifier::external_body]
pub struct ExJsonError(serde_json::Error);

/// What serde_json makes of `text` as a JSON array of strings: the list,
/// or the `Display` text of the error it rejects the text with.
pub uninterp spec fn json_string_list(text: Seq<char>) -> Result<Seq<Seq<char>>, Seq<char>>;

/// What serde_json makes of `text` as a JSON array of unsigned 64-bit
/// integers: the list, or the `Display` text of its error.
pub uninterp spec fn json_u64_list(text: Seq<char>) -> Result<Seq<u64>, Seq<char>>;

/// What serde_json makes of `text` as a JSON unsigned 64-bit integer or
/// `null`: the value, or the `Display` text of its error.
pub uninterp spec fn json_optional_u64(text: Seq<char>) -> Result<Option<u64>, Seq<char>>;

/// Reads `text` as a JSON array of strings with `serde_json::from_str`,
/// and renders a rejection with the error's `Display`. The contract names
/// both outcomes as functions of the text alone.
#[verifier::external_body]
fn read_string_list(text: &str) -> (r: Result<Vec<String>, String>)
    ensures
        match json_string_list(text@) {
            Ok(list) => r matches Ok(v) && string_views(v@) == list,
            Err(m) => r matches Err(e) && e@ == m,
        },
{
    match serde_json::from_str::<Vec<String>>(text) {
        Ok(v) => Ok(v),
        Err(e) => Err(format!("{e}")),
    }
}

/// Reads `text` as a JSON array of `u64` with `serde_json::from_str`; the
/// contract is that of [`read_string_list`] for this element type.
#[verifier::external_body]
fn read_u64_list(text: &str) -> (r: Result<Vec<u64>, String>)
    ensures
        match json_u64_list(text@) {
            Ok(list) => r matches Ok(v) && v@ == list,
            Err(m) => r matches Err(e) && e@ == m,
        },
{
    match serde_json::from_str::<Vec<u64>>(text) {
        Ok(v) => Ok(v),
        Err(e) => Err(format!("{e}")),
    }
}

/// Reads `text` as a JSON `u64` or `null` with `serde_json::from_str`; the
/// contract is that of [`read_string_list`] for this type.
#[verifier::external_body]
fn read_optional_u64(text: &str) -> (r: Result<Option<u64>, String>)
    ensures
        match json_optional_u64(text@) {
            Ok(value) => r matches Ok(v) && v == value,
            Err(m) => r matches Err(e) && e@ == m,
        },
{
    match serde_json::from_str::<Option<u64>>(text) {
        Ok(v) => Ok(v),
        Err(e) => Err(format!("{e}")),
    }
}

/// The comma-separated decimal numbers of a list, as serde_json writes the
/// elements of a JSON array of integers.
pub open spec fn json_u64_items(s: Seq<u64>) -> Seq<char>
    decreases s.len(),
{
    if s.len() == 0 {
        Seq::empty()
    } else if s.len() == 1 {
        decimal_digits(s[0] as nat)
    } else {
        json_u64_items(s.drop_last()) + seq![','] + decimal_digits(s.last() as nat)
    }
}

/// The compact JSON array of a list of unsigned integers.
pub open spec fn json_u64_array(s: Seq<u64>) -> Seq<char> {
    seq!['['] + json_u64_items(s) + seq![']']
}

/// Writes a list of `u64` as compact JSON with `serde_json::to_string`,
/// which for this type never fails and writes `[`, the decimal numbers
/// separated by commas, and `]`.
#[verifier::external_body]
fn write_u64_list(values: &Vec<u64>) -> (r: Result<String, serde_json::Error>)
    ensures
        r is Ok,
        r matches Ok(s) ==> s@ == json_u64_array(values@),
{
    serde_json::to_string(values)
}

/// The start of the message for a payload that could not be decoded.
pub open spec fn decode_failure_prefix(context: Seq<char>) -> Seq<char> {
    "failed to decode "@ + context + " JSON payload: "@
}

/// The error for a payload that could not be decoded: the prefix naming
/// the payload, then serde_json's own description.
pub open spec fn decode_failure(context: Seq<char>, detail: Seq<char>) -> VisionKitErrorView {
    VisionKitErrorView::Unknown(decode_failure_prefix(context) + detail)
}

fn decode_error(detail: String, context: &str) -> (e: VisionKitError)
    ensures
        e@ == decode_failure(context@, detail@),
{
    let mut m = String::from_str("failed to decode ");
    m.append(context);
    m.append(" JSON payload: ");
    m.append(detail.as_str());
    VisionKitError::Unknown(m)
}

/// Decodes a JSON array of strings; `context` names the payload in the
/// error for text that does not decode.
pub fn decode_string_list(text: &str, context: &str) -> (r: Result<Vec<String>, VisionKitError>)
    ensures
        match json_string_list(text@) {
            Ok(list) => r matches Ok(v) && string_views(v@) == list,
            Err(m) => r matches Err(e) && e@ == decode_failure(context@, m),
        },
{
    match read_string_list(text) {
        Ok(v) => Ok(v),
        Err(detail) => Err(decode_error(detail, context)),
    }
}

/// Decodes a JSON array of subject handles.
pub fn decode_u64_list(text: &str, context: &str) -> (r: Result<Vec<u64>, VisionKitError>)
    ensures
        match json_u64_list(text@) {
            Ok(list) => r matches Ok(v) && v@ == list,
            Err(m) => r matches Err(e) && e@ == decode_failure(context@, m),
        },
{
    match read_u64_list(text) {
        Ok(v) => Ok(v),
        Err(detail) => Err(decode_error(detail, context)),
    }
}

/// Decodes a JSON subject handle or `null`.
pub fn decode_optional_u64(text: &str, context: &str) -> (r: Result<Option<u64>, VisionKitError>)
    ensures
        match json_optional_u64(text@) {
            Ok(value) => r matches Ok(v) && v == value,
            Err(m) => r matches Err(e) && e@ == decode_failure(context@, m),
        },
{
    match read_optional_u64(text) {
        Ok(v) => Ok(v),
        Err(detail) => Err(decode_error(detail, context)),
    }
}

/// Encodes a list of subject handles as a compact JSON array.
pub fn encode_u64_list(values: &Vec<u64>) -> (s: String)
    ensures
        s@ == json_u64_array(values@),
{
    match write_u64_list(values) {
        Ok(s) => s,
        Err(_) => {
            proof {
                assert(false);
            }
            String::new()
        },
    }
}

} // verus!
