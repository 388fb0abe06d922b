//! The marker updater: the merge patch that records a task on a node.
//!
//! The patch is a JSON document that sets one annotation and leaves the rest
//! of the node alone. Key and value are encoded as JSON strings by
//! `serde_json`; the document around them is fixed.

use crate::errors::{PersistFailure, PersistFailureView, TaskError, TaskErrorView};
use crate::json::{encode_string, error_text, json_string};
use vstd::prelude::*;
use vstd::string::StrSliceExecFns;
use vstd::string::StringSliceAdditionalSpecFns;

verus! {

/// The bytes that open the patch, up to the annotation's key.
pub open spec fn patch_head() -> Seq<u8> {
    "{\"metadata\":{\"annotations\":{".spec_bytes()
}

/// The bytes between the annotation's key and its value.
pub open spec fn patch_colon() -> Seq<u8> {
    ":".spec_bytes()
}

/// The bytes that close the patch after the annotation's value.
pub open spec fn patch_tail() -> Seq<u8> {
    "}}}".spec_bytes()
}

/// The merge patch that sets one annotation, given the JSON texts of its key
/// and of its value.
pub open spec fn patch_document(key_json: Seq<u8>, value_json: Seq<u8>) -> Seq<u8> {
    patch_head() + key_json + patch_colon() + value_json + patch_tail()
}

/// Puts the JSON texts of an annotation's key and value into the merge patch
/// that sets this annotation under the node's metadata.
pub fn frame_patch(key_json: Vec<u8>, value_json: Vec<u8>) -> (body: Vec<u8>)
    ensures
        body@ == patch_document(key_json@, value_json@),
{
    let mut key_json = key_json;
    let mut value_json = value_json;
    let mut colon = ":".as_bytes_vec();
    let mut tail = "}}}".as_bytes_vec();
    let mut body = "{\"metadata\":{\"annotations\":{".as_bytes_vec();
    body.append(&mut key_json);
    body.append(&mut colon);
    body.append(&mut value_json);
    body.append(&mut tail);
    body
}

/// The merge patch that sets the annotation `key` to `value`.
pub open spec fn marker_patch_of(key: Seq<char>, value: Seq<char>) -> Seq<u8> {
    patch_document(json_string(key), json_string(value))
}

/// The failure that an error of the encoder amounts to.
fn encoding_failure(error: &serde_json::Error) -> (failure: TaskError)
    ensures
        failure@ matches TaskErrorView::MarkerPersist(PersistFailureView::Encoding(_)),
{
    TaskError::MarkerPersist(PersistFailure::Encoding(error_text(error)))
}

/// Builds the merge patch that sets the annotation `key` to `value`. The
/// patch is built for every key and every value.
pub fn marker_patch(key: &String, value: &String) -> (r: Result<Vec<u8>, TaskError>)
    ensures
        r matches Ok(body) && body@ == marker_patch_of(key@, value@),
{
    let key_json = match encode_string(key.as_str()) {
        Ok(bytes) => bytes,
        Err(error) => {
            return Err(encoding_failure(&error));
        },
    };
    let value_json = match encode_string(value.as_str()) {
        Ok(bytes) => bytes,
        Err(error) => {
            return Err(encoding_failure(&error));
        },
    };
    Ok(frame_patch(key_json, value_json))
}

} // verus!
