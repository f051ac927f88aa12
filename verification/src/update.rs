//! Looking for a later release.
//!
//! The caller asks the releases service for the latest release and hands over
//! what came back: the status of the response, then its body. This module
//! judges the status, reads the release's tag out of the body, and compares it
//! with the running version.

use crate::text::{decimal, decimal_text};
use crate::version::{
    is_newer_version, newer_than, strip_marks, strip_version_prefix, version_numbers,
};
use vstd::prelude::*;
use vstd::string::StringExecFns;

verus! {

/// The member of the release document that names the release.
pub const TAG_MEMBER: &'static str = "tag_name";

/// The answer to a lookup.
#[derive(Debug, PartialEq, Eq)]
pub struct UpdateReport {
    pub has_update: bool,
    pub current_version: String,
    /// The latest release, without the `v` in front of it.
    pub latest_version: String,
}

/// Why a lookup failed.
#[derive(Debug, PartialEq, Eq)]
pub enum UpdateError {
    /// The request could not be sent or the response not be received.
    Transport { detail: String },
    /// The service answered with a status outside 200 to 299. `reason` is the
    /// phrase that goes with the code, such as `Not Found`.
    HttpStatus { code: u16, reason: String },
    /// The body is no JSON document. `detail` is the parser's own description.
    InvalidJson { detail: String },
    /// The document has no tag that is a string.
    MissingTag,
}

/// `serde_json::Error`, the parser's error, carried through unopened.
#[verifier::external_type_specification]
#[verifier::external_body]
pub struct ExJsonError(serde_json::Error);

/// What `serde_json` finds in `body` under `key`: nothing at all where `body`
/// is no JSON document; otherwise the text of that member, if `body` is an
/// object that has the member and the member is a string.
pub uninterp spec fn json_text_member(body: Seq<u8>, key: Seq<char>) -> Option<Option<Seq<char>>>;

/// What a parse gave, as plain values.
pub open spec fn member_found(found: Result<Option<String>, serde_json::Error>) -> Option<
    Option<Seq<char>>,
> {
    match found {
        Ok(Some(text)) => Some(Some(text@)),
        Ok(None) => Some(None),
        Err(_) => None,
    }
}

/// Parses `body` with `serde_json::from_slice` into a `serde_json::Value`,
/// looks `key` up with `Value::get` and takes the member's text with
/// `Value::as_str`. The contract only gives the result its name: the same
/// bytes and key always give the same result.
#[verifier::external_body]
fn read_text_member(body: &[u8], key: &str) -> (found: Result<Option<String>, serde_json::Error>)
    ensures
        member_found(found) == json_text_member(body@, key@),
{
    let document: serde_json::Value = serde_json::from_slice(body)?;
    Ok(document.get(key).and_then(serde_json::Value::as_str).map(str::to_owned))
}

/// The text that `serde_json::Error` shows for itself. Nothing is claimed of it.
#[verifier::external_body]
fn describe_json_error(error: &serde_json::Error) -> String {
    error.to_string()
}

/// A status counts as success from 200 to 299.
pub open spec fn is_success(code: u16) -> bool {
    200 <= code < 300
}

pub fn status_is_success(code: u16) -> (success: bool)
    ensures
        success == is_success(code),
{
    200 <= code && code < 300
}

/// Judges the status of the response: any status that is no success ends
/// the lookup with an error that carries it.
pub fn check_status(code: u16, reason: &str) -> (verdict: Result<(), UpdateError>)
    ensures
        match verdict {
            Ok(_) => is_success(code),
            Err(UpdateError::HttpStatus { code: carried, reason: phrase }) => {
                &&& !is_success(code)
                &&& carried == code
                &&& phrase@ == reason@
            },
            Err(_) => false,
        },
{
    if status_is_success(code) {
        Ok(())
    } else {
        Err(UpdateError::HttpStatus { code, reason: String::from_str(reason) })
    }
}

/// `report` answers a lookup that ran as version `current` and found the tag `tag`.
pub open spec fn reports(report: UpdateReport, current: Seq<char>, tag: Seq<char>) -> bool {
    &&& report.has_update == newer_than(version_numbers(current), version_numbers(tag))
    &&& report.current_version@ == current
    &&& report.latest_version@ == strip_marks(tag)
}

/// Answers the lookup from the tag of the latest release, where the
/// document had one.
pub fn release_report(current: &str, tag: Option<&str>) -> (outcome: Result<
    UpdateReport,
    UpdateError,
>)
    ensures
        match tag {
            Some(text) => outcome matches Ok(report) && reports(report, current@, text@),
            None => outcome matches Err(UpdateError::MissingTag),
        },
{
    match tag {
        Some(text) => Ok(
            UpdateReport {
                has_update: is_newer_version(current, text),
                current_version: String::from_str(current),
                latest_version: String::from_str(strip_version_prefix(text)),
            },
        ),
        None => Err(UpdateError::MissingTag),
    }
}

/// Reads the body of a successful response and answers the lookup.
///
/// A body that is no JSON document, and a document without a tag that is a
/// string, are both errors.
pub fn evaluate_release(current: &str, body: &[u8]) -> (outcome: Result<UpdateReport, UpdateError>)
    ensures
        match json_text_member(body@, TAG_MEMBER@) {
            Some(Some(tag)) => outcome matches Ok(report) && reports(report, current@, tag),
            Some(None) => outcome matches Err(UpdateError::MissingTag),
            None => outcome matches Err(UpdateError::InvalidJson { .. }),
        },
{
    match read_text_member(body, TAG_MEMBER) {
        Ok(Some(tag)) => release_report(current, Some(tag.as_str())),
        Ok(None) => release_report(current, None),
        Err(error) => Err(UpdateError::InvalidJson { detail: describe_json_error(&error) }),
    }
}

/// The one line that tells the user what went wrong. A failed status shows
/// its code in decimal digits and then its reason, as in `HTTP Error: 404 Not Found`.
pub open spec fn error_text(error: UpdateError) -> Seq<char> {
    match error {
        UpdateError::Transport { detail } => detail@,
        UpdateError::HttpStatus { code, reason } => "HTTP Error: "@ + decimal_text(code as nat)
            + " "@ + reason@,
        UpdateError::InvalidJson { .. } => "error decoding response body"@,
        UpdateError::MissingTag => "release has no tag_name"@,
    }
}

impl UpdateError {
    /// The one line that tells the user what went wrong.
    pub fn message(&self) -> (text: String)
        ensures
            text@ == error_text(*self),
    {
        match self {
            UpdateError::Transport { detail } => detail.clone(),
            UpdateError::HttpStatus { code, reason } => {
                let mut text = String::from_str("HTTP Error: ");
                text.append(decimal(*code).as_str());
                text.append(" ");
                text.append(reason.as_str());
                text
            },
            UpdateError::InvalidJson { .. } => String::from_str("error decoding response body"),
            UpdateError::MissingTag => String::from_str("release has no tag_name"),
        }
    }
}

} // verus!
