//! The authorization flow: what the helper's output means.
//!
//! The helper is run by the caller. It writes a record as the last line of
//! its standard output: a JSON object with a member `status`, and with a
//! member `message` where it has something to say.

use vstd::prelude::*;
use crate::error::{CommandError, ErrorView};
use crate::json::{
    error_text, json_member, json_parse, json_string, json_text, member, parse, render,
    string_value,
};
use crate::text::{find_last_nonempty_line, last_nonempty_line};

verus! {

/// The line that holds the helper's record: the last line of its output
/// that is not empty, and an empty object where it wrote no such line.
pub open spec fn record_line(output: Seq<char>) -> Seq<char> {
    match last_nonempty_line(output) {
        Some(line) => line,
        None => "{}"@,
    }
}

/// The failure that a record stands for, if it stands for one. `status` and
/// `message` are the compact texts of the record's members, `success` is the
/// compact text of the status that means success, and `fallback` is shown
/// where the record has no message.
pub open spec fn verdict(
    status: Option<Seq<char>>,
    message: Option<Seq<char>>,
    success: Seq<char>,
    fallback: Seq<char>,
) -> Option<ErrorView> {
    if status == Some(success) {
        None
    } else {
        Some(
            ErrorView::OAuthFailed(
                match message {
                    Some(text) => text,
                    None => fallback,
                },
            ),
        )
    }
}

/// Judges a record by its members: it stands for success exactly when its
/// status is the one that means success. Any other record, also one without
/// a status, is a failure that shows the record's message, or `fallback`
/// where it has none.
pub fn judge_record(
    status: Option<String>,
    message: Option<String>,
    success: &str,
    fallback: String,
) -> (result: Result<(), CommandError>)
    ensures
        match result {
            Ok(_) => verdict(view_of(status), view_of(message), success@, fallback@) is None,
            Err(error) => verdict(view_of(status), view_of(message), success@, fallback@) == Some(
                error@,
            ),
        },
{
    let expected = success.to_owned();
    let succeeded = match &status {
        Some(text) => *text == expected,
        None => false,
    };
    if succeeded {
        Ok(())
    } else {
        match message {
            Some(text) => Err(CommandError::OAuthFailed(text)),
            None => Err(CommandError::OAuthFailed(fallback)),
        }
    }
}

/// The text that an optional string holds.
pub open spec fn view_of(text: Option<String>) -> Option<Seq<char>> {
    match text {
        Some(held) => Some(held@),
        None => None,
    }
}

/// The failure that the document with the compact text `document` stands
/// for, if it stands for one, where the helper wrote `errors` to its
/// standard error: the document is a success exactly when its member
/// `status` is the string `success`; otherwise the failure shows its member
/// `message`, or `errors` as a JSON string where it has none.
pub open spec fn record_failure(document: Seq<char>, errors: Seq<char>) -> Option<ErrorView> {
    verdict(
        json_member(document, "status"@),
        json_member(document, "message"@),
        json_string("success"@),
        json_string(errors),
    )
}

/// Reads the result of the authorization flow from what the helper wrote:
/// `output` to its standard output, `errors` to its standard error.
///
/// Where the record line is no JSON, the error holds the whole output. Where
/// the record stands for success, the result is the record itself.
pub fn read_result(output: &str, errors: &str) -> (result: Result<serde_json::Value, CommandError>)
    ensures
        match json_parse(record_line(output@)) {
            None => result matches Err(CommandError::OAuthProtocolError { output: shown, .. })
                && shown@ == output@,
            Some(document) => match record_failure(document, errors@) {
                None => result matches Ok(record) && json_text(record) == document,
                Some(failure) => result matches Err(error) && error@ == failure,
            },
        },
{
    let line = match find_last_nonempty_line(output) {
        Some(found) => found,
        None => "{}",
    };
    match parse(line) {
        Err(error) => Err(
            CommandError::OAuthProtocolError {
                detail: error_text(&error),
                output: output.to_owned(),
            },
        ),
        Ok(record) => {
            let status = match member(&record, "status") {
                Some(found) => Some(render(found)),
                None => None,
            };
            let message = match member(&record, "message") {
                Some(found) => Some(render(found)),
                None => None,
            };
            let success = render(&string_value("success"));
            let fallback = render(&string_value(errors));
            match judge_record(status, message, success.as_str(), fallback) {
                Ok(_) => Ok(record),
                Err(error) => Err(error),
            }
        },
    }
}

} // verus!
