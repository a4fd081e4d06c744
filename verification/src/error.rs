//! The errors of the application's commands, and the message that each one
//! shows to the user.

use vstd::prelude::*;
use crate::resolver::{Script, Search};
use crate::text::{join, joined, texts};

verus! {

/// Why a command failed.
#[derive(Debug, PartialEq, Eq)]
pub enum CommandError {
    /// No location holds the script. `searched` names the places that were
    /// examined, as they are to be shown.
    NotFound { script: Script, searched: Vec<String> },
    /// The process for the script could not be started.
    SpawnFailed { script: Script, detail: String },
    /// The tracked process could not be terminated.
    KillFailed(String),
    /// The supervisor's state could not be locked.
    LockAcquisitionFailed(String),
    /// A stored document is no well-formed JSON, or a document could not be
    /// written as JSON.
    ParseFailed(String),
    /// The last line of the helper's output is no well-formed JSON. `output`
    /// is all that the helper wrote to its standard output.
    OAuthProtocolError { detail: String, output: String },
    /// The helper reported something other than success.
    OAuthFailed(String),
    /// The user's home directory is not known.
    HomeDirUnavailable,
    /// The running executable's path has no parent directory.
    ExeDirUnavailable,
    /// The operating system refused to name a directory, or to read, write
    /// or remove a file.
    Io(String),
    /// A report reached the supervisor that answers no action it waits for.
    OutOfTurn,
}

/// A command error as a mathematical value.
pub enum ErrorView {
    NotFound { script: Script, searched: Seq<Seq<char>> },
    SpawnFailed { script: Script, detail: Seq<char> },
    KillFailed(Seq<char>),
    LockAcquisitionFailed(Seq<char>),
    ParseFailed(Seq<char>),
    OAuthProtocolError { detail: Seq<char>, output: Seq<char> },
    OAuthFailed(Seq<char>),
    HomeDirUnavailable,
    ExeDirUnavailable,
    Io(Seq<char>),
    OutOfTurn,
}

impl View for CommandError {
    type V = ErrorView;

    open spec fn view(&self) -> ErrorView {
        match *self {
            CommandError::NotFound { script, searched } => ErrorView::NotFound {
                script,
                searched: texts(searched@),
            },
            CommandError::SpawnFailed { script, detail } => ErrorView::SpawnFailed {
                script,
                detail: detail@,
            },
            CommandError::KillFailed(detail) => ErrorView::KillFailed(detail@),
            CommandError::LockAcquisitionFailed(detail) => ErrorView::LockAcquisitionFailed(
                detail@,
            ),
            CommandError::ParseFailed(detail) => ErrorView::ParseFailed(detail@),
            CommandError::OAuthProtocolError { detail, output } => ErrorView::OAuthProtocolError {
                detail: detail@,
                output: output@,
            },
            CommandError::OAuthFailed(detail) => ErrorView::OAuthFailed(detail@),
            CommandError::HomeDirUnavailable => ErrorView::HomeDirUnavailable,
            CommandError::ExeDirUnavailable => ErrorView::ExeDirUnavailable,
            CommandError::Io(detail) => ErrorView::Io(detail@),
            CommandError::OutOfTurn => ErrorView::OutOfTurn,
        }
    }
}

/// The words that open the message of a process that could not be started.
pub open spec fn spawn_failure_opening(script: Script) -> Seq<char> {
    match script {
        Script::Service => "Failed to start service: "@,
        Script::OAuthHelper => "Failed to run OAuth: "@,
    }
}

impl ErrorView {
    /// The message that the user is shown.
    ///
    /// An error of the operating system or of the JSON reader is shown in
    /// its own words. A missing service script is shown with the places
    /// that were examined, a missing helper script with its name alone.
    pub open spec fn message(self) -> Seq<char> {
        match self {
            ErrorView::NotFound { script, searched } => if script == Script::Service
                && searched.len() > 0 {
                "Could not find "@ + script.file_name_text() + " at "@ + joined(searched, " or "@)
            } else {
                "Could not find "@ + script.file_name_text()
            },
            ErrorView::SpawnFailed { script, detail } => spawn_failure_opening(script) + detail,
            ErrorView::KillFailed(detail) => detail,
            ErrorView::LockAcquisitionFailed(detail) => detail,
            ErrorView::ParseFailed(detail) => detail,
            ErrorView::OAuthProtocolError { detail, output } => "Failed to parse OAuth result: "@
                + detail + " | Output: "@ + output,
            ErrorView::OAuthFailed(detail) => "OAuth failed: "@ + detail,
            ErrorView::HomeDirUnavailable => "Could not get home directory"@,
            ErrorView::ExeDirUnavailable => "Could not get exe directory"@,
            ErrorView::Io(detail) => detail,
            ErrorView::OutOfTurn => "The report answers no pending action"@,
        }
    }

    /// Every message of a helper whose last line is no JSON ends with all
    /// that the helper wrote.
    pub proof fn lemma_protocol_error_shows_output(detail: Seq<char>, output: Seq<char>)
        ensures
            (ErrorView::OAuthProtocolError { detail, output }).message().len() >= output.len(),
            (ErrorView::OAuthProtocolError { detail, output }).message().skip(
                (ErrorView::OAuthProtocolError { detail, output }).message().len() - output.len(),
            ) == output,
    {
        let message = (ErrorView::OAuthProtocolError { detail, output }).message();
        assert(message.skip(message.len() - output.len()) =~= output);
    }
}

impl CommandError {
    /// The message that the user is shown.
    pub fn message(&self) -> (text: String)
        ensures
            text@ == self@.message(),
    {
        match self {
            CommandError::NotFound { script, searched } => {
                let mut text = "Could not find ".to_owned();
                text.append(script.file_name());
                let listed = match script {
                    Script::Service => searched.len() > 0,
                    Script::OAuthHelper => false,
                };
                if listed {
                    text.append(" at ");
                    let places = join(searched, " or ");
                    text.append(places.as_str());
                }
                assert(text@ =~= self@.message());
                text
            },
            CommandError::SpawnFailed { script, detail } => {
                let mut text = match script {
                    Script::Service => "Failed to start service: ".to_owned(),
                    Script::OAuthHelper => "Failed to run OAuth: ".to_owned(),
                };
                text.append(detail.as_str());
                text
            },
            CommandError::KillFailed(detail) => detail.clone(),
            CommandError::LockAcquisitionFailed(detail) => detail.clone(),
            CommandError::ParseFailed(detail) => detail.clone(),
            CommandError::OAuthProtocolError { detail, output } => {
                let mut text = "Failed to parse OAuth result: ".to_owned();
                text.append(detail.as_str());
                text.append(" | Output: ");
                text.append(output.as_str());
                text
            },
            CommandError::OAuthFailed(detail) => {
                let mut text = "OAuth failed: ".to_owned();
                text.append(detail.as_str());
                text
            },
            CommandError::HomeDirUnavailable => "Could not get home directory".to_owned(),
            CommandError::ExeDirUnavailable => "Could not get exe directory".to_owned(),
            CommandError::Io(detail) => detail.clone(),
            CommandError::OutOfTurn => "The report answers no pending action".to_owned(),
        }
    }
}

/// The error with which a search for `script` ended, if it ended without
/// the script.
pub open spec fn search_failure(
    script: Script,
    search: Search,
    detail: Seq<char>,
    searched: Seq<Seq<char>>,
) -> Option<ErrorView> {
    match search {
        Search::Look(_) => None,
        Search::Use(_) => None,
        Search::NotFound => Some(ErrorView::NotFound { script, searched }),
        Search::LookupFailed => Some(ErrorView::Io(detail)),
        Search::NoDirectory => Some(ErrorView::ExeDirUnavailable),
    }
}

/// Names the error with which a search for `script` ended. `detail` is what
/// the operating system said where a directory could not be named, and
/// `searched` names the places that were examined.
pub fn search_error(script: Script, search: Search, detail: String, searched: Vec<String>) -> (error:
    Option<CommandError>)
    ensures
        match error {
            Some(found) => search_failure(script, search, detail@, texts(searched@)) == Some(
                found@,
            ),
            None => search_failure(script, search, detail@, texts(searched@)) is None,
        },
{
    match search {
        Search::Look(_) => None,
        Search::Use(_) => None,
        Search::NotFound => Some(CommandError::NotFound { script, searched }),
        Search::LookupFailed => Some(CommandError::Io(detail)),
        Search::NoDirectory => Some(CommandError::ExeDirUnavailable),
    }
}

} // verus!
