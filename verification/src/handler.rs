//! The boundary of a request: how the end of a run, or a refusal by the
//! guard, is turned into a response.

use crate::page::{create_error_page, error_page_text, log_markup};
use crate::sync::{outcome_view, SyncError, SyncErrorView};
use vstd::prelude::*;
use vstd::string::*;
use vstd::utf8::{decode_utf8, valid_utf8};

verus! {

/// The acknowledgment of a run that succeeded: a heading, and a script that
/// leads the browser back to the front page after a second.
pub const UPDATED_PAGE: &'static str =
    "<h1>updated!</h1><script>setTimeout(() => {window.location.pathname = \"\"}, 1000)</script>";

pub const BUSY_MESSAGE: &'static str = "task is already running";

pub const CONFIGURATION_MESSAGE: &'static str = "environment variable not found";

pub const VALIDATION_MESSAGE: &'static str = "the date must have the form YYYY-MM-DD";

pub const FAILED_COMMAND: &'static str = "failed to run command: ";

pub const STATUS_OK: u16 = 200;

pub const STATUS_BAD_REQUEST: u16 = 400;

pub const STATUS_INTERNAL_SERVER_ERROR: u16 = 500;

pub const STATUS_SERVICE_UNAVAILABLE: u16 = 503;

/// A response: the HTTP status and the body.
#[derive(Debug, PartialEq, Eq)]
pub struct Response {
    pub status: u16,
    pub body: String,
}

pub struct ResponseView {
    pub status: u16,
    pub body: Seq<char>,
}

impl View for Response {
    type V = ResponseView;

    open spec fn view(&self) -> ResponseView {
        ResponseView { status: self.status, body: self.body@ }
    }
}

/// What `String::from_utf8_lossy` makes of bytes: their text, with a
/// replacement character wherever they are not UTF-8.
pub uninterp spec fn lossy_text(bytes: Seq<u8>) -> Seq<char>;

/// `String::from_utf8_lossy`: the text of the bytes. Bytes that are UTF-8
/// are decoded as they are; others are decoded with replacement characters,
/// in a way that depends on the bytes alone.
#[verifier::external_body]
fn decode_lossy(bytes: &Vec<u8>) -> (text: String)
    ensures
        text@ == lossy_text(bytes@),
        valid_utf8(bytes@) ==> text@ == decode_utf8(bytes@),
{
    String::from_utf8_lossy(bytes).into_owned()
}

/// The status that an error is answered with: a client error for an entry
/// that is not valid, a server error for everything else.
pub open spec fn error_status(error: SyncErrorView) -> u16 {
    if error is Validation {
        STATUS_BAD_REQUEST
    } else {
        STATUS_INTERNAL_SERVER_ERROR
    }
}

/// The body that an error is answered with. A failure of the tool is shown
/// as a page that names the command and holds what the tool wrote to its
/// error stream, as inert markup; every other error is its reason as text.
pub open spec fn error_body(error: SyncErrorView) -> Seq<char> {
    match error {
        SyncErrorView::ConfigurationMissing => CONFIGURATION_MESSAGE@,
        SyncErrorView::Validation => VALIDATION_MESSAGE@,
        SyncErrorView::Filesystem { reason } => reason,
        SyncErrorView::ExternalToolSpawn { step, reason } => reason,
        SyncErrorView::ExternalToolWait { step, reason } => reason,
        SyncErrorView::ExternalToolExecution { step, command, stderr } => error_page_text(
            FAILED_COMMAND@ + command,
            log_markup(lossy_text(stderr)),
        ),
    }
}

/// The response to a request whose run has ended.
pub open spec fn response_for(outcome: Result<(), SyncErrorView>) -> ResponseView {
    match outcome {
        Ok(_) => ResponseView { status: STATUS_OK, body: UPDATED_PAGE@ },
        Err(error) => ResponseView { status: error_status(error), body: error_body(error) },
    }
}

/// The status that an error is answered with.
pub fn status_of(error: &SyncError) -> (status: u16)
    ensures
        status == error_status(error@),
{
    match error {
        SyncError::Validation => STATUS_BAD_REQUEST,
        _ => STATUS_INTERNAL_SERVER_ERROR,
    }
}

/// The page for a command that failed, from the text of its error stream.
pub fn failure_page(command: &str, stderr_text: &str) -> (page: String)
    ensures
        page@ == error_page_text(FAILED_COMMAND@ + command@, log_markup(stderr_text@)),
{
    let mut message = String::from_str(FAILED_COMMAND);
    message.append(command);
    create_error_page(message.as_str(), stderr_text)
}

/// The body that an error is answered with. Where the tool's error stream
/// is UTF-8, as it is but for stray bytes, the page shows its very text.
pub fn body_of(error: &SyncError) -> (body: String)
    ensures
        body@ == error_body(error@),
        error@ matches SyncErrorView::ExternalToolExecution { step, command, stderr } ==> (
        valid_utf8(stderr) ==> body@ == error_page_text(
            FAILED_COMMAND@ + command,
            log_markup(decode_utf8(stderr)),
        )),
{
    match error {
        SyncError::ConfigurationMissing => String::from_str(CONFIGURATION_MESSAGE),
        SyncError::Validation => String::from_str(VALIDATION_MESSAGE),
        SyncError::Filesystem { reason } => reason.clone(),
        SyncError::ExternalToolSpawn { step, reason } => reason.clone(),
        SyncError::ExternalToolWait { step, reason } => reason.clone(),
        SyncError::ExternalToolExecution { step, command, stderr } => {
            let text = decode_lossy(stderr);
            failure_page(command.as_str(), text.as_str())
        },
    }
}

/// Turns the end of a run into the response to the request: the
/// acknowledgment for a run that succeeded, the error's status and body for
/// one that failed.
pub fn post_diary(outcome: &Result<(), SyncError>) -> (response: Response)
    ensures
        response@ == response_for(outcome_view(*outcome)),
{
    match outcome {
        Ok(_) => Response { status: STATUS_OK, body: String::from_str(UPDATED_PAGE) },
        Err(error) => Response { status: status_of(error), body: body_of(error) },
    }
}

/// The response to a request that the guard refused: the service is
/// unavailable for the moment. No run that failed is answered with this
/// status.
pub fn refusal() -> (response: Response)
    ensures
        response@ == (ResponseView { status: STATUS_SERVICE_UNAVAILABLE, body: BUSY_MESSAGE@ }),
        forall|outcome: Result<(), SyncErrorView>|
            response.status != (#[trigger] response_for(outcome)).status,
{
    Response { status: STATUS_SERVICE_UNAVAILABLE, body: String::from_str(BUSY_MESSAGE) }
}

} // verus!
