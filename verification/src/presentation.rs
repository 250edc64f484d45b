//! The answer to `GET /`: the dump as an attachment, or a server-side error
//! with a message for the operator.

use vstd::prelude::*;
use crate::coordinator::outcome_view;
use crate::domain::{GachadataDump, GachadataDumpWithTime, SnapshotView};
use crate::error::CacheError;

verus! {

/// The status of an answer that carries the dump.
pub const STATUS_OK: u16 = 200;

/// The status of every failure.
pub const STATUS_INTERNAL_SERVER_ERROR: u16 = 500;

/// The name and value of the header that makes the dump a download.
pub const CONTENT_DISPOSITION: (&'static str, &'static str) = (
    "Content-Disposition",
    "attachment; filename=gachadata.sql",
);

/// The name and value of the header that gives the dump's media type.
pub const CONTENT_TYPE: (&'static str, &'static str) = ("Content-Type", "application/sql");

/// The name and value of the header that marks a failure's message as text.
pub const PLAIN_TEXT: (&'static str, &'static str) = ("Content-Type", "text/plain; charset=utf-8");

/// Said when the refresh failed.
pub const UPDATE_FAILED: &'static str =
    "Failed to update gachadata dump. Please contact to administrators.";

/// Said when there is no data to send.
pub const DUMP_IS_EMPTY: &'static str = "GachadataDump is empty. Please contact to administrators.";

/// Said when the shared state could not be locked.
pub const LOCK_FAILED: &'static str =
    "Failed to lock repository mutex.Please contact to administrators.";

/// The body of an answer.
#[derive(Debug)]
pub enum ResponseBody {
    /// The dump itself.
    Dump(GachadataDump),
    /// A line of plain text for the operator.
    Message(&'static str),
}

/// An answer, ready to be put on the wire.
#[derive(Debug)]
pub struct HandlerResponse {
    pub status: u16,
    pub headers: Vec<(&'static str, &'static str)>,
    pub body: ResponseBody,
}

/// What an answer's body reads as.
pub enum BodyView {
    Dump(Seq<u8>),
    Message(Seq<char>),
}

/// What an answer reads as.
pub struct ResponseView {
    pub status: nat,
    pub headers: Seq<(Seq<char>, Seq<char>)>,
    pub body: BodyView,
}

impl View for ResponseBody {
    type V = BodyView;

    open spec fn view(&self) -> BodyView {
        match *self {
            ResponseBody::Dump(dump) => BodyView::Dump(dump@),
            ResponseBody::Message(text) => BodyView::Message(text@),
        }
    }
}

impl View for HandlerResponse {
    type V = ResponseView;

    open spec fn view(&self) -> ResponseView {
        ResponseView {
            status: self.status as nat,
            headers: Seq::new(
                self.headers@.len(),
                |i: int| (self.headers@[i].0@, self.headers@[i].1@),
            ),
            body: self.body@,
        }
    }
}

/// The message that goes out for `error`.
pub open spec fn message_for(error: CacheError) -> Seq<char> {
    match error {
        CacheError::ProcessFailed(_) => UPDATE_FAILED@,
        CacheError::EmptySnapshot => DUMP_IS_EMPTY@,
        CacheError::Lock => LOCK_FAILED@,
    }
}

/// The failure answer with `message`: status 500 and a line of plain text.
pub open spec fn failure(message: Seq<char>) -> ResponseView {
    ResponseView {
        status: STATUS_INTERNAL_SERVER_ERROR as nat,
        headers: seq![(PLAIN_TEXT.0@, PLAIN_TEXT.1@)],
        body: BodyView::Message(message),
    }
}

/// The answer that carries `bytes` as the attachment `gachadata.sql`.
pub open spec fn attachment(bytes: Seq<u8>) -> ResponseView {
    ResponseView {
        status: STATUS_OK as nat,
        headers: seq![
            (CONTENT_DISPOSITION.0@, CONTENT_DISPOSITION.1@),
            (CONTENT_TYPE.0@, CONTENT_TYPE.1@),
        ],
        body: BodyView::Dump(bytes),
    }
}

/// The answer owed for the outcome of a request.
///
/// A snapshot with data goes out as an attachment. A snapshot without data
/// is never sent as a success: it is answered like `CacheError::EmptySnapshot`.
pub open spec fn response_for(outcome: Result<SnapshotView, CacheError>) -> ResponseView {
    match outcome {
        Ok(snapshot) => if snapshot.bytes.len() == 0 {
            failure(message_for(CacheError::EmptySnapshot))
        } else {
            attachment(snapshot.bytes)
        },
        Err(error) => failure(message_for(error)),
    }
}

/// The failure answer with `message`.
fn failure_response(message: &'static str) -> (response: HandlerResponse)
    ensures
        response@ == failure(message@),
{
    let mut headers: Vec<(&'static str, &'static str)> = Vec::new();
    headers.push(PLAIN_TEXT);
    let response = HandlerResponse {
        status: STATUS_INTERNAL_SERVER_ERROR,
        headers,
        body: ResponseBody::Message(message),
    };
    assert(response@.headers =~= failure(message@).headers);
    response
}

/// Turns the outcome of a request into its answer.
///
/// The messages are fixed texts: nothing of the cause of a failure, of the
/// database settings or of the command line goes out.
pub fn get_gachadata_handler(outcome: Result<GachadataDumpWithTime, CacheError>) -> (response:
    HandlerResponse)
    ensures
        response@ == response_for(outcome_view(outcome)),
{
    match outcome {
        Ok(snapshot) => {
            if snapshot.dump.is_empty() {
                failure_response(DUMP_IS_EMPTY)
            } else {
                let mut headers: Vec<(&'static str, &'static str)> = Vec::new();
                headers.push(CONTENT_DISPOSITION);
                headers.push(CONTENT_TYPE);
                let response = HandlerResponse {
                    status: STATUS_OK,
                    headers,
                    body: ResponseBody::Dump(snapshot.dump),
                };
                assert(response@.headers =~= attachment(snapshot.dump@).headers);
                response
            }
        },
        Err(CacheError::ProcessFailed(_)) => failure_response(UPDATE_FAILED),
        Err(CacheError::EmptySnapshot) => failure_response(DUMP_IS_EMPTY),
        Err(CacheError::Lock) => failure_response(LOCK_FAILED),
    }
}

/// Only a snapshot with data is answered with success, and then the body is
/// that snapshot's data, byte for byte. Everything else is a failure.
pub proof fn success_carries_data(outcome: Result<SnapshotView, CacheError>)
    ensures
        response_for(outcome).status == STATUS_OK <==> outcome is Ok && outcome->Ok_0.bytes.len()
            > 0,
        response_for(outcome).status == STATUS_OK ==> response_for(outcome).body
            == BodyView::Dump(outcome->Ok_0.bytes),
        response_for(outcome).status != STATUS_OK ==> response_for(outcome).status
            == STATUS_INTERNAL_SERVER_ERROR && response_for(outcome).body is Message,
{
}

} // verus!
