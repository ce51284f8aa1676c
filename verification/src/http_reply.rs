//! What goes back over HTTP for a request: the status and the body.

use crate::auth::AuthError;
use crate::handler::InteractionError;
use vstd::prelude::*;

verus! {

/// The status of a request that was served.
pub const STATUS_OK: u16 = 200;

/// The status of a request that cannot be read.
pub const STATUS_BAD_REQUEST: u16 = 400;

/// The body that goes with every failure status.
pub const ERROR_BODY: &'static str = "Error when handling request.";

/// The body that stands for an empty reply.
pub const EMPTY_BODY: &'static str = "{}";

/// What to answer to an authenticated request whose body is no interaction
/// or lacks what its kind requires.
#[derive(Clone, Copy, PartialEq, Eq, Structural, Debug)]
pub enum UnreadablePolicy {
    /// Answer with success and an empty reply, so that Discord does not take
    /// the endpoint for broken.
    EmptySuccess,
    /// Answer with a bad-request status.
    Reject,
}

/// How the handling of one request ended.
#[derive(Clone, PartialEq, Eq, Debug)]
pub enum RequestOutcome {
    /// The request was not authenticated.
    Rejected(AuthError),
    /// The request was authenticated, and its body could not be read as an
    /// interaction.
    Unreadable,
    /// The request was answered with a reply, given here as JSON.
    Replied(String),
}

/// A status and a body.
#[derive(Clone, PartialEq, Eq, Debug)]
pub struct HttpReply {
    pub status: u16,
    /// Whether the body is JSON, to be declared as such in the
    /// `Content-Type` header.
    pub json: bool,
    pub body: String,
}

/// What an `HttpReply` holds, as mathematical values.
pub struct HttpReplyView {
    pub status: u16,
    pub json: bool,
    pub body: Seq<char>,
}

impl View for HttpReply {
    type V = HttpReplyView;

    open spec fn view(&self) -> HttpReplyView {
        HttpReplyView { status: self.status, json: self.json, body: self.body@ }
    }
}

/// The status and body for an outcome: a reply goes out as it is with
/// status 200; a request that was not authenticated gets the status of its
/// failure; an unreadable one gets what the policy says. The body is JSON
/// exactly where the status is 200.
pub open spec fn reply_for(outcome: RequestOutcome, policy: UnreadablePolicy) -> HttpReplyView {
    match outcome {
        RequestOutcome::Rejected(error) => HttpReplyView {
            status: error.spec_status_code(),
            json: false,
            body: ERROR_BODY@,
        },
        RequestOutcome::Unreadable => match policy {
            UnreadablePolicy::EmptySuccess => HttpReplyView {
                status: STATUS_OK,
                json: true,
                body: EMPTY_BODY@,
            },
            UnreadablePolicy::Reject => HttpReplyView {
                status: STATUS_BAD_REQUEST,
                json: false,
                body: ERROR_BODY@,
            },
        },
        RequestOutcome::Replied(json) => HttpReplyView {
            status: STATUS_OK,
            json: true,
            body: json@,
        },
    }
}

/// The status and body that go back for an outcome.
pub fn http_reply(outcome: RequestOutcome, policy: UnreadablePolicy) -> (reply: HttpReply)
    ensures
        reply@ == reply_for(outcome, policy),
{
    match outcome {
        RequestOutcome::Rejected(error) => HttpReply {
            status: error.status_code(),
            json: false,
            body: ERROR_BODY.to_owned(),
        },
        RequestOutcome::Unreadable => match policy {
            UnreadablePolicy::EmptySuccess => HttpReply {
                status: STATUS_OK,
                json: true,
                body: EMPTY_BODY.to_owned(),
            },
            UnreadablePolicy::Reject => HttpReply {
                status: STATUS_BAD_REQUEST,
                json: false,
                body: ERROR_BODY.to_owned(),
            },
        },
        RequestOutcome::Replied(json) => HttpReply { status: STATUS_OK, json: true, body: json },
    }
}

/// How a request ends whose interaction got no reply. A request that
/// cannot be read in application terms ends as unreadable. A fault of the
/// handler ends in no reply at all: it is for the host to report.
pub open spec fn failure_outcome(error: InteractionError) -> Option<RequestOutcome> {
    match error {
        InteractionError::Decode(_) => Some(RequestOutcome::Unreadable),
        InteractionError::InvalidResponseTransition => None,
        InteractionError::Unhandled => None,
    }
}

/// How a request ends whose interaction got no reply.
pub fn outcome_of_failure(error: InteractionError) -> (outcome: Option<RequestOutcome>)
    ensures
        outcome == failure_outcome(error),
{
    match error {
        InteractionError::Decode(_) => Some(RequestOutcome::Unreadable),
        InteractionError::InvalidResponseTransition => None,
        InteractionError::Unhandled => None,
    }
}

} // verus!
