//! The decisions of one form POST, as a machine from stage and event to next
//! stage and action. Whoever drives it performs each action (send the
//! request, read the body, hand the outcome back) and reports what happened.
use vstd::prelude::*;
use crate::request::{is_form_request, FormRequest};

verus! {

/// Status codes from this one on are failures.
pub const FIRST_ERROR_STATUS: u16 = 400;

/// Whether a response with status `status` counts as a failure.
pub open spec fn is_error_status(status: u16) -> bool {
    status >= FIRST_ERROR_STATUS
}

/// What the caller gets for a response that was read in full: its text, on
/// the success side below the error threshold and on the error side from it on.
pub open spec fn response_outcome_spec(status: u16, text: String) -> Result<String, String> {
    if is_error_status(status) {
        Err(text)
    } else {
        Ok(text)
    }
}

/// Where one call stands.
pub enum PostStage {
    /// The request is out; no response yet.
    AwaitingResponse,
    /// A response came with `status`; its body is being read.
    AwaitingBody { status: u16 },
    /// The outcome has been handed back; the call is over.
    Done,
}

/// What the network reported.
pub enum PostEvent {
    /// A response arrived with this status code.
    Responded { status: u16 },
    /// The exchange failed before a response (name lookup, connection, TLS,
    /// timeout); `message` describes the failure.
    TransportFailed { message: String },
    /// The response body was read in full as text.
    BodyRead { text: String },
    /// The response body could not be read as text; `message` says why.
    BodyFailed { message: String },
}

/// What the driver does next.
pub enum PostAction {
    /// Put this request on the wire.
    Send { request: FormRequest },
    /// Read the body of the response that came.
    ReadBody,
    /// Hand this outcome back to the caller; the call is over.
    Reply { outcome: Result<String, String> },
    /// The event does not belong to this stage: nothing to do.
    Ignore,
}

/// The next stage and action for `event` at `stage`.
pub open spec fn next_spec(stage: PostStage, event: PostEvent) -> (PostStage, PostAction) {
    match (stage, event) {
        (PostStage::AwaitingResponse, PostEvent::Responded { status }) => (
            PostStage::AwaitingBody { status },
            PostAction::ReadBody,
        ),
        (PostStage::AwaitingResponse, PostEvent::TransportFailed { message }) => (
            PostStage::Done,
            PostAction::Reply { outcome: Err(message) },
        ),
        (PostStage::AwaitingBody { status }, PostEvent::BodyRead { text }) => (
            PostStage::Done,
            PostAction::Reply { outcome: response_outcome_spec(status, text) },
        ),
        (PostStage::AwaitingBody { status }, PostEvent::BodyFailed { message }) => (
            PostStage::Done,
            PostAction::Reply { outcome: Err(message) },
        ),
        (stage, _) => (stage, PostAction::Ignore),
    }
}

/// What the caller gets for a response with `status` whose body read as
/// `text`: `Ok(text)` below the error threshold, `Err(text)` from it on.
pub fn response_outcome(status: u16, text: String) -> (r: Result<String, String>)
    ensures
        r == response_outcome_spec(status, text),
{
    if status >= FIRST_ERROR_STATUS {
        Err(text)
    } else {
        Ok(text)
    }
}

/// Opens a call: the request to send for `url` and `body`, and the stage
/// that waits for its response.
pub fn start(url: String, body: String) -> (r: (PostStage, PostAction))
    ensures
        r.0 is AwaitingResponse,
        r.1 matches PostAction::Send { request } && is_form_request(request, url, body),
{
    (PostStage::AwaitingResponse, PostAction::Send { request: FormRequest::new(url, body) })
}

/// Takes one event of the call at `stage`.
pub fn step(stage: PostStage, event: PostEvent) -> (r: (PostStage, PostAction))
    ensures
        r == next_spec(stage, event),
{
    match (stage, event) {
        (PostStage::AwaitingResponse, PostEvent::Responded { status }) => (
            PostStage::AwaitingBody { status },
            PostAction::ReadBody,
        ),
        (PostStage::AwaitingResponse, PostEvent::TransportFailed { message }) => (
            PostStage::Done,
            PostAction::Reply { outcome: Err(message) },
        ),
        (PostStage::AwaitingBody { status }, PostEvent::BodyRead { text }) => (
            PostStage::Done,
            PostAction::Reply { outcome: response_outcome(status, text) },
        ),
        (PostStage::AwaitingBody { status: _ }, PostEvent::BodyFailed { message }) => (
            PostStage::Done,
            PostAction::Reply { outcome: Err(message) },
        ),
        (stage, _) => (stage, PostAction::Ignore),
    }
}

/// The string that `event` carries, if it carries one.
pub open spec fn event_text(event: PostEvent) -> Option<String> {
    match event {
        PostEvent::Responded { .. } => None,
        PostEvent::TransportFailed { message } => Some(message),
        PostEvent::BodyRead { text } => Some(text),
        PostEvent::BodyFailed { message } => Some(message),
    }
}

/// The string that an outcome carries, on either side.
pub open spec fn outcome_text(outcome: Result<String, String>) -> String {
    match outcome {
        Ok(text) => text,
        Err(text) => text,
    }
}

/// A response below the error threshold whose body reads as `text` ends the
/// call with `Ok(text)`, the body exactly as read.
pub proof fn lemma_success_replies_body(status: u16, text: String)
    requires
        !is_error_status(status),
    ensures
        ({
            let (stage, action) = next_spec(PostStage::AwaitingResponse, PostEvent::Responded { status });
            action is ReadBody && next_spec(stage, PostEvent::BodyRead { text }) == (
                PostStage::Done,
                PostAction::Reply { outcome: Ok(text) },
            )
        }),
{
}

/// A response at or above the error threshold whose body reads as `text`
/// ends the call with `Err(text)`: the body, not the status, is the message.
pub proof fn lemma_error_status_replies_body(status: u16, text: String)
    requires
        is_error_status(status),
    ensures
        ({
            let (stage, action) = next_spec(PostStage::AwaitingResponse, PostEvent::Responded { status });
            action is ReadBody && next_spec(stage, PostEvent::BodyRead { text }) == (
                PostStage::Done,
                PostAction::Reply { outcome: Err(text) },
            )
        }),
{
}

/// A transport failure ends the call at once with `Err(message)`, the
/// failure's own description; no body is read.
pub proof fn lemma_transport_failure_replies_message(message: String)
    ensures
        next_spec(PostStage::AwaitingResponse, PostEvent::TransportFailed { message }) == (
            PostStage::Done,
            PostAction::Reply { outcome: Err(message) },
        ),
{
}

/// Calls do not reach into each other: a reply carries the string of the
/// event just taken and nothing else, and a call that is over ignores every
/// further event.
pub proof fn lemma_reply_from_own_event(stage: PostStage, event: PostEvent)
    ensures
        next_spec(stage, event).1 matches PostAction::Reply { outcome }
            ==> event_text(event) == Some(outcome_text(outcome)),
        stage is Done ==> next_spec(stage, event) == (PostStage::Done, PostAction::Ignore),
{
}

} // verus!
