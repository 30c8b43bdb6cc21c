//! Polling a submitted request until its outcome is known.
//!
//! Each poll is one read-state query. A reply, a rejection, a request that
//! is done without a reply, and a failure of the transport all end the
//! polling at once; any other status is answered by a progress notice and a
//! fixed delay before the next poll. Nothing here bounds the number of
//! polls: whoever drives the loop decides how long to go on.

use crate::account::{principal_from_text, Principal};
use crate::encoding::{hex_decoded, hex_encoded};
use crate::request::{is_request_id_text, RequestId, RequestStatus, RequestStatusView};
use vstd::prelude::*;

verus! {

/// The delay between two polls, in milliseconds.
pub const POLL_DELAY_MS: u64 = 500;

/// The status of a request, as one read-state query reports it.
#[derive(Debug)]
pub enum StatusResponse {
    Unknown,
    Received,
    Processing,
    Replied { reply: Vec<u8> },
    Rejected { reject_code: u64, reject_message: String },
    Done,
}

/// What one poll brought: a status, or a failure of the transport with its
/// description.
#[derive(Debug)]
pub enum PollEvent {
    Status(StatusResponse),
    TransportFailure(String),
}

/// Why polling ended without a reply.
#[derive(Debug)]
pub enum PollError {
    /// The transport failed during a poll.
    Transport(String),
    /// The replica rejected the request.
    Rejected { reject_code: u64, reject_message: String },
    /// The request is done, and its reply can no longer be had.
    DoneWithoutReply { request_id: String },
}

/// What to do after a poll.
#[derive(Debug)]
pub enum PollStep {
    /// Emit a progress notice, wait, and poll again.
    Wait { delay_ms: u64 },
    /// Stop polling, with the reply or the reason why there is none.
    Finished(Result<Vec<u8>, PollError>),
}

/// Whether an event ends the polling.
pub open spec fn is_terminal(event: PollEvent) -> bool {
    match event {
        PollEvent::Status(StatusResponse::Unknown) => false,
        PollEvent::Status(StatusResponse::Received) => false,
        PollEvent::Status(StatusResponse::Processing) => false,
        _ => true,
    }
}

/// Whether `step` is what follows `event` while the request `request_id`
/// is polled. For each event exactly one step follows, up to the identity of
/// the buffers that hold its bytes and texts.
pub open spec fn follows(request_id: Seq<u8>, event: PollEvent, step: PollStep) -> bool {
    match event {
        PollEvent::Status(StatusResponse::Replied { reply }) => {
            &&& step matches PollStep::Finished(Ok(payload))
            &&& payload@ == reply@
        },
        PollEvent::Status(StatusResponse::Rejected { reject_code, reject_message }) => {
            &&& step matches PollStep::Finished(
                Err(PollError::Rejected { reject_code: code, reject_message: message }),
            )
            &&& code == reject_code
            &&& message@ == reject_message@
        },
        PollEvent::Status(StatusResponse::Done) => {
            &&& step matches PollStep::Finished(Err(PollError::DoneWithoutReply { request_id: id }))
            &&& id@ == hex_encoded(request_id)
        },
        PollEvent::Status(_) => step == (PollStep::Wait { delay_ms: POLL_DELAY_MS }),
        PollEvent::TransportFailure(description) => {
            &&& step matches PollStep::Finished(Err(PollError::Transport(text)))
            &&& text@ == description@
        },
    }
}

/// The notice to show while a request is neither answered nor refused.
pub fn progress_notice() -> (notice: String)
    ensures
        notice@ == "The request is being processed..."@,
{
    "The request is being processed...".to_string()
}

/// Decides what follows one poll of the request `request_id`.
pub fn poll_step(request_id: &RequestId, event: &PollEvent) -> (step: PollStep)
    ensures
        follows(request_id@, *event, step),
        step is Finished <==> is_terminal(*event),
{
    match event {
        PollEvent::Status(StatusResponse::Replied { reply }) => PollStep::Finished(
            Ok(reply.clone()),
        ),
        PollEvent::Status(StatusResponse::Rejected { reject_code, reject_message }) => {
            PollStep::Finished(
                Err(
                    PollError::Rejected {
                        reject_code: *reject_code,
                        reject_message: reject_message.clone(),
                    },
                ),
            )
        },
        PollEvent::Status(StatusResponse::Done) => PollStep::Finished(
            Err(PollError::DoneWithoutReply { request_id: request_id.to_text() }),
        ),
        PollEvent::Status(_) => PollStep::Wait { delay_ms: POLL_DELAY_MS },
        PollEvent::TransportFailure(description) => PollStep::Finished(
            Err(PollError::Transport(description.clone())),
        ),
    }
}

/// What polling against a recorded sequence of events comes to.
#[derive(Debug)]
pub struct PollReport {
    /// The number of polls made.
    pub polls: usize,
    /// The number of progress notices emitted.
    pub notices: usize,
    /// How the polling ended, if the events sufficed to end it.
    pub outcome: Option<Result<Vec<u8>, PollError>>,
}

/// Polls the request `request_id` against a recorded sequence of events,
/// one event per poll, as far as the first event that ends the polling.
pub fn poll_script(request_id: &RequestId, script: &Vec<PollEvent>) -> (report: PollReport)
    ensures
        report.notices <= script@.len(),
        forall|j: int| 0 <= j < report.notices ==> !is_terminal(#[trigger] script@[j]),
        report.notices < script@.len() ==> {
            &&& report.polls == report.notices + 1
            &&& is_terminal(script@[report.notices as int])
            &&& report.outcome matches Some(res)
            &&& follows(request_id@, script@[report.notices as int], PollStep::Finished(res))
        },
        report.notices == script@.len() ==> {
            &&& report.polls == report.notices
            &&& report.outcome is None
        },
{
    let mut i: usize = 0;
    while i < script.len()
        invariant
            i <= script@.len(),
            forall|j: int| 0 <= j < i ==> !is_terminal(#[trigger] script@[j]),
        decreases script@.len() - i,
    {
        match poll_step(request_id, &script[i]) {
            PollStep::Finished(res) => {
                return PollReport { polls: i + 1, notices: i, outcome: Some(res) };
            },
            PollStep::Wait { .. } => {},
        }
        i += 1;
    }
    PollReport { polls: i, notices: i, outcome: None }
}

/// Why a persisted record cannot be submitted.
#[derive(Debug, Clone, Copy, PartialEq, Eq, Structural)]
pub enum SubmitError {
    /// The recorded canister identifier is not the text of a principal.
    InvalidCanisterId,
    /// The recorded request identifier is not the text of 32 bytes.
    InvalidRequestId,
}

/// What is polled: a request of a canister.
#[derive(Debug)]
pub struct PollTarget {
    pub canister_id: Principal,
    pub request_id: RequestId,
}

/// The target that a record names, where its canister identifier reads as
/// `canister`.
pub open spec fn target_of(canister: Option<Seq<u8>>, request_id: Seq<char>) -> Result<
    (Seq<u8>, Seq<u8>),
    SubmitError,
> {
    if canister is None {
        Err(SubmitError::InvalidCanisterId)
    } else if !is_request_id_text(request_id) {
        Err(SubmitError::InvalidRequestId)
    } else {
        Ok((canister->0, hex_decoded(request_id)))
    }
}

/// The view of an attempt to find a record's target.
pub open spec fn target_view(res: Result<PollTarget, SubmitError>) -> Result<
    (Seq<u8>, Seq<u8>),
    SubmitError,
> {
    match res {
        Ok(target) => Ok((target.canister_id@, target.request_id@)),
        Err(e) => Err(e),
    }
}

/// Finds the target from the recorded canister, already read, and the
/// recorded request identifier, still text.
pub fn poll_target(canister: Option<Principal>, request_id: &str) -> (res: Result<
    PollTarget,
    SubmitError,
>)
    ensures
        target_view(res) == target_of(
            match canister {
                Some(p) => Some(p@),
                None => None,
            },
            request_id@,
        ),
{
    let canister_id = match canister {
        Some(canister_id) => canister_id,
        None => { return Err(SubmitError::InvalidCanisterId); },
    };
    match RequestId::from_text(request_id) {
        Some(request_id) => Ok(PollTarget { canister_id, request_id }),
        None => Err(SubmitError::InvalidRequestId),
    }
}

/// Reads from a persisted record what is to be polled.
pub fn submit_target(req: &RequestStatus) -> (res: Result<PollTarget, SubmitError>)
    ensures
        target_view(res) == target_of(principal_from_text(req@.canister_id), req@.request_id),
{
    let canister = Principal::from_text(req.canister_id.as_str());
    poll_target(canister, req.request_id.as_str())
}

/// What the reply decoder is asked to render: the reply of a method of a
/// canister, read as the method's return values.
#[derive(Debug)]
pub struct DecodeRequest {
    pub blob: Vec<u8>,
    pub canister_id: Principal,
    pub method_name: String,
    pub part: String,
}

/// The name under which a reply is decoded: the method's name where one is
/// given, the empty name otherwise.
pub open spec fn method_or_default(method_name: Option<String>) -> Seq<char> {
    match method_name {
        Some(name) => name@,
        None => Seq::empty(),
    }
}

/// Hands a reply on to the decoder, for the canister that was polled.
pub fn reply_decode_request(
    reply: Vec<u8>,
    canister_id: Principal,
    method_name: Option<String>,
) -> (request: DecodeRequest)
    ensures
        request.blob == reply,
        request.canister_id == canister_id,
        request.method_name@ == method_or_default(method_name),
        request.part@ == "rets"@,
{
    let method_name = match method_name {
        Some(name) => name,
        None => String::new(),
    };
    DecodeRequest { blob: reply, canister_id, method_name, part: "rets".to_string() }
}

} // verus!
