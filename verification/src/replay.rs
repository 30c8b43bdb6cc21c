//! The transport that sends what was signed.
//!
//! A replaying transport stands in front of a network transport when a
//! persisted status query is submitted. Whatever read-state request its
//! caller builds, the request that goes out is the one in the record: the
//! recorded canister and the recorded content, byte for byte. The replica
//! checks a signature over exactly those bytes, so nothing is serialized
//! again.

use crate::account::{principal_from_text, Principal};
use crate::capture::{signed_status, AgentOutcome, TransportError, TransportOperation};
use crate::encoding::{hex_decode, hex_decoded, hex_encoded, is_hex_text, lemma_hex_round_trip};
use crate::request::{RequestId, RequestStatus, RequestStatusView};
use vstd::prelude::*;

verus! {

/// Why a record cannot be replayed.
#[derive(Debug, Clone, Copy, PartialEq, Eq, Structural)]
pub enum ReplayError {
    /// The recorded canister identifier is not the text of a principal.
    InvalidCanisterId,
    /// The recorded content is not hexadecimal text.
    InvalidContent,
}

/// The read-state request that is handed to the network transport.
#[derive(Debug)]
pub struct ReplayRequest {
    pub canister_id: Principal,
    pub content: Vec<u8>,
}

/// What a replayed request holds, as plain values.
pub struct ReplayRequestView {
    pub canister_id: Seq<u8>,
    pub content: Seq<u8>,
}

impl View for ReplayRequest {
    type V = ReplayRequestView;

    open spec fn view(&self) -> ReplayRequestView {
        ReplayRequestView { canister_id: self.canister_id@, content: self.content@ }
    }
}

/// The outgoing request for a record whose canister identifier reads as
/// `canister` and whose content is `content`.
pub open spec fn replay_of(canister: Option<Seq<u8>>, content: Seq<char>) -> Result<
    ReplayRequestView,
    ReplayError,
> {
    if canister is None {
        Err(ReplayError::InvalidCanisterId)
    } else if !is_hex_text(content) {
        Err(ReplayError::InvalidContent)
    } else {
        Ok(ReplayRequestView { canister_id: canister->0, content: hex_decoded(content) })
    }
}

/// The outgoing request for a record.
pub open spec fn replayed(record: RequestStatusView) -> Result<ReplayRequestView, ReplayError> {
    replay_of(principal_from_text(record.canister_id), record.content)
}

/// The view of an outcome of a replay.
pub open spec fn replay_view(res: Result<ReplayRequest, ReplayError>) -> Result<
    ReplayRequestView,
    ReplayError,
> {
    match res {
        Ok(request) => Ok(request@),
        Err(e) => Err(e),
    }
}

/// Builds the outgoing request from the recorded canister, already read,
/// and the recorded content, still text.
pub fn replay_request(canister: Option<Principal>, content: &str) -> (res: Result<
    ReplayRequest,
    ReplayError,
>)
    ensures
        replay_view(res) == replay_of(
            match canister {
                Some(p) => Some(p@),
                None => None,
            },
            content@,
        ),
{
    let canister_id = match canister {
        Some(canister_id) => canister_id,
        None => { return Err(ReplayError::InvalidCanisterId); },
    };
    match hex_decode(content) {
        Ok(content) => Ok(ReplayRequest { canister_id, content }),
        Err(_) => Err(ReplayError::InvalidContent),
    }
}

/// A transport that replays one recorded read-state request.
#[derive(Debug)]
pub struct ReplayProxy {
    req: RequestStatus,
}

impl ReplayProxy {
    /// The record that is replayed.
    pub closed spec fn record(&self) -> RequestStatusView {
        self.req@
    }

    /// A replaying transport for a record.
    pub fn new(req: RequestStatus) -> (proxy: ReplayProxy)
        ensures
            proxy.record() == req@,
    {
        ReplayProxy { req }
    }

    /// The request to send in answer to a read-state request: the recorded
    /// canister and the recorded content, whatever canister and content the
    /// caller supplied.
    pub fn read_state(&self, effective_canister_id: &Principal, content: &[u8]) -> (res: Result<
        ReplayRequest,
        ReplayError,
    >)
        ensures
            replay_view(res) == replayed(self.record()),
    {
        let canister = Principal::from_text(self.req.canister_id.as_str());
        replay_request(canister, self.req.content.as_str())
    }

    /// A call is never made through a replaying transport.
    pub fn call(&self) -> (err: TransportError)
        ensures
            err == TransportError::Unsupported(TransportOperation::Call),
    {
        TransportError::Unsupported(TransportOperation::Call)
    }

    /// A query is never made through a replaying transport.
    pub fn query(&self) -> (err: TransportError)
        ensures
            err == TransportError::Unsupported(TransportOperation::Query),
    {
        TransportError::Unsupported(TransportOperation::Query)
    }

    /// The replica's status is never asked through a replaying transport.
    pub fn status(&self) -> (err: TransportError)
        ensures
            err == TransportError::Unsupported(TransportOperation::Status),
    {
        TransportError::Unsupported(TransportOperation::Status)
    }
}

/// A record that holds the text of some bytes is replayed with exactly
/// those bytes, and it is replayed whenever its canister identifier reads
/// as a principal.
pub proof fn lemma_replay_sends_recorded_content(record: RequestStatusView, bytes: Seq<u8>)
    requires
        record.content == hex_encoded(bytes),
    ensures
        replayed(record) matches Ok(request) ==> request.content == bytes,
        replayed(record) is Ok <==> principal_from_text(record.canister_id) is Some,
{
    lemma_hex_round_trip(bytes);
}

/// Bytes that were captured are the bytes that are replayed: the record
/// made from a capture of `content` goes out, if it goes out, with exactly
/// `content`.
pub proof fn lemma_capture_then_replay(
    content: Seq<u8>,
    request_id: RequestId,
    canister_id: Seq<char>,
)
    ensures
        signed_status(
            AgentOutcome::MissingReplicaTransport,
            Some(content),
            Some(request_id),
            canister_id,
        ) matches Ok(record) && (replayed(record) matches Ok(request) ==> request.content
            == content) && (replayed(record) is Ok <==> principal_from_text(canister_id) is Some),
{
    lemma_hex_round_trip(content);
}

} // verus!
