//! The transport that signs without sending.
//!
//! A capturing transport is put in the place of a network transport while a
//! request is composed. It performs no I/O: the one read-state request that
//! reaches it is recorded, byte for byte, and the caller is told that no
//! transport is available, which it takes to mean that the bytes are now at
//! hand. One capturing transport serves one signed artifact.

use crate::account::Principal;
use crate::encoding::{hex_encode, hex_encoded};
use crate::request::{RequestId, RequestStatus, RequestStatusView};
use vstd::prelude::*;

verus! {

/// The operations that a transport offers.
#[derive(Debug, Clone, Copy, PartialEq, Eq, Structural)]
pub enum TransportOperation {
    Call,
    ReadState,
    Query,
    Status,
}

/// What a capturing or replaying transport reports in place of a reply.
#[derive(Debug, Clone, Copy, PartialEq, Eq, Structural)]
pub enum TransportError {
    /// No network transport stands behind this one. After a capture this is
    /// the sign that the request's bytes have been recorded.
    MissingReplicaTransport,
    /// The single slot already holds a request; it is never overwritten.
    AlreadyCaptured,
    /// The operation has no meaning for this transport.
    Unsupported(TransportOperation),
}

/// Why a capture did not end in a record of the status query.
#[derive(Debug, Clone, Copy, PartialEq, Eq, Structural)]
pub enum SignError {
    /// The signing agent ended otherwise than by reporting that no
    /// transport is available.
    UnexpectedOutcome,
    /// The agent reported a capture, yet the slot is empty.
    NothingCaptured,
    /// The capture was made without a request identifier.
    MissingRequestId,
}

/// How the signing agent's run over a capturing transport ended.
#[derive(Debug, Clone, Copy, PartialEq, Eq, Structural)]
pub enum AgentOutcome {
    /// The agent failed with "missing replica transport".
    MissingReplicaTransport,
    /// The agent returned a reply or failed in any other way.
    Other,
}

/// A transport that records one read-state request instead of sending it.
#[derive(Debug)]
pub struct SigningCapture {
    request_id: Option<RequestId>,
    slot: Option<Vec<u8>>,
}

impl SigningCapture {
    /// The request identifier that the capture is keyed by.
    pub closed spec fn request_id(&self) -> Option<RequestId> {
        self.request_id
    }

    /// The content held in the slot, if a request has been captured.
    pub closed spec fn captured(&self) -> Option<Seq<u8>> {
        match self.slot {
            Some(content) => Some(content@),
            None => None,
        }
    }

    /// A capturing transport with an empty slot.
    pub fn new(request_id: Option<RequestId>) -> (capture: SigningCapture)
        ensures
            capture.request_id() == request_id,
            capture.captured() is None,
    {
        SigningCapture { request_id, slot: None }
    }

    /// Records the content of a read-state request. The first request fills
    /// the slot and is answered with "missing replica transport"; the slot is
    /// written once, so a later request leaves it as it is and is refused.
    pub fn read_state(&mut self, effective_canister_id: &Principal, content: Vec<u8>) -> (err:
        TransportError)
        ensures
            final(self).request_id() == old(self).request_id(),
            old(self).captured() is None ==> final(self).captured() == Some(content@) && err
                == TransportError::MissingReplicaTransport,
            old(self).captured() is Some ==> final(self).captured() == old(self).captured() && err
                == TransportError::AlreadyCaptured,
    {
        if self.slot.is_some() {
            return TransportError::AlreadyCaptured;
        }
        self.slot = Some(content);
        TransportError::MissingReplicaTransport
    }

    /// A call is never made through a capturing transport.
    pub fn call(&self) -> (err: TransportError)
        ensures
            err == TransportError::Unsupported(TransportOperation::Call),
    {
        TransportError::Unsupported(TransportOperation::Call)
    }

    /// A query is never made through a capturing transport.
    pub fn query(&self) -> (err: TransportError)
        ensures
            err == TransportError::Unsupported(TransportOperation::Query),
    {
        TransportError::Unsupported(TransportOperation::Query)
    }

    /// The replica's status is never asked through a capturing transport.
    pub fn status(&self) -> (err: TransportError)
        ensures
            err == TransportError::Unsupported(TransportOperation::Status),
    {
        TransportError::Unsupported(TransportOperation::Status)
    }

    /// Turns a finished capture into the record that is persisted: the
    /// canister, the request identifier and the captured content, the latter
    /// two as hexadecimal text.
    pub fn into_request_status(self, outcome: AgentOutcome, canister_id: &str) -> (res: Result<
        RequestStatus,
        SignError,
    >)
        ensures
            match res {
                Ok(status) => Ok(status@),
                Err(e) => Err(e),
            } == signed_status(outcome, self.captured(), self.request_id(), canister_id@),
    {
        if outcome != AgentOutcome::MissingReplicaTransport {
            return Err(SignError::UnexpectedOutcome);
        }
        let content = match self.slot {
            Some(content) => content,
            None => { return Err(SignError::NothingCaptured); },
        };
        let request_id = match self.request_id {
            Some(request_id) => request_id,
            None => { return Err(SignError::MissingRequestId); },
        };
        Ok(
            RequestStatus {
                canister_id: canister_id.to_string(),
                request_id: request_id.to_text(),
                content: hex_encode(content.as_slice()),
            },
        )
    }
}

/// The record that a capture ends in, or the reason why it ends in none.
pub open spec fn signed_status(
    outcome: AgentOutcome,
    captured: Option<Seq<u8>>,
    request_id: Option<RequestId>,
    canister_id: Seq<char>,
) -> Result<RequestStatusView, SignError> {
    if outcome != AgentOutcome::MissingReplicaTransport {
        Err(SignError::UnexpectedOutcome)
    } else if captured is None {
        Err(SignError::NothingCaptured)
    } else if request_id is None {
        Err(SignError::MissingRequestId)
    } else {
        Ok(
            RequestStatusView {
                canister_id,
                request_id: hex_encoded(request_id->0@),
                content: hex_encoded(captured->0),
            },
        )
    }
}

} // verus!
