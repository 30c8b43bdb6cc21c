//! Staking a neuron offline: three signed messages in one bundle.
//!
//! Funding a neuron takes a transfer to the neuron's account, a call that
//! claims the neuron, and a query for the status of that call. Each of the
//! three is signed by a collaborator outside this library. The workflow here
//! decides, after each signature, what is to be signed next and with which
//! arguments, and puts the three messages into one document once all are
//! there. If any step fails, no document is made.

use crate::account::{get_neuron_subaccount, neuron_subaccount, AccountAddress, Principal};
use crate::encoding::hex_encoded;
use crate::memo::{memo_from_name, memo_of, name_fits, name_too_long_message, raw_bytes};
use crate::request::RequestId;
use vstd::prelude::*;
use vstd::string::StringExecFns;

verus! {

/// What the user asks for: the amount to stake, the neuron's name, and a
/// transaction fee if the default is not wanted.
#[derive(Debug)]
pub struct TransferOpts {
    /// ICPs to be staked on the newly created neuron.
    pub amount: String,
    /// The name of the neuron (up to 8 ASCII characters).
    pub name: String,
    /// Transaction fee, default is 10000 e8s.
    pub fee: Option<String>,
}

/// The transfer to be signed: the stake, moved to the neuron's account and
/// tagged with the memo.
#[derive(Debug)]
pub struct TransferRequest {
    pub to: AccountAddress,
    pub amount: String,
    pub fee: Option<String>,
    pub memo: u64,
}

/// The arguments of the claim, to be encoded for the governance canister.
#[derive(Debug)]
pub struct ClaimArguments {
    pub memo: u64,
    pub controller: Principal,
}

/// The update call to be signed.
#[derive(Debug)]
pub struct SignRequest {
    pub canister_id: String,
    pub method_name: String,
    pub query: bool,
    pub update: bool,
    pub argument: Option<String>,
    pub argument_type: Option<String>,
}

/// The status query to be signed.
#[derive(Debug)]
pub struct StatusSignRequest {
    pub request_id: String,
    pub canister_id: String,
}

/// A signed message, with the identifier of the request where it has one.
#[derive(Debug)]
pub struct SignedMessage {
    pub buffer: String,
    pub request_id: Option<RequestId>,
}

/// Why no bundle was made.
#[derive(Debug)]
pub enum BundleError {
    /// The neuron's name is longer than eight bytes.
    Validation(String),
    /// The signed claim came without a request identifier.
    MissingRequestId,
    /// A collaborator failed, with its description.
    Collaborator(String),
    /// An event arrived that the workflow was not waiting for.
    UnexpectedEvent,
}

/// Where the workflow stands.
#[derive(Debug)]
pub enum BundleState {
    AwaitingTransfer { controller: Principal, memo: u64, canister_id: String },
    AwaitingClaimArguments { transfer: String, canister_id: String },
    AwaitingClaim { transfer: String, canister_id: String },
    AwaitingRequestStatus { transfer: String, ingress: String },
    Finished,
}

/// What a collaborator hands back.
#[derive(Debug)]
pub enum BundleEvent {
    TransferSigned(String),
    ClaimEncoded(String),
    ClaimSigned(SignedMessage),
    RequestStatusSigned(String),
    Failed(String),
}

/// What is to be done next.
#[derive(Debug)]
pub enum BundleAction {
    SignTransfer(TransferRequest),
    EncodeClaim(ClaimArguments),
    SignClaim(SignRequest),
    SignRequestStatus(StatusSignRequest),
    Emit(String),
    Abort(BundleError),
}

/// The method of the governance canister that claims a neuron.
pub open spec fn claim_method() -> Seq<char> {
    "claim_or_refresh_neuron_from_account"@
}

/// The form in which the encoded claim arguments are passed on.
pub open spec fn raw_type() -> Seq<char> {
    "raw"@
}

/// The text of an optional text.
pub open spec fn text_of(text: Option<String>) -> Option<Seq<char>> {
    match text {
        Some(text) => Some(text@),
        None => None,
    }
}

/// The request identifier as the status query names it: `0x` and the
/// identifier's hexadecimal form.
pub open spec fn prefixed_request_id(request_id: Seq<u8>) -> Seq<char> {
    "0x"@ + hex_encoded(request_id)
}

/// The bundle of three signed messages, in the order in which they are
/// submitted.
pub open spec fn bundle_document(
    transfer: Seq<char>,
    ingress: Seq<char>,
    request_status: Seq<char>,
) -> Seq<char> {
    "{ \"transfer\": "@ + transfer + ", \"claim\": "@ + "{ \"ingress\": "@ + ingress
        + ", \"request_status\": "@ + request_status + "}"@ + "}"@
}

/// Whether a step gives up: the workflow is over and nothing is emitted.
pub open spec fn gives_up(next: BundleState, action: BundleAction) -> bool {
    next is Finished && action == BundleAction::Abort(BundleError::UnexpectedEvent)
}

/// Whether the workflow, in `state` and given `event`, goes on to `next`
/// with `action`. For each state and event exactly one step follows, up to
/// the identity of the buffers that hold its texts and bytes.
pub open spec fn step_follows(
    state: BundleState,
    event: BundleEvent,
    next: BundleState,
    action: BundleAction,
) -> bool {
    if state is Finished {
        gives_up(next, action)
    } else if let BundleEvent::Failed(reason) = event {
        &&& next is Finished
        &&& action matches BundleAction::Abort(BundleError::Collaborator(text))
        &&& text@ == reason@
    } else {
        match state {
            BundleState::AwaitingTransfer { controller, memo, canister_id } => {
                if let BundleEvent::TransferSigned(message) = event {
                    &&& next matches BundleState::AwaitingClaimArguments {
                        transfer,
                        canister_id: canister,
                    }
                    &&& transfer@ == message@
                    &&& canister@ == canister_id@
                    &&& action matches BundleAction::EncodeClaim(arguments)
                    &&& arguments.memo == memo
                    &&& arguments.controller@ == controller@
                } else {
                    gives_up(next, action)
                }
            },
            BundleState::AwaitingClaimArguments { transfer, canister_id } => {
                if let BundleEvent::ClaimEncoded(encoded) = event {
                    &&& next matches BundleState::AwaitingClaim {
                        transfer: kept,
                        canister_id: canister,
                    }
                    &&& kept@ == transfer@
                    &&& canister@ == canister_id@
                    &&& action matches BundleAction::SignClaim(request)
                    &&& request.canister_id@ == canister_id@
                    &&& request.method_name@ == claim_method()
                    &&& !request.query
                    &&& request.update
                    &&& text_of(request.argument) == Some(encoded@)
                    &&& text_of(request.argument_type) == Some(raw_type())
                } else {
                    gives_up(next, action)
                }
            },
            BundleState::AwaitingClaim { transfer, canister_id } => {
                if let BundleEvent::ClaimSigned(message) = event {
                    if let Some(request_id) = message.request_id {
                        &&& next matches BundleState::AwaitingRequestStatus {
                            transfer: kept,
                            ingress,
                        }
                        &&& kept@ == transfer@
                        &&& ingress@ == message.buffer@
                        &&& action matches BundleAction::SignRequestStatus(request)
                        &&& request.request_id@ == prefixed_request_id(request_id@)
                        &&& request.canister_id@ == canister_id@
                    } else {
                        &&& next is Finished
                        &&& action == BundleAction::Abort(BundleError::MissingRequestId)
                    }
                } else {
                    gives_up(next, action)
                }
            },
            BundleState::AwaitingRequestStatus { transfer, ingress } => {
                if let BundleEvent::RequestStatusSigned(message) = event {
                    &&& next is Finished
                    &&& action matches BundleAction::Emit(document)
                    &&& document@ == bundle_document(transfer@, ingress@, message@)
                } else {
                    gives_up(next, action)
                }
            },
            BundleState::Finished => gives_up(next, action),
        }
    }
}

/// Whether the workflow for `controller`, `opts` and the governance canister
/// `canister_id` begins in `state` with `action`.
pub open spec fn begins_with(
    controller: Seq<u8>,
    opts: TransferOpts,
    canister_id: Seq<char>,
    state: BundleState,
    action: BundleAction,
) -> bool {
    let memo = memo_of(raw_bytes(opts.name@));
    &&& state matches BundleState::AwaitingTransfer {
        controller: kept,
        memo: state_memo,
        canister_id: canister,
    }
    &&& kept@ == controller
    &&& state_memo == memo
    &&& canister@ == canister_id
    &&& action matches BundleAction::SignTransfer(request)
    &&& request.to.owner@ == controller
    &&& request.to.subaccount@ == neuron_subaccount(controller, state_memo)
    &&& request.amount@ == opts.amount@
    &&& text_of(request.fee) == text_of(opts.fee)
    &&& request.memo == memo
}

/// A document is emitted only by the last step: when the signed status
/// query arrives and the transfer and the claim are already there. Every
/// other step emits nothing, so no partial bundle ever leaves the workflow.
pub proof fn lemma_emits_only_complete_bundle(
    state: BundleState,
    event: BundleEvent,
    next: BundleState,
    action: BundleAction,
)
    requires
        step_follows(state, event, next, action),
        action is Emit,
    ensures
        state is AwaitingRequestStatus,
        event is RequestStatusSigned,
        next is Finished,
{
}

/// A failure of any collaborator, and any step taken after the workflow
/// has finished, ends the workflow without a document.
pub proof fn lemma_failure_aborts(
    state: BundleState,
    event: BundleEvent,
    next: BundleState,
    action: BundleAction,
)
    requires
        step_follows(state, event, next, action),
        event is Failed || state is Finished,
    ensures
        next is Finished,
        action is Abort,
{
}

/// A run in which every collaborator succeeds takes four steps and ends in
/// the document that holds the signed transfer, the signed claim and the
/// signed status query, nested in that order. The status query that was
/// asked for is about the request of the signed claim.
pub proof fn lemma_complete_run(
    start: BundleState,
    transfer: String,
    encoded: String,
    claim: SignedMessage,
    request_status: String,
    s1: BundleState,
    a1: BundleAction,
    s2: BundleState,
    a2: BundleAction,
    s3: BundleState,
    a3: BundleAction,
    s4: BundleState,
    a4: BundleAction,
)
    requires
        start is AwaitingTransfer,
        claim.request_id is Some,
        step_follows(start, BundleEvent::TransferSigned(transfer), s1, a1),
        step_follows(s1, BundleEvent::ClaimEncoded(encoded), s2, a2),
        step_follows(s2, BundleEvent::ClaimSigned(claim), s3, a3),
        step_follows(s3, BundleEvent::RequestStatusSigned(request_status), s4, a4),
    ensures
        a1 is EncodeClaim,
        a2 is SignClaim,
        a3 matches BundleAction::SignRequestStatus(query) && query.request_id@
            == prefixed_request_id(claim.request_id->0@),
        a4 matches BundleAction::Emit(document) && document@ == bundle_document(
            transfer@,
            claim.buffer@,
            request_status@,
        ),
        s4 is Finished,
{
}

/// Begins the workflow: checks the neuron's name, derives the memo and the
/// neuron's account from it, and asks for the transfer to be signed. A name
/// of more than eight bytes is refused, and nothing is derived from it.
pub fn bundle_start(controller: Principal, opts: TransferOpts, canister_id: String) -> (res: Result<
    (BundleState, BundleAction),
    BundleError,
>)
    ensures
        res is Ok <==> name_fits(raw_bytes(opts.name@)),
        res matches Ok((state, action)) ==> begins_with(
            controller@,
            opts,
            canister_id@,
            state,
            action,
        ),
        res matches Err(e) ==> e matches BundleError::Validation(text) && text@
            == name_too_long_message(),
{
    let memo = match memo_from_name(opts.name.as_str()) {
        Ok(memo) => memo,
        Err(text) => { return Err(BundleError::Validation(text)); },
    };
    let subaccount = get_neuron_subaccount(&controller, memo);
    let request = TransferRequest {
        to: AccountAddress { owner: controller.clone(), subaccount },
        amount: opts.amount,
        fee: opts.fee,
        memo,
    };
    Ok(
        (
            BundleState::AwaitingTransfer { controller, memo, canister_id },
            BundleAction::SignTransfer(request),
        ),
    )
}

/// Puts the three signed messages into one document.
pub fn bundle_messages(transfer: &str, ingress: &str, request_status: &str) -> (document: String)
    ensures
        document@ == bundle_document(transfer@, ingress@, request_status@),
{
    let mut out = String::new();
    out.append("{ \"transfer\": ");
    out.append(transfer);
    out.append(", \"claim\": ");
    out.append("{ \"ingress\": ");
    out.append(ingress);
    out.append(", \"request_status\": ");
    out.append(request_status);
    out.append("}");
    out.append("}");
    out
}

/// The request identifier as the status query names it.
pub fn status_query_request_id(request_id: &RequestId) -> (text: String)
    ensures
        text@ == prefixed_request_id(request_id@),
{
    let mut text = "0x".to_string();
    text.append(request_id.to_text().as_str());
    text
}

/// Takes the workflow one step on: given what a collaborator handed back,
/// decides what is to be done next.
pub fn bundle_step(state: BundleState, event: BundleEvent) -> (res: (BundleState, BundleAction))
    ensures
        step_follows(state, event, res.0, res.1),
{
    let rejected = (BundleState::Finished, BundleAction::Abort(BundleError::UnexpectedEvent));
    match (state, event) {
        (BundleState::Finished, _) => rejected,
        (_, BundleEvent::Failed(reason)) => (
            BundleState::Finished,
            BundleAction::Abort(BundleError::Collaborator(reason)),
        ),
        (
            BundleState::AwaitingTransfer { controller, memo, canister_id },
            BundleEvent::TransferSigned(transfer),
        ) => (
            BundleState::AwaitingClaimArguments { transfer, canister_id },
            BundleAction::EncodeClaim(ClaimArguments { memo, controller }),
        ),
        (
            BundleState::AwaitingClaimArguments { transfer, canister_id },
            BundleEvent::ClaimEncoded(encoded),
        ) => {
            let request = SignRequest {
                canister_id: canister_id.clone(),
                method_name: "claim_or_refresh_neuron_from_account".to_string(),
                query: false,
                update: true,
                argument: Some(encoded),
                argument_type: Some("raw".to_string()),
            };
            (BundleState::AwaitingClaim { transfer, canister_id }, BundleAction::SignClaim(request))
        },
        (BundleState::AwaitingClaim { transfer, canister_id }, BundleEvent::ClaimSigned(message)) => {
            match message.request_id {
                Some(request_id) => {
                    let request = StatusSignRequest {
                        request_id: status_query_request_id(&request_id),
                        canister_id,
                    };
                    (
                        BundleState::AwaitingRequestStatus { transfer, ingress: message.buffer },
                        BundleAction::SignRequestStatus(request),
                    )
                },
                None => (
                    BundleState::Finished,
                    BundleAction::Abort(BundleError::MissingRequestId),
                ),
            }
        },
        (
            BundleState::AwaitingRequestStatus { transfer, ingress },
            BundleEvent::RequestStatusSigned(request_status),
        ) => (
            BundleState::Finished,
            BundleAction::Emit(
                bundle_messages(transfer.as_str(), ingress.as_str(), request_status.as_str()),
            ),
        ),
        _ => rejected,
    }
}

} // verus!
