use quill::account::Principal;
use quill::capture::{AgentOutcome, SignError, SigningCapture, TransportError, TransportOperation};
use quill::replay::{replay_request, ReplayError, ReplayProxy};
use quill::request::{RequestId, RequestStatus};

const CANISTER: &str = "2chl6-4hpzw-vqaaa-aaaaa-c";

fn request_id() -> RequestId {
    let mut bytes = [0u8; 32];
    for (i, b) in bytes.iter_mut().enumerate() {
        *b = (i as u8) * 8 + 1;
    }
    RequestId(bytes)
}

fn canister() -> Principal {
    Principal::from_text(CANISTER).unwrap()
}

fn record(content: &str) -> RequestStatus {
    RequestStatus {
        canister_id: CANISTER.to_string(),
        request_id: request_id().to_text(),
        content: content.to_string(),
    }
}

#[test]
fn request_id_text_is_lower_case_hex() {
    assert_eq!(
        request_id().to_text(),
        "0109111921293139414951596169717981899199a1a9b1b9c1c9d1d9e1e9f1f9"
    );
}

#[test]
fn request_id_is_read_from_hex_of_either_case() {
    let lower = "0109111921293139414951596169717981899199a1a9b1b9c1c9d1d9e1e9f1f9";
    let upper = "0109111921293139414951596169717981899199A1A9B1B9C1C9D1D9E1E9F1F9";
    assert_eq!(RequestId::from_text(lower).unwrap().0, request_id().0);
    assert_eq!(RequestId::from_text(upper).unwrap().0, request_id().0);
}

#[test]
fn request_id_text_round_trip() {
    let text = request_id().to_text();
    assert_eq!(RequestId::from_text(&text).unwrap().to_text(), text);
}

#[test]
fn request_id_needs_exactly_32_bytes() {
    assert!(RequestId::from_text("").is_none());
    assert!(RequestId::from_text("01").is_none());
    assert!(RequestId::from_text(&"ab".repeat(31)).is_none());
    assert!(RequestId::from_text(&"ab".repeat(33)).is_none());
    assert!(RequestId::from_text(&"ab".repeat(32)).is_some());
}

#[test]
fn request_id_rejects_text_that_is_not_hex() {
    assert!(RequestId::from_text(&"zz".repeat(32)).is_none());
    assert!(RequestId::from_text(&"a".repeat(63)).is_none());
    let mut text = "ab".repeat(31);
    text.push_str("0x");
    assert!(RequestId::from_text(&text).is_none());
}

#[test]
fn capture_records_the_content_and_reports_no_transport() {
    let mut capture = SigningCapture::new(Some(request_id()));
    let err = capture.read_state(&canister(), vec![0xd9, 0xd9, 0xf7, 0x00, 0xff]);
    assert_eq!(err, TransportError::MissingReplicaTransport);
    let status = capture
        .into_request_status(AgentOutcome::MissingReplicaTransport, CANISTER)
        .unwrap();
    assert_eq!(status.canister_id, CANISTER);
    assert_eq!(status.request_id, request_id().to_text());
    assert_eq!(status.content, "d9d9f700ff");
}

#[test]
fn capture_is_written_once() {
    let mut capture = SigningCapture::new(Some(request_id()));
    assert_eq!(
        capture.read_state(&canister(), vec![1, 2, 3]),
        TransportError::MissingReplicaTransport
    );
    assert_eq!(
        capture.read_state(&canister(), vec![4, 5, 6]),
        TransportError::AlreadyCaptured
    );
    let status = capture
        .into_request_status(AgentOutcome::MissingReplicaTransport, CANISTER)
        .unwrap();
    assert_eq!(status.content, "010203");
}

#[test]
fn capture_of_empty_content() {
    let mut capture = SigningCapture::new(Some(request_id()));
    capture.read_state(&canister(), vec![]);
    let status = capture
        .into_request_status(AgentOutcome::MissingReplicaTransport, CANISTER)
        .unwrap();
    assert_eq!(status.content, "");
}

#[test]
fn capture_refuses_call_query_and_status() {
    let capture = SigningCapture::new(None);
    assert_eq!(capture.call(), TransportError::Unsupported(TransportOperation::Call));
    assert_eq!(capture.query(), TransportError::Unsupported(TransportOperation::Query));
    assert_eq!(capture.status(), TransportError::Unsupported(TransportOperation::Status));
}

#[test]
fn unexpected_agent_outcome_gives_no_record() {
    let mut capture = SigningCapture::new(Some(request_id()));
    capture.read_state(&canister(), vec![1]);
    assert_eq!(
        capture.into_request_status(AgentOutcome::Other, CANISTER).unwrap_err(),
        SignError::UnexpectedOutcome
    );
}

#[test]
fn empty_slot_gives_no_record() {
    let capture = SigningCapture::new(Some(request_id()));
    assert_eq!(
        capture
            .into_request_status(AgentOutcome::MissingReplicaTransport, CANISTER)
            .unwrap_err(),
        SignError::NothingCaptured
    );
}

#[test]
fn capture_without_request_id_gives_no_record() {
    let mut capture = SigningCapture::new(None);
    capture.read_state(&canister(), vec![1]);
    assert_eq!(
        capture
            .into_request_status(AgentOutcome::MissingReplicaTransport, CANISTER)
            .unwrap_err(),
        SignError::MissingRequestId
    );
}

#[test]
fn replay_sends_the_stored_content_whatever_the_caller_supplies() {
    let proxy = ReplayProxy::new(record("d9d9f7a167636f6e74656e74"));
    let stored: Vec<u8> = vec![0xd9, 0xd9, 0xf7, 0xa1, 0x67, 0x63, 0x6f, 0x6e, 0x74, 0x65, 0x6e, 0x74];
    let other = Principal::from_bytes(vec![9, 9, 9]).unwrap();
    let first = proxy.read_state(&other, &[0xde, 0xad, 0xbe, 0xef]).unwrap();
    assert_eq!(first.content, stored);
    assert_eq!(first.canister_id.as_slice(), canister().as_slice());
    let second = proxy.read_state(&canister(), &[]).unwrap();
    assert_eq!(second.content, stored);
    assert_eq!(second.canister_id.as_slice(), canister().as_slice());
}

#[test]
fn replay_reads_upper_case_content() {
    let proxy = ReplayProxy::new(record("DEADbeef"));
    let request = proxy.read_state(&canister(), &[1]).unwrap();
    assert_eq!(request.content, vec![0xde, 0xad, 0xbe, 0xef]);
}

#[test]
fn replay_of_a_capture_sends_the_captured_bytes() {
    let content: Vec<u8> = (0..=255u8).collect();
    let mut capture = SigningCapture::new(Some(request_id()));
    capture.read_state(&canister(), content.clone());
    let status = capture
        .into_request_status(AgentOutcome::MissingReplicaTransport, CANISTER)
        .unwrap();
    let proxy = ReplayProxy::new(status.clone());
    let request = proxy.read_state(&canister(), &[0; 4]).unwrap();
    assert_eq!(request.content, content);
    assert_eq!(status.content.len(), 512);
}

#[test]
fn replay_rejects_a_bad_canister_id() {
    let mut req = record("00");
    req.canister_id = "nonsense".to_string();
    let proxy = ReplayProxy::new(req);
    assert_eq!(
        proxy.read_state(&canister(), &[]).unwrap_err(),
        ReplayError::InvalidCanisterId
    );
}

#[test]
fn replay_rejects_content_that_is_not_hex() {
    assert_eq!(
        ReplayProxy::new(record("0g")).read_state(&canister(), &[]).unwrap_err(),
        ReplayError::InvalidContent
    );
    assert_eq!(
        ReplayProxy::new(record("abc")).read_state(&canister(), &[]).unwrap_err(),
        ReplayError::InvalidContent
    );
    assert_eq!(
        ReplayProxy::new(record("\u{e9}")).read_state(&canister(), &[]).unwrap_err(),
        ReplayError::InvalidContent
    );
}

#[test]
fn replay_checks_the_canister_before_the_content() {
    assert_eq!(replay_request(None, "zz").unwrap_err(), ReplayError::InvalidCanisterId);
    assert_eq!(
        replay_request(Some(canister()), "zz").unwrap_err(),
        ReplayError::InvalidContent
    );
    let request = replay_request(Some(canister()), "0aff").unwrap();
    assert_eq!(request.content, vec![0x0a, 0xff]);
}

#[test]
fn replay_refuses_call_query_and_status() {
    let proxy = ReplayProxy::new(record("00"));
    assert_eq!(proxy.call(), TransportError::Unsupported(TransportOperation::Call));
    assert_eq!(proxy.query(), TransportError::Unsupported(TransportOperation::Query));
    assert_eq!(proxy.status(), TransportError::Unsupported(TransportOperation::Status));
}
