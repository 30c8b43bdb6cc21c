use quill::poller::{
    poll_script, poll_step, progress_notice, submit_target, PollError, PollEvent, PollStep,
    StatusResponse, SubmitError, POLL_DELAY_MS,
};
use quill::request::{RequestId, RequestStatus};

fn request_id() -> RequestId {
    RequestId([0xab; 32])
}

fn status(response: StatusResponse) -> PollEvent {
    PollEvent::Status(response)
}

#[test]
fn reply_after_two_progress_notices() {
    let script = vec![
        status(StatusResponse::Processing),
        status(StatusResponse::Processing),
        status(StatusResponse::Replied { reply: vec![1, 2, 3] }),
    ];
    let report = poll_script(&request_id(), &script);
    assert_eq!(report.notices, 2);
    assert_eq!(report.polls, 3);
    match report.outcome {
        Some(Ok(payload)) => assert_eq!(payload, vec![1, 2, 3]),
        other => panic!("no payload: {:?}", other),
    }
}

#[test]
fn rejection_ends_polling_at_once() {
    let script = vec![
        status(StatusResponse::Rejected { reject_code: 5, reject_message: "bad".to_string() }),
        status(StatusResponse::Replied { reply: vec![1] }),
    ];
    let report = poll_script(&request_id(), &script);
    assert_eq!(report.notices, 0);
    assert_eq!(report.polls, 1);
    match report.outcome {
        Some(Err(PollError::Rejected { reject_code, reject_message })) => {
            assert_eq!(reject_code, 5);
            assert_eq!(reject_message, "bad");
        }
        other => panic!("no rejection: {:?}", other),
    }
}

#[test]
fn done_without_reply_names_the_request() {
    let script = vec![status(StatusResponse::Done)];
    let report = poll_script(&request_id(), &script);
    assert_eq!(report.polls, 1);
    assert_eq!(report.notices, 0);
    match report.outcome {
        Some(Err(PollError::DoneWithoutReply { request_id })) => {
            assert_eq!(request_id, "ab".repeat(32));
        }
        other => panic!("not done: {:?}", other),
    }
}

#[test]
fn transport_failure_ends_polling() {
    let script = vec![
        status(StatusResponse::Unknown),
        PollEvent::TransportFailure("connection refused".to_string()),
        status(StatusResponse::Replied { reply: vec![] }),
    ];
    let report = poll_script(&request_id(), &script);
    assert_eq!(report.notices, 1);
    assert_eq!(report.polls, 2);
    match report.outcome {
        Some(Err(PollError::Transport(text))) => assert_eq!(text, "connection refused"),
        other => panic!("no failure: {:?}", other),
    }
}

#[test]
fn script_without_an_end_leaves_the_outcome_open() {
    let script = vec![
        status(StatusResponse::Unknown),
        status(StatusResponse::Received),
        status(StatusResponse::Processing),
    ];
    let report = poll_script(&request_id(), &script);
    assert_eq!(report.notices, 3);
    assert_eq!(report.polls, 3);
    assert!(report.outcome.is_none());
}

#[test]
fn empty_script_makes_no_poll() {
    let report = poll_script(&request_id(), &Vec::new());
    assert_eq!(report.notices, 0);
    assert_eq!(report.polls, 0);
    assert!(report.outcome.is_none());
}

#[test]
fn pending_statuses_wait_for_the_fixed_delay() {
    for response in [StatusResponse::Unknown, StatusResponse::Received, StatusResponse::Processing] {
        match poll_step(&request_id(), &status(response)) {
            PollStep::Wait { delay_ms } => {
                assert_eq!(delay_ms, 500);
                assert_eq!(delay_ms, POLL_DELAY_MS);
            }
            other => panic!("did not wait: {:?}", other),
        }
    }
}

#[test]
fn reply_is_returned_as_it_came() {
    let event = status(StatusResponse::Replied { reply: vec![0x44, 0x49, 0x44, 0x4c] });
    match poll_step(&request_id(), &event) {
        PollStep::Finished(Ok(payload)) => assert_eq!(payload, vec![0x44, 0x49, 0x44, 0x4c]),
        other => panic!("no reply: {:?}", other),
    }
}

#[test]
fn progress_notice_text() {
    assert_eq!(progress_notice(), "The request is being processed...");
}

#[test]
fn submit_target_reads_canister_and_request() {
    let req = RequestStatus {
        canister_id: "2chl6-4hpzw-vqaaa-aaaaa-c".to_string(),
        request_id: "AB".repeat(32),
        content: "00".to_string(),
    };
    let target = submit_target(&req).unwrap();
    assert_eq!(target.canister_id.as_slice(), &[0xef, 0xcd, 0xab, 0, 0, 0, 0, 0, 1]);
    assert_eq!(target.request_id.0, [0xab; 32]);
}

#[test]
fn submit_target_rejects_a_bad_canister_id() {
    let req = RequestStatus {
        canister_id: "2chl6-4hpzw".to_string(),
        request_id: "ab".repeat(32),
        content: "00".to_string(),
    };
    assert_eq!(submit_target(&req).unwrap_err(), SubmitError::InvalidCanisterId);
}

#[test]
fn submit_target_rejects_a_bad_request_id() {
    let req = RequestStatus {
        canister_id: "aaaaa-aa".to_string(),
        request_id: "0x".to_string() + &"ab".repeat(32),
        content: "00".to_string(),
    };
    assert_eq!(submit_target(&req).unwrap_err(), SubmitError::InvalidRequestId);
    let short = RequestStatus {
        canister_id: "aaaaa-aa".to_string(),
        request_id: "abcd".to_string(),
        content: "00".to_string(),
    };
    assert_eq!(submit_target(&short).unwrap_err(), SubmitError::InvalidRequestId);
}

#[test]
fn reply_is_decoded_as_return_values_of_the_method() {
    let canister = quill::account::Principal::from_bytes(vec![1, 2, 3]).unwrap();
    let request = quill::poller::reply_decode_request(
        vec![0x44, 0x49],
        canister,
        Some("claim_or_refresh_neuron_from_account".to_string()),
    );
    assert_eq!(request.blob, vec![0x44, 0x49]);
    assert_eq!(request.canister_id.as_slice(), &[1, 2, 3]);
    assert_eq!(request.method_name, "claim_or_refresh_neuron_from_account");
    assert_eq!(request.part, "rets");
}

#[test]
fn reply_without_a_method_is_decoded_under_the_empty_name() {
    let canister = quill::account::Principal::from_bytes(vec![]).unwrap();
    let request = quill::poller::reply_decode_request(vec![], canister, None);
    assert_eq!(request.method_name, "");
    assert_eq!(request.part, "rets");
}
