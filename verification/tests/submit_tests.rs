use soroban_rpc::responses::{GetTransactionStatusResponse, SendTransactionResponse,
    TransactionStatusResult};
use soroban_rpc::submit::{
    check_acknowledgment, classify_status, poll_step, PollStep, StatusClass,
    DEFAULT_POLL_INTERVAL_SECS, DEFAULT_TIMEOUT_SECS,
};
use soroban_rpc::Error;

fn status_response(status: &str, results: Vec<&str>) -> GetTransactionStatusResponse {
    GetTransactionStatusResponse {
        id: "tx1".to_string(),
        status: status.to_string(),
        envelope_xdr: None,
        result_xdr: None,
        result_meta_xdr: None,
        results: results
            .into_iter()
            .map(|xdr| TransactionStatusResult { xdr: xdr.to_string() })
            .collect(),
    }
}

/// Drives the polling loop over a fixed status sequence, as the transport
/// loop does, and reports (polls issued, terminal step).
fn drive(statuses: &[&str], elapsed: &[u64]) -> (usize, PollStep) {
    let mut polls = 0;
    for (i, status) in statuses.iter().enumerate() {
        polls += 1;
        let resp = status_response(status, vec!["AAAA"]);
        match poll_step(resp, elapsed[i], DEFAULT_TIMEOUT_SECS) {
            PollStep::ContinuePolling => continue,
            terminal => return (polls, terminal),
        }
    }
    panic!("status sequence exhausted without a terminal step");
}

#[test]
fn default_policy_constants() {
    assert_eq!(DEFAULT_TIMEOUT_SECS, 10);
    assert_eq!(DEFAULT_POLL_INTERVAL_SECS, 1);
}

#[test]
fn classify_known_and_unknown() {
    assert!(matches!(classify_status("success"), StatusClass::Success));
    assert!(matches!(classify_status("error"), StatusClass::Error));
    assert!(matches!(classify_status("pending"), StatusClass::Pending));
    assert!(matches!(classify_status("unknown"), StatusClass::Other));
    assert!(matches!(classify_status(""), StatusClass::Other));
    assert!(matches!(classify_status("Success"), StatusClass::Other));
}

#[test]
fn pending_then_success_polls_n_plus_one() {
    let (polls, step) = drive(&["pending", "pending", "pending", "success"], &[0, 1, 2, 3]);
    assert_eq!(polls, 4);
    match step {
        PollStep::Finished(results) => {
            assert_eq!(results.len(), 1);
            assert_eq!(results[0].xdr, "AAAA");
        }
        _ => panic!("expected the success results"),
    }
}

#[test]
fn immediate_success_polls_once() {
    let (polls, step) = drive(&["success"], &[0]);
    assert_eq!(polls, 1);
    assert!(matches!(step, PollStep::Finished(_)));
}

#[test]
fn error_at_position_k_polls_k_plus_one() {
    let (polls, step) = drive(&["pending", "pending", "error", "success"], &[0, 1, 2, 3]);
    assert_eq!(polls, 3);
    assert!(matches!(
        step,
        PollStep::Failed(Error::TransactionSubmissionFailed)
    ));
}

#[test]
fn acknowledgment_error_means_zero_status_polls() {
    let ack = SendTransactionResponse {
        id: "tx1".to_string(),
        status: "error".to_string(),
    };
    assert!(matches!(
        check_acknowledgment(&ack),
        Err(Error::TransactionSubmissionFailed)
    ));
}

#[test]
fn acknowledgment_success_still_enters_the_loop() {
    // A "success" acknowledgment does not short-circuit: the loop is entered
    // and must query the authoritative status at least once.
    let ack = SendTransactionResponse {
        id: "tx1".to_string(),
        status: "success".to_string(),
    };
    assert!(check_acknowledgment(&ack).is_ok());
    let pending_ack = SendTransactionResponse {
        id: "tx1".to_string(),
        status: "pending".to_string(),
    };
    assert!(check_acknowledgment(&pending_ack).is_ok());
}

#[test]
fn unknown_status_terminates_immediately_with_the_literal() {
    let (polls, step) = drive(&["pending", "unknown", "success"], &[0, 1, 2]);
    assert_eq!(polls, 2);
    match step {
        PollStep::Failed(Error::UnexpectedTransactionStatus(s)) => assert_eq!(s, "unknown"),
        _ => panic!("expected an unexpected-status failure"),
    }
}

#[test]
fn ceiling_exceeded_while_pending_times_out() {
    let (polls, step) = drive(&["pending", "pending", "pending"], &[0, 5, 11]);
    assert_eq!(polls, 3);
    assert!(matches!(
        step,
        PollStep::Failed(Error::TransactionSubmissionTimeout)
    ));
}

#[test]
fn ceiling_is_checked_only_after_a_pending_observation() {
    // A success observed past the ceiling still succeeds: the elapsed-time
    // check fires only on `pending`.
    let (polls, step) = drive(&["success"], &[99]);
    assert_eq!(polls, 1);
    assert!(matches!(step, PollStep::Finished(_)));
}

#[test]
fn elapsed_equal_to_the_ceiling_keeps_polling() {
    let resp = status_response("pending", vec![]);
    assert!(matches!(
        poll_step(resp, DEFAULT_TIMEOUT_SECS, DEFAULT_TIMEOUT_SECS),
        PollStep::ContinuePolling
    ));
}
