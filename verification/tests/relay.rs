use slack_uploader::diawi::handle_submit_response;
use slack_uploader::diawi::poll_step;
use slack_uploader::diawi::run_relay_poll;
use slack_uploader::diawi::PollVerdict;
use slack_uploader::diawi::RelayOutcome;
use slack_uploader::diawi::StatusResponse;
use slack_uploader::diawi::MAX_POLL_ATTEMPTS;

fn pending() -> StatusResponse {
    StatusResponse { status: 2001, message: None, link: None, qrcode: None }
}

fn ready(link: &str, qr: &str) -> StatusResponse {
    StatusResponse {
        status: 2000,
        message: None,
        link: Some(link.to_string()),
        qrcode: Some(qr.to_string()),
    }
}

#[test]
fn submit_needs_job_identifier() {
    assert_eq!(handle_submit_response(Some("job-42".to_string())).unwrap(), "job-42");
    assert_eq!(
        handle_submit_response(None).unwrap_err(),
        "missing job identifier in relay response"
    );
}

#[test]
fn pending_status_waits() {
    assert!(matches!(poll_step(pending()), PollVerdict::Pending));
}

#[test]
fn ready_status_yields_link_and_qr() {
    match poll_step(ready("https://relay/x", "qr-ref")) {
        PollVerdict::Ready { link, qr_code } => {
            assert_eq!(link, "https://relay/x");
            assert_eq!(qr_code, "qr-ref");
        }
        _ => panic!("a complete ready status must be ready"),
    }
}

#[test]
fn ready_without_link_violates_contract() {
    let r = StatusResponse {
        status: 2000,
        message: None,
        link: None,
        qrcode: Some("qr-ref".to_string()),
    };
    match poll_step(r) {
        PollVerdict::ContractViolation { error } => {
            assert_eq!(error, "link not received in status response");
        }
        _ => panic!("a ready status without a link is a contract violation"),
    }
}

#[test]
fn ready_without_qr_violates_contract() {
    let r = StatusResponse {
        status: 2000,
        message: None,
        link: Some("https://relay/x".to_string()),
        qrcode: None,
    };
    match poll_step(r) {
        PollVerdict::ContractViolation { error } => {
            assert_eq!(error, "qr code not received in status response");
        }
        _ => panic!("a ready status without a QR reference is a contract violation"),
    }
}

#[test]
fn other_status_fails_with_message() {
    let r = StatusResponse {
        status: 4001,
        message: Some("invalid token".to_string()),
        link: None,
        qrcode: None,
    };
    match poll_step(r) {
        PollVerdict::Failed { error } => {
            assert_eq!(error, "error while uploading to diawi: invalid token");
        }
        _ => panic!("an unknown status must fail"),
    }
}

#[test]
fn other_status_without_message_uses_placeholder() {
    let r = StatusResponse { status: 500, message: None, link: None, qrcode: None };
    match poll_step(r) {
        PollVerdict::Failed { error } => {
            assert_eq!(error, "error while uploading to diawi: un-expected error");
        }
        _ => panic!("an unknown status must fail"),
    }
}

#[test]
fn one_pending_then_ready() {
    let report = run_relay_poll(vec![pending(), ready("https://relay/x", "qr-ref")]);
    assert_eq!(report.polls, 2);
    assert_eq!(report.sleeps, 1);
    match report.outcome {
        RelayOutcome::Ready { link, qr_code } => {
            assert_eq!(link, "https://relay/x");
            assert_eq!(qr_code, "qr-ref");
        }
        _ => panic!("the run must end ready"),
    }
}

#[test]
fn always_pending_times_out_at_the_budget() {
    let mut responses: Vec<StatusResponse> = Vec::new();
    for _ in 0..200 {
        responses.push(pending());
    }
    let report = run_relay_poll(responses);
    assert_eq!(report.polls, MAX_POLL_ATTEMPTS);
    assert_eq!(report.sleeps, MAX_POLL_ATTEMPTS);
    match report.outcome {
        RelayOutcome::TimedOut { error } => {
            assert_eq!(error, "diawi upload timed out");
        }
        _ => panic!("the run must time out"),
    }
}

#[test]
fn exactly_budget_pendings_time_out() {
    let mut responses: Vec<StatusResponse> = Vec::new();
    for _ in 0..MAX_POLL_ATTEMPTS {
        responses.push(pending());
    }
    let report = run_relay_poll(responses);
    assert_eq!(report.polls, 150);
    assert_eq!(report.sleeps, 150);
    assert!(matches!(report.outcome, RelayOutcome::TimedOut { .. }));
}

#[test]
fn failure_stops_the_loop_at_once() {
    let failed = StatusResponse {
        status: 4002,
        message: Some("file too large".to_string()),
        link: None,
        qrcode: None,
    };
    let report = run_relay_poll(vec![pending(), failed, pending(), pending()]);
    assert_eq!(report.polls, 2);
    assert_eq!(report.sleeps, 1);
    match report.outcome {
        RelayOutcome::Failed { error } => {
            assert_eq!(error, "error while uploading to diawi: file too large");
        }
        _ => panic!("the run must fail"),
    }
}

#[test]
fn ready_outcome_becomes_upload_response() {
    let outcome = RelayOutcome::Ready {
        link: "https://relay/x".to_string(),
        qr_code: "qr-ref".to_string(),
    };
    let upload = outcome.into_upload_response().unwrap();
    assert_eq!(upload.link, "https://relay/x");
    assert_eq!(upload.qr_code, "qr-ref");
}

#[test]
fn timed_out_outcome_becomes_error() {
    let outcome = RelayOutcome::TimedOut { error: "diawi upload timed out".to_string() };
    match outcome.into_upload_response() {
        Err(msg) => assert_eq!(msg, "diawi upload timed out"),
        Ok(_) => panic!("a timed-out run must not yield an upload"),
    }
}
