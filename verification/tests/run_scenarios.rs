//! End-to-end scenarios of the payout run state machine, driven with mock
//! call outcomes in place of the remote service.

use payout_pipeline::error::{ErrorKind, PayError, Step};
use payout_pipeline::model::{PayRequest, Response};
use payout_pipeline::pipeline::{Action, Auth, CallOutcome, PayConfig, PayRun, PipelineState};

fn sample_request() -> PayRequest {
    PayRequest {
        name: "A. Kumar".to_string(),
        email: "a@x.com".to_string(),
        contact: "9990001111".to_string(),
        account_number: "0011223344".to_string(),
        ifsc: "HDFC0000001".to_string(),
        amount: 50000,
    }
}

fn sample_config() -> PayConfig {
    PayConfig {
        key_id: "rzp_key".to_string(),
        key_secret: "rzp_secret".to_string(),
        bearer_token: "rzp_bearer".to_string(),
    }
}

fn new_run(token: &str) -> PayRun {
    PayRun::new(sample_request(), sample_config(), token.to_string()).expect("credentials present")
}

fn ok_outcome(id: &str) -> CallOutcome {
    CallOutcome::Delivered(200, Some(Response { id: id.to_string() }))
}

#[test]
fn all_four_steps_succeed() {
    let mut run = new_run("tok_run_1");

    match run.next_action() {
        Action::CallContact { body, auth } => {
            assert_eq!(body.name, "A. Kumar");
            assert_eq!(body.email, "a@x.com");
            assert_eq!(body.contact, "9990001111");
            assert_eq!(body.contact_type, "customer");
            match auth {
                Auth::Basic { key_id, key_secret } => {
                    assert_eq!(key_id, "rzp_key");
                    assert_eq!(key_secret, "rzp_secret");
                }
                Auth::Bearer { .. } => panic!("contact call must use basic auth"),
            }
        }
        _ => panic!("first dispatch must be the contact call"),
    }
    run.apply(ok_outcome("cont_1"));

    match run.next_action() {
        Action::CallFundAccount { body, .. } => {
            assert_eq!(body.contact_id, "cont_1");
            assert_eq!(body.account_type, "bank_account");
            assert_eq!(body.bank_account.name, "A. Kumar");
            assert_eq!(body.bank_account.account_number, "0011223344");
            assert_eq!(body.bank_account.ifsc, "HDFC0000001");
        }
        _ => panic!("second dispatch must be the fund-account call"),
    }
    run.apply(ok_outcome("fa_1"));

    match run.next_action() {
        Action::CallPayout { body, idempotency_token, .. } => {
            assert_eq!(body.fund_account_id, "fa_1");
            assert_eq!(body.account_number, "0011223344");
            assert_eq!(body.amount, 50000);
            assert_eq!(body.currency, "INR");
            assert_eq!(body.mode, "IMPS");
            assert_eq!(body.purpose, "payout");
            assert_eq!(idempotency_token, "tok_run_1");
        }
        _ => panic!("third dispatch must be the payout call"),
    }
    run.apply(ok_outcome("pout_1"));

    match run.next_action() {
        Action::CallApproval { payout_id, auth } => {
            assert_eq!(payout_id, "pout_1");
            match auth {
                Auth::Bearer { token } => assert_eq!(token, "rzp_bearer"),
                Auth::Basic { .. } => panic!("approval call must use bearer auth"),
            }
        }
        _ => panic!("fourth dispatch must be the approval call"),
    }
    run.apply(ok_outcome("appr_1"));

    assert!(run.is_finished());
    assert_eq!(run.into_result(), Ok("appr_1".to_string()));
}

#[test]
fn payout_rejection_halts_before_approval() {
    let mut run = new_run("tok_run_1");
    run.apply(ok_outcome("cont_1"));
    run.apply(ok_outcome("fa_1"));

    // The payout-creation mock answers HTTP 400; the run must finish at once,
    // so the approval endpoint is never dispatched.
    run.apply(CallOutcome::Delivered(400, None));
    assert!(run.is_finished());
    assert_eq!(
        run.into_result(),
        Err(PayError { step: Step::Payout, kind: ErrorKind::RemoteRejection(400) })
    );
}

#[test]
fn contact_failure_halts_whole_run() {
    let mut run = new_run("tok_run_1");
    run.apply(CallOutcome::Delivered(500, None));
    assert!(run.is_finished());
    assert_eq!(
        run.into_result(),
        Err(PayError { step: Step::Contact, kind: ErrorKind::RemoteRejection(500) })
    );
}

#[test]
fn fund_account_transport_failure_halts_run() {
    let mut run = new_run("tok_run_1");
    run.apply(ok_outcome("cont_1"));
    run.apply(CallOutcome::TransportFailure("connection timed out".to_string()));
    assert!(run.is_finished());
    assert_eq!(
        run.into_result(),
        Err(PayError {
            step: Step::FundAccount,
            kind: ErrorKind::TransportError("connection timed out".to_string()),
        })
    );
}

#[test]
fn undecodable_success_body_is_decode_error() {
    let mut run = new_run("tok_run_1");
    run.apply(CallOutcome::Delivered(200, None));
    assert_eq!(
        run.into_result(),
        Err(PayError { step: Step::Contact, kind: ErrorKind::DecodeError })
    );
}

#[test]
fn empty_identifier_is_invariant_violation() {
    let mut run = new_run("tok_run_1");
    run.apply(ok_outcome("cont_1"));
    run.apply(ok_outcome("fa_1"));
    run.apply(CallOutcome::Delivered(200, Some(Response { id: String::new() })));
    assert_eq!(
        run.into_result(),
        Err(PayError { step: Step::Payout, kind: ErrorKind::InvariantViolation })
    );
}

#[test]
fn success_status_boundaries() {
    // 299 is still a success; 300 and 199 are rejections.
    let mut run = new_run("tok_run_1");
    run.apply(CallOutcome::Delivered(299, Some(Response { id: "cont_1".to_string() })));
    assert!(!run.is_finished());

    let mut run300 = new_run("tok_run_2");
    run300.apply(CallOutcome::Delivered(300, None));
    assert_eq!(
        run300.into_result(),
        Err(PayError { step: Step::Contact, kind: ErrorKind::RemoteRejection(300) })
    );

    let mut run199 = new_run("tok_run_3");
    run199.apply(CallOutcome::Delivered(199, None));
    assert_eq!(
        run199.into_result(),
        Err(PayError { step: Step::Contact, kind: ErrorKind::RemoteRejection(199) })
    );
}

#[test]
fn missing_bearer_credential_is_configuration_error() {
    let config = PayConfig {
        key_id: "rzp_key".to_string(),
        key_secret: "rzp_secret".to_string(),
        bearer_token: String::new(),
    };
    let r = PayRun::new(sample_request(), config, "tok_run_1".to_string());
    assert_eq!(
        r.err(),
        Some(PayError { step: Step::Approval, kind: ErrorKind::ConfigurationError })
    );
}

#[test]
fn missing_basic_credential_is_configuration_error() {
    let config = PayConfig {
        key_id: String::new(),
        key_secret: "rzp_secret".to_string(),
        bearer_token: "rzp_bearer".to_string(),
    };
    let r = PayRun::new(sample_request(), config, "tok_run_1".to_string());
    assert_eq!(
        r.err(),
        Some(PayError { step: Step::Contact, kind: ErrorKind::ConfigurationError })
    );
}

#[test]
fn idempotency_token_stable_within_a_run_distinct_across_runs() {
    let mut run = new_run("tok_run_1");
    run.apply(ok_outcome("cont_1"));
    run.apply(ok_outcome("fa_1"));

    // Two dispatch attempts of the same payout step: the token must not be
    // regenerated between them.
    let first = match run.next_action() {
        Action::CallPayout { idempotency_token, .. } => idempotency_token,
        _ => panic!("expected the payout call"),
    };
    let second = match run.next_action() {
        Action::CallPayout { idempotency_token, .. } => idempotency_token,
        _ => panic!("expected the payout call"),
    };
    assert_eq!(first, "tok_run_1");
    assert_eq!(first, second);

    // An independent run with its own token attaches a different one.
    let mut other = new_run("tok_run_2");
    other.apply(ok_outcome("cont_9"));
    other.apply(ok_outcome("fa_9"));
    let other_token = match other.next_action() {
        Action::CallPayout { idempotency_token, .. } => idempotency_token,
        _ => panic!("expected the payout call"),
    };
    assert_ne!(first, other_token);
}

#[test]
fn state_holds_threaded_identifiers() {
    let mut run = new_run("tok_run_1");
    run.apply(ok_outcome("cont_1"));
    match &run.state {
        PipelineState::ContactCreated { contact_id } => assert_eq!(contact_id, "cont_1"),
        _ => panic!("expected the contact-created state"),
    }
    run.apply(ok_outcome("fa_1"));
    match &run.state {
        PipelineState::FundAccountCreated { fund_account_id } => {
            assert_eq!(fund_account_id, "fa_1")
        }
        _ => panic!("expected the fund-account-created state"),
    }
}
