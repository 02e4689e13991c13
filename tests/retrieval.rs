use inkcheck::error::ErrorKind;
use inkcheck::retrieval::{
    request_oid, AttemptOutcome, AuthFailureKind, Retrieval, RetrievalStep, SnmpFailure,
    MAX_RECOVERIES,
};
use inkcheck::value::SnmpValue;

fn reply(v: i64) -> AttemptOutcome {
    AttemptOutcome::Reply { error_status: 0, value: Some(SnmpValue::Integer(v)) }
}

#[test]
fn time_sync_updates_do_not_spend_the_timeout_budget() {
    let mut r = Retrieval::new(0);
    assert_eq!(r.step(AttemptOutcome::TimeSyncUpdated), RetrievalStep::Retry);
    assert_eq!(r.step(AttemptOutcome::TimeSyncUpdated), RetrievalStep::Retry);
    assert_eq!(r.step(reply(42)), RetrievalStep::Done(Ok(SnmpValue::Integer(42))));
    assert_eq!(r.timeouts, 0);
    assert_eq!(r.recoveries, 2);
}

#[test]
fn timeouts_exhaust_the_budget() {
    let mut r = Retrieval::new(2);
    assert_eq!(r.step(AttemptOutcome::Timeout), RetrievalStep::Retry);
    assert_eq!(r.step(AttemptOutcome::Timeout), RetrievalStep::Retry);
    match r.step(AttemptOutcome::Timeout) {
        RetrievalStep::Done(Err(e)) => assert!(matches!(e.kind, ErrorKind::SnmpRequest(_))),
        other => panic!("unexpected step {other:?}"),
    }
}

#[test]
fn missing_boot_counter_reinitializes() {
    let mut r = Retrieval::new(1);
    assert_eq!(r.step(AttemptOutcome::EngineBootsMissing), RetrievalStep::ReinitAndRetry);
    assert_eq!(r.step(AttemptOutcome::Timeout), RetrievalStep::Retry);
    assert_eq!(r.step(reply(7)), RetrievalStep::Done(Ok(SnmpValue::Integer(7))));
}

#[test]
fn recoveries_are_bounded() {
    let mut r = Retrieval::new(3);
    for _ in 0..MAX_RECOVERIES {
        assert_eq!(r.step(AttemptOutcome::TimeSyncUpdated), RetrievalStep::Retry);
    }
    assert!(matches!(r.step(AttemptOutcome::TimeSyncUpdated), RetrievalStep::Done(Err(_))));
    assert_eq!(r.timeouts, 0);
}

#[test]
fn replies_are_interpreted() {
    let mut r = Retrieval::new(1);
    assert_eq!(
        r.step(AttemptOutcome::Reply { error_status: 2, value: Some(SnmpValue::Null) }),
        RetrievalStep::Done(Err(inkcheck::error::AppError::new(ErrorKind::ErrorStatus(2))))
    );
    assert_eq!(
        r.step(AttemptOutcome::Reply { error_status: 0, value: None }),
        RetrievalStep::Done(Err(inkcheck::error::AppError::new(ErrorKind::OidNotFound)))
    );
    assert_eq!(
        r.step(AttemptOutcome::Failed(String::from("Socket send error"))),
        RetrievalStep::Done(Err(inkcheck::error::AppError::new(ErrorKind::SnmpRequest(String::from(
            "Socket send error"
        )))))
    );
}

#[test]
fn request_oids_are_encoded() {
    assert!(request_oid(&vec![1, 3, 6, 1, 2, 1, 25, 3, 2, 1, 3, 1]).is_ok());
    assert!(request_oid(&vec![0]).is_ok());
    assert_eq!(request_oid(&vec![9, 1]).unwrap_err().kind, ErrorKind::OidConversion);
    assert_eq!(request_oid(&vec![1, 40]).unwrap_err().kind, ErrorKind::OidConversion);
    assert_eq!(request_oid(&vec![]).unwrap_err().kind, ErrorKind::OidConversion);
}

#[test]
fn failures_are_classified() {
    let m = || String::from("detail");
    assert_eq!(AttemptOutcome::from_failure(SnmpFailure::Receive, m()), AttemptOutcome::Timeout);
    assert_eq!(
        AttemptOutcome::from_failure(SnmpFailure::AuthUpdated, m()),
        AttemptOutcome::TimeSyncUpdated
    );
    assert_eq!(
        AttemptOutcome::from_failure(
            SnmpFailure::AuthFailure(AuthFailureKind::EngineBootsNotProvided),
            m()
        ),
        AttemptOutcome::EngineBootsMissing
    );
    assert_eq!(
        AttemptOutcome::from_failure(SnmpFailure::AuthFailure(AuthFailureKind::SignatureMismatch), m()),
        AttemptOutcome::Failed(m())
    );
    assert_eq!(AttemptOutcome::from_failure(SnmpFailure::Send, m()), AttemptOutcome::Failed(m()));
}
