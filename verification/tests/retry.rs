use rustobot::domain::audit::AuditLedger;
use rustobot::domain::models::LogSeverity;
use rustobot::domain::retry::{after_failure, after_sweep_attempt, escalate, NextStep, SweepStep};
use rustobot::error::{BotError, ErrorKind};

fn conflict() -> BotError {
    BotError::Conflict("announcement changed since it was read".to_string())
}

#[test]
fn conflicts_are_retried_up_to_the_bound() {
    assert_eq!(after_failure(conflict(), 1, 3), NextStep::Retry);
    assert_eq!(after_failure(conflict(), 2, 3), NextStep::Retry);
    assert_eq!(
        after_failure(conflict(), 3, 3),
        NextStep::Fail(BotError::InternalError("conflict persisted".to_string()))
    );
    assert_eq!(
        after_failure(conflict(), 1, 0),
        NextStep::Fail(BotError::InternalError("conflict persisted".to_string()))
    );
}

#[test]
fn collaborator_failures_are_retried_only_where_they_allow_it() {
    let retryable = || BotError::ExternalServiceError { message: "m".to_string(), retryable: true };
    let terminal = || BotError::ExternalServiceError { message: "m".to_string(), retryable: false };
    assert_eq!(after_failure(retryable(), 1, 2), NextStep::Retry);
    assert_eq!(after_failure(retryable(), 2, 2), NextStep::Fail(retryable()));
    assert_eq!(after_failure(terminal(), 1, 2), NextStep::Fail(terminal()));
}

#[test]
fn other_failures_are_reported_at_once() {
    let e = || BotError::ValidationError("terminal state".to_string());
    assert_eq!(after_failure(e(), 0, 5), NextStep::Fail(e()));
    assert_eq!(after_failure(BotError::Forbidden, 0, 5), NextStep::Fail(BotError::Forbidden));
}

#[test]
fn sweep_retries_a_conflict_once_and_then_skips() {
    assert_eq!(after_sweep_attempt(None, 1), SweepStep::Done);
    assert_eq!(after_sweep_attempt(None, 2), SweepStep::Done);
    assert_eq!(after_sweep_attempt(Some(ErrorKind::Conflict), 1), SweepStep::Retry);
    assert_eq!(after_sweep_attempt(Some(ErrorKind::Conflict), 2), SweepStep::Skip);
    assert_eq!(after_sweep_attempt(Some(ErrorKind::NotFound), 1), SweepStep::Skip);
    assert_eq!(after_sweep_attempt(Some(ErrorKind::Validation), 1), SweepStep::Skip);
}

#[test]
fn internal_errors_are_recorded_and_handed_on_without_detail() {
    let mut ledger = AuditLedger::new();
    let handed = escalate(&mut ledger, BotError::InternalError("disk full".to_string()), Some(4), 99);
    assert_eq!(handed, BotError::InternalError(String::new()));
    assert_eq!(handed.message(), "Internal server error: ");
    assert_eq!(ledger.len(), 1);
    let entry = ledger.get(0).unwrap();
    assert_eq!(entry.severity, LogSeverity::Critical);
    assert_eq!(entry.action_type, "internal.error");
    assert_eq!(entry.details.as_deref(), Some("disk full"));
    assert_eq!(entry.user_id, Some(4));
    assert_eq!(entry.entity_type, None);
    assert_eq!(entry.entity_id, None);
    assert_eq!(entry.created_at, 99);
}

#[test]
fn other_failures_are_handed_on_as_they_are() {
    let mut ledger = AuditLedger::new();
    for e in [
        BotError::ValidationError("terminal state".to_string()),
        BotError::NotFound("announcement".to_string()),
        BotError::Forbidden,
        BotError::Unauthorized,
        conflict(),
    ] {
        assert_eq!(escalate(&mut ledger, e.clone(), None, 1), e);
    }
    assert_eq!(ledger.len(), 0);
}
