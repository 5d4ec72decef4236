//! What the layer that drives the components does after a failure: try
//! again, pass over, or give up and report.

use crate::domain::audit::{gained, AuditEvent, AuditLedger, EventView};
use crate::domain::models::LogSeverity;
use crate::error::{BotError, ErrorKind};
use vstd::prelude::*;
use vstd::string::*;

verus! {

/// What to do after a failed attempt.
#[derive(Debug, PartialEq, Eq)]
pub enum NextStep {
    /// Read the entity again and make the attempt once more.
    Retry,
    /// Report the failure that is held here.
    Fail(BotError),
}

/// What a sweep does with one announcement after an attempt to expire it.
#[derive(Debug, Clone, Copy, PartialEq, Eq, Structural)]
pub enum SweepStep {
    /// The announcement is dealt with.
    Done,
    /// Read the announcement again and make the attempt once more.
    Retry,
    /// Leave the announcement to a later sweep, and go on with the next.
    Skip,
}

/// Whether another attempt is made after `attempts_made` attempts have
/// failed, the last of them in a way that `retryable` tells of, where
/// `max_attempts` attempts are allowed in all.
pub open spec fn tries_again(retryable: bool, attempts_made: u32, max_attempts: u32) -> bool {
    retryable && attempts_made < max_attempts
}

/// What to do after `attempts_made` attempts have failed, the last of them
/// with `error`, where `max_attempts` attempts are allowed in all.
///
/// A failure that may be retried is retried while attempts are left. When
/// none is left, a conflict is reported as an internal error, and every
/// other failure as it is. A failure that cannot be retried is reported at
/// once.
pub fn after_failure(error: BotError, attempts_made: u32, max_attempts: u32) -> (r: NextStep)
    ensures
        match r {
            NextStep::Retry => tries_again(error.retryable(), attempts_made, max_attempts),
            NextStep::Fail(e) => {
                &&& !tries_again(error.retryable(), attempts_made, max_attempts)
                &&& if error.kind_of() == ErrorKind::Conflict {
                    e.is(ErrorKind::Internal, "conflict persisted"@)
                } else {
                    e == error
                }
            },
        },
{
    if error.is_retryable() && attempts_made < max_attempts {
        NextStep::Retry
    } else {
        match error {
            BotError::Conflict(_) => NextStep::Fail(
                BotError::InternalError(String::from_str("conflict persisted")),
            ),
            other => NextStep::Fail(other),
        }
    }
}

/// What a sweep does with one announcement after its attempt number
/// `attempts_made` to expire it ended in `failure`, or succeeded where
/// `failure` is `None`: a conflict is retried once, and every other
/// failure, as well as a second conflict, passes the announcement over.
pub fn after_sweep_attempt(failure: Option<ErrorKind>, attempts_made: u32) -> (r: SweepStep)
    ensures
        r == match failure {
            None => SweepStep::Done,
            Some(kind) => if kind == ErrorKind::Conflict && attempts_made <= 1 {
                SweepStep::Retry
            } else {
                SweepStep::Skip
            },
        },
{
    match failure {
        None => SweepStep::Done,
        Some(ErrorKind::Conflict) => {
            if attempts_made <= 1 {
                SweepStep::Retry
            } else {
                SweepStep::Skip
            }
        },
        Some(_) => SweepStep::Skip,
    }
}

/// The audit event of an unexpected failure.
pub open spec fn internal_event(detail: Seq<char>, actor_id: Option<u128>, now: i64)
    -> EventView {
    EventView {
        user_id: actor_id,
        action_type: "internal.error"@,
        entity_type: None,
        entity_id: None,
        details: Some(detail),
        telegram_message_id: None,
        severity: LogSeverity::Critical,
        created_at: now,
    }
}

/// Prepares a failure for the caller.
///
/// An internal error is recorded in the ledger as a `Critical` entry that
/// holds its text, and is handed on without the text. Every other failure
/// is handed on as it is, and nothing is recorded.
pub fn escalate(ledger: &mut AuditLedger, error: BotError, actor_id: Option<u128>, now: i64) -> (r:
    BotError)
    requires
        old(ledger).wf(),
    ensures
        final(ledger).wf(),
        if error.kind_of() == ErrorKind::Internal {
            &&& r.is(ErrorKind::Internal, Seq::empty())
            &&& gained(old(ledger)@, final(ledger)@, internal_event(error.text(), actor_id, now))
        } else {
            &&& r == error
            &&& final(ledger)@ == old(ledger)@
        },
{
    match error {
        BotError::InternalError(detail) => {
            ledger.append(
                AuditEvent {
                    user_id: actor_id,
                    action_type: String::from_str("internal.error"),
                    entity_type: None,
                    entity_id: None,
                    details: Some(detail),
                    telegram_message_id: None,
                    severity: LogSeverity::Critical,
                    created_at: now,
                },
            );
            BotError::InternalError(String::new())
        },
        other => other,
    }
}

} // verus!
