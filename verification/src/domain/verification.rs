//! The verification pipeline: it takes an account's trust state from
//! `Pending` to `Verified` or `Rejected`, never further, and holds at most
//! one pending record per account.

use crate::domain::audit::{gained, AuditEvent, AuditLedger, EventView};
use crate::domain::authorization::{authorize, decide, denial_event, Action, Decision};
use crate::domain::models::{
    copy_text, AuditLog, FaceVerification, FaceVerificationStatus, FaceVerificationView,
    LogSeverity, User,
};
use crate::error::{BotError, ErrorKind};
use vstd::prelude::*;
use vstd::string::*;

verus! {

/// How a call to the face-matching provider failed.
#[derive(Debug, Clone, Copy, PartialEq, Eq, Structural)]
pub enum ProviderFailure {
    /// The provider did not answer within the time allowed.
    Timeout,
    /// The provider answered with an error; `retryable` is false where
    /// another attempt cannot succeed.
    Unavailable { retryable: bool },
}

/// Whether some record of `records` is pending for `account`.
pub open spec fn has_pending(records: Seq<FaceVerificationView>, account: i64) -> bool {
    exists|i: int| 0 <= i < records.len() && (#[trigger] records[i]).pending_for(account)
}

/// Whether some record of `records` has the identifier `id`.
pub open spec fn has_id(records: Seq<FaceVerificationView>, id: u128) -> bool {
    exists|i: int| 0 <= i < records.len() && (#[trigger] records[i]).id == id
}

/// The position of the record with the identifier `id`.
pub open spec fn index_of_id(records: Seq<FaceVerificationView>, id: u128) -> int {
    choose|i: int| 0 <= i < records.len() && (#[trigger] records[i]).id == id
}

/// The records of `records` that are pending for `account`.
pub open spec fn pending_of(records: Seq<FaceVerificationView>, account: i64) -> Seq<
    FaceVerificationView,
> {
    records.filter(|r: FaceVerificationView| r.pending_for(account))
}

/// Whether two records cannot stand in one pipeline: they have the same
/// identifier, or they are both pending for the same account.
pub open spec fn clash(a: FaceVerificationView, b: FaceVerificationView) -> bool {
    a.id == b.id || (a.status == FaceVerificationStatus::Pending && b.pending_for(a.telegram_id))
}

/// Whether `records` is a state that the pipeline can be in: every record is
/// coherent, no identifier occurs twice, and no account has two pending records.
pub open spec fn well_formed(records: Seq<FaceVerificationView>) -> bool {
    &&& forall|i: int| 0 <= i < records.len() ==> (#[trigger] records[i]).coherent()
    &&& forall|i: int, j: int|
        #![trigger records[i], records[j]]
        0 <= i < j < records.len() ==> !clash(records[i], records[j])
}

/// The record that a submission creates.
pub open spec fn submission(id: u128, account: i64, media: Seq<char>, now: i64)
    -> FaceVerificationView {
    FaceVerificationView {
        id,
        telegram_id: account,
        video_file_id: media,
        azure_face_id: None,
        verification_date: now,
        confidence_score: None,
        status: FaceVerificationStatus::Pending,
        rejection_reason: None,
        created_at: now,
    }
}

/// What the provider's answer makes of a record: a terminal record stays as
/// it is; a pending one becomes `Verified` where the confidence reaches the
/// threshold and `Rejected` where it does not.
pub open spec fn resolution(
    record: FaceVerificationView,
    confidence: i32,
    threshold: i32,
    external_face: Seq<char>,
    now: i64,
) -> FaceVerificationView {
    if record.status.terminal() {
        record
    } else if confidence >= threshold {
        FaceVerificationView {
            azure_face_id: Some(external_face),
            verification_date: now,
            confidence_score: Some(confidence),
            status: FaceVerificationStatus::Verified,
            rejection_reason: None,
            ..record
        }
    } else {
        FaceVerificationView {
            azure_face_id: Some(external_face),
            verification_date: now,
            confidence_score: Some(confidence),
            status: FaceVerificationStatus::Rejected,
            rejection_reason: Some("match confidence below threshold"@),
            ..record
        }
    }
}

/// Whether the pipeline stops waiting for the provider after `failure`: after
/// an error that cannot be retried, and after one that can once the retries
/// are used up. A timeout never ends the wait.
pub open spec fn gives_up(failure: ProviderFailure, retries_exhausted: bool) -> bool {
    match failure {
        ProviderFailure::Timeout => false,
        ProviderFailure::Unavailable { retryable } => !retryable || retries_exhausted,
    }
}

/// What a failure of the provider makes of a record: a terminal record stays
/// as it is, and so does a pending one while the pipeline goes on waiting;
/// when it gives up, the record is rejected without a score.
pub open spec fn abandonment(
    record: FaceVerificationView,
    failure: ProviderFailure,
    retries_exhausted: bool,
    now: i64,
) -> FaceVerificationView {
    if record.status.terminal() || !gives_up(failure, retries_exhausted) {
        record
    } else {
        FaceVerificationView {
            verification_date: now,
            status: FaceVerificationStatus::Rejected,
            rejection_reason: Some("provider unavailable"@),
            ..record
        }
    }
}

/// The audit event of a change to the verification `id`.
pub open spec fn verification_event(
    action: Seq<char>,
    id: u128,
    actor_id: Option<u128>,
    severity: LogSeverity,
    details: Option<Seq<char>>,
    now: i64,
) -> EventView {
    EventView {
        user_id: actor_id,
        action_type: action,
        entity_type: Some("face_verification"@),
        entity_id: Some(id),
        details,
        telegram_message_id: None,
        severity,
        created_at: now,
    }
}

/// The audit event of the transition that led to the terminal record `after`:
/// `Info` for a verified record, `Warning` with the reason for a rejected one.
pub open spec fn outcome_event(after: FaceVerificationView, actor_id: Option<u128>, now: i64)
    -> EventView {
    if after.status == FaceVerificationStatus::Verified {
        verification_event(
            "verification.verified"@,
            after.id,
            actor_id,
            LogSeverity::Info,
            None,
            now,
        )
    } else {
        verification_event(
            "verification.rejected"@,
            after.id,
            actor_id,
            LogSeverity::Warning,
            after.rejection_reason,
            now,
        )
    }
}

/// What an administrator decides about a verification by hand.
#[derive(Debug, Clone, Copy, PartialEq, Eq, Structural)]
pub enum Verdict {
    Verify,
    Reject,
}

/// The action that an administrator performs with a verdict.
pub open spec fn verdict_action(verdict: Verdict) -> Action {
    match verdict {
        Verdict::Verify => Action::VerifyFace,
        Verdict::Reject => Action::RejectFace,
    }
}

/// What the verdict of an administrator makes of a record: a terminal
/// record stays as it is; a pending one becomes `Verified` or `Rejected`,
/// without a score.
pub open spec fn judgement(record: FaceVerificationView, verdict: Verdict, now: i64)
    -> FaceVerificationView {
    if record.status.terminal() {
        record
    } else if verdict == Verdict::Verify {
        FaceVerificationView {
            verification_date: now,
            status: FaceVerificationStatus::Verified,
            rejection_reason: None,
            ..record
        }
    } else {
        FaceVerificationView {
            verification_date: now,
            status: FaceVerificationStatus::Rejected,
            rejection_reason: Some("rejected by an administrator"@),
            ..record
        }
    }
}

/// What a submission of the video `media` for `account` does, where the new
/// record is to get the identifier `id`.
///
/// While a record is pending for the account, it fails with a validation
/// error; where the identifier is taken, with a conflict; then nothing
/// changes. Otherwise the pending record joins the records and is
/// returned, and the ledger gains one `Info` entry.
pub open spec fn submit_outcome(
    before: Seq<FaceVerificationView>,
    after: Seq<FaceVerificationView>,
    ledger_before: Seq<AuditLog>,
    ledger_after: Seq<AuditLog>,
    r: Result<FaceVerification, BotError>,
    id: u128,
    account: i64,
    media: Seq<char>,
    actor_id: Option<u128>,
    now: i64,
) -> bool {
    if has_pending(before, account) {
        &&& r is Err
        &&& r->Err_0.is(ErrorKind::Validation, "verification already pending"@)
        &&& after == before
        &&& ledger_after == ledger_before
    } else if has_id(before, id) {
        &&& r is Err
        &&& r->Err_0.is(ErrorKind::Conflict, "verification id already in use"@)
        &&& after == before
        &&& ledger_after == ledger_before
    } else {
        &&& r is Ok
        &&& r->Ok_0@ == submission(id, account, media, now)
        &&& after == before.push(submission(id, account, media, now))
        &&& gained(
            ledger_before,
            ledger_after,
            verification_event(
                "verification.submitted"@,
                id,
                actor_id,
                LogSeverity::Info,
                None,
                now,
            ),
        )
    }
}

/// What the provider's answer does to the verification `id`.
///
/// Where no record has that identifier, it fails with `NotFound` and nothing
/// changes. Otherwise the record becomes its `resolution` and is returned;
/// the ledger gains the entry of the transition if the record was pending,
/// and nothing if it was terminal already.
pub open spec fn result_outcome(
    before: Seq<FaceVerificationView>,
    after: Seq<FaceVerificationView>,
    ledger_before: Seq<AuditLog>,
    ledger_after: Seq<AuditLog>,
    r: Result<FaceVerification, BotError>,
    id: u128,
    confidence: i32,
    threshold: i32,
    external_face: Seq<char>,
    actor_id: Option<u128>,
    now: i64,
) -> bool {
    if !has_id(before, id) {
        &&& r is Err
        &&& r->Err_0.is(ErrorKind::NotFound, "face verification"@)
        &&& after == before
        &&& ledger_after == ledger_before
    } else {
        let i = index_of_id(before, id);
        let resolved = resolution(before[i], confidence, threshold, external_face, now);
        &&& r is Ok
        &&& r->Ok_0@ == resolved
        &&& after == before.update(i, resolved)
        &&& if before[i].status.terminal() {
            ledger_after == ledger_before
        } else {
            gained(ledger_before, ledger_after, outcome_event(resolved, actor_id, now))
        }
    }
}

/// The face verifications of all accounts.
pub struct VerificationPipeline {
    records: Vec<FaceVerification>,
}

impl View for VerificationPipeline {
    type V = Seq<FaceVerificationView>;

    /// The records in the order of their submission.
    closed spec fn view(&self) -> Seq<FaceVerificationView> {
        self.records@.map_values(|r: FaceVerification| r@)
    }
}

fn outcome_audit(after: &FaceVerification, actor_id: Option<u128>, now: i64) -> (r: AuditEvent)
    requires
        after.status.terminal(),
    ensures
        r@ == outcome_event(after@, actor_id, now),
{
    match after.status {
        FaceVerificationStatus::Verified => AuditEvent {
            user_id: actor_id,
            action_type: String::from_str("verification.verified"),
            entity_type: Some(String::from_str("face_verification")),
            entity_id: Some(after.id),
            details: None,
            telegram_message_id: None,
            severity: LogSeverity::Info,
            created_at: now,
        },
        _ => AuditEvent {
            user_id: actor_id,
            action_type: String::from_str("verification.rejected"),
            entity_type: Some(String::from_str("face_verification")),
            entity_id: Some(after.id),
            details: copy_text(&after.rejection_reason),
            telegram_message_id: None,
            severity: LogSeverity::Warning,
            created_at: now,
        },
    }
}

impl VerificationPipeline {
    /// Whether the pipeline is in a state that its operations can have led to.
    pub open spec fn wf(&self) -> bool {
        well_formed(self@)
    }

    /// A pipeline without records.
    pub fn new() -> (r: Self)
        ensures
            r@ == Seq::<FaceVerificationView>::empty(),
            r.wf(),
    {
        VerificationPipeline { records: Vec::new() }
    }

    /// The pipeline that holds `records`, where they make a state that the
    /// pipeline can be in; a validation error where they do not.
    pub fn restore(records: Vec<FaceVerification>) -> (r: Result<Self, BotError>)
        ensures
            match r {
                Ok(pipeline) => {
                    &&& pipeline.wf()
                    &&& pipeline@ == records@.map_values(|v: FaceVerification| v@)
                },
                Err(e) => {
                    &&& !well_formed(records@.map_values(|v: FaceVerification| v@))
                    &&& e.is(ErrorKind::Validation, "records contradict each other"@)
                },
            },
    {
        let ghost views = records@.map_values(|v: FaceVerification| v@);
        let mut j: usize = 0;
        while j < records.len()
            invariant
                j <= records@.len(),
                views == records@.map_values(|v: FaceVerification| v@),
                forall|k: int| 0 <= k < j ==> (#[trigger] views[k]).coherent(),
                forall|a: int, b: int|
                    #![trigger views[a], views[b]]
                    0 <= a < b < j ==> !clash(views[a], views[b]),
            decreases records@.len() - j,
        {
            let rec = &records[j];
            let pending = !rec.status.is_terminal();
            let coherent = (rec.confidence_score.is_none() || !pending)
                && (rec.rejection_reason.is_some() == (rec.status
                == FaceVerificationStatus::Rejected));
            if !coherent {
                return Err(
                    BotError::ValidationError(String::from_str("records contradict each other")),
                );
            }
            let mut i: usize = 0;
            while i < j
                invariant
                    i <= j < records@.len(),
                    views == records@.map_values(|v: FaceVerification| v@),
                    pending == (views[j as int].status == FaceVerificationStatus::Pending),
                    *rec == records@[j as int],
                    forall|a: int| 0 <= a < i ==> !clash(#[trigger] views[a], views[j as int]),
                decreases j - i,
            {
                let other = &records[i];
                if other.id == rec.id || (pending && !other.status.is_terminal()
                    && other.telegram_id == rec.telegram_id) {
                    assert(clash(views[i as int], views[j as int]));
                    return Err(
                        BotError::ValidationError(
                            String::from_str("records contradict each other"),
                        ),
                    );
                }
                i = i + 1;
            }
            j = j + 1;
        }
        Ok(VerificationPipeline { records })
    }

    /// The number of records.
    pub fn len(&self) -> (r: usize)
        ensures
            r == self@.len(),
    {
        self.records.len()
    }

    fn position(&self, id: u128) -> (r: Option<usize>)
        ensures
            match r {
                Some(i) => i < self@.len() && self@[i as int].id == id,
                None => !has_id(self@, id),
            },
    {
        let mut i: usize = 0;
        while i < self.records.len()
            invariant
                i <= self.records@.len(),
                forall|k: int| 0 <= k < i ==> (#[trigger] self@[k]).id != id,
            decreases self.records@.len() - i,
        {
            if self.records[i].id == id {
                return Some(i);
            }
            i = i + 1;
        }
        None
    }

    fn pending_position(&self, account: i64) -> (r: Option<usize>)
        ensures
            match r {
                Some(i) => i < self@.len() && self@[i as int].pending_for(account),
                None => !has_pending(self@, account),
            },
    {
        let mut i: usize = 0;
        while i < self.records.len()
            invariant
                i <= self.records@.len(),
                forall|k: int| 0 <= k < i ==> !(#[trigger] self@[k]).pending_for(account),
            decreases self.records@.len() - i,
        {
            let rec = &self.records[i];
            if rec.telegram_id == account && !rec.status.is_terminal() {
                return Some(i);
            }
            i = i + 1;
        }
        None
    }

    /// The record with the identifier `id`, if there is one.
    pub fn find(&self, id: u128) -> (r: Option<&FaceVerification>)
        requires
            self.wf(),
        ensures
            match r {
                Some(rec) => has_id(self@, id) && rec@ == self@[index_of_id(self@, id)]
                    && rec.id == id,
                None => !has_id(self@, id),
            },
    {
        match self.position(id) {
            Some(i) => {
                proof {
                    lemma_index_of_id(self@, id, i as int);
                }
                Some(&self.records[i])
            },
            None => None,
        }
    }

    /// The record that is pending for `account`, if there is one.
    pub fn pending(&self, account: i64) -> (r: Option<&FaceVerification>)
        ensures
            match r {
                Some(rec) => self@.contains(rec@) && rec@.pending_for(account),
                None => !has_pending(self@, account),
            },
    {
        match self.pending_position(account) {
            Some(i) => {
                assert(self@[i as int] == self.records@[i as int]@);
                Some(&self.records[i])
            },
            None => None,
        }
    }

    /// Hands in the video `media_ref` for `account` and returns the new
    /// pending record, which gets the identifier `id`.
    ///
    /// Fails with a validation error while a record is pending for the
    /// account, and with a conflict where `id` is already taken; then
    /// nothing changes. Otherwise the record joins the pipeline and the
    /// ledger gains one `Info` entry.
    pub fn submit(
        &mut self,
        ledger: &mut AuditLedger,
        id: u128,
        account: i64,
        media_ref: String,
        actor_id: Option<u128>,
        now: i64,
    ) -> (r: Result<FaceVerification, BotError>)
        requires
            old(self).wf(),
            old(ledger).wf(),
        ensures
            final(self).wf(),
            final(ledger).wf(),
            submit_outcome(
                old(self)@,
                final(self)@,
                old(ledger)@,
                final(ledger)@,
                r,
                id,
                account,
                media_ref@,
                actor_id,
                now,
            ),
    {
        if self.pending_position(account).is_some() {
            return Err(BotError::ValidationError(String::from_str("verification already pending")));
        }
        if self.position(id).is_some() {
            return Err(BotError::Conflict(String::from_str("verification id already in use")));
        }
        let rec = FaceVerification {
            id,
            telegram_id: account,
            video_file_id: media_ref,
            azure_face_id: None,
            verification_date: now,
            confidence_score: None,
            status: FaceVerificationStatus::Pending,
            rejection_reason: None,
            created_at: now,
        };
        let out = rec.clone();
        self.records.push(rec);
        assert(self@ == old(self)@.push(out@));
        ledger.append(
            AuditEvent {
                user_id: actor_id,
                action_type: String::from_str("verification.submitted"),
                entity_type: Some(String::from_str("face_verification")),
                entity_id: Some(id),
                details: None,
                telegram_message_id: None,
                severity: LogSeverity::Info,
                created_at: now,
            },
        );
        Ok(out)
    }

    /// Hands in the video `media_ref` on behalf of the account `actor`, for
    /// that account itself.
    ///
    /// An account that may not submit, because it is blocked, is refused
    /// as `Forbidden`: nothing changes but the ledger, which gains an
    /// `Error` entry. Every other account submits as `submit` does it.
    pub fn submit_as(
        &mut self,
        ledger: &mut AuditLedger,
        actor: &User,
        id: u128,
        media_ref: String,
        now: i64,
    ) -> (r: Result<FaceVerification, BotError>)
        requires
            old(self).wf(),
            old(ledger).wf(),
        ensures
            final(self).wf(),
            final(ledger).wf(),
            if decide(
                actor.role,
                actor.status,
                Action::SubmitVerification,
                Some(actor.id),
                actor.id,
            ) is Deny {
                &&& r is Err
                &&& r->Err_0 == BotError::Forbidden
                &&& final(self)@ == old(self)@
                &&& gained(
                    old(ledger)@,
                    final(ledger)@,
                    denial_event(
                        *actor,
                        "verification.submit.denied"@,
                        "user"@,
                        actor.id,
                        decide(
                            actor.role,
                            actor.status,
                            Action::SubmitVerification,
                            Some(actor.id),
                            actor.id,
                        ),
                        now,
                    ),
                )
            } else {
                submit_outcome(
                    old(self)@,
                    final(self)@,
                    old(ledger)@,
                    final(ledger)@,
                    r,
                    id,
                    actor.telegram_id,
                    media_ref@,
                    Some(actor.id),
                    now,
                )
            },
    {
        let decision = authorize(
            actor.role,
            actor.status,
            Action::SubmitVerification,
            Some(actor.id),
            actor.id,
        );
        if let Decision::Deny(reason) = decision {
            ledger.append(
                AuditEvent::about(
                    Some(actor.id),
                    "verification.submit.denied",
                    "user",
                    actor.id,
                    Some(reason.message()),
                    LogSeverity::Error,
                    now,
                ),
            );
            return Err(BotError::Forbidden);
        }
        self.submit(ledger, id, actor.telegram_id, media_ref, Some(actor.id), now)
    }

    /// Applies the verdict of the administrator `actor` to the verification
    /// `verification_id` and returns the record as it then stands.
    ///
    /// An actor who may not decide verifications is refused as `Forbidden`:
    /// nothing changes but the ledger, which gains an `Error` entry. Fails
    /// with `NotFound` where no record has that identifier. A record that is
    /// already terminal stays as it is and nothing is recorded. A pending
    /// record becomes `Verified` (one `Info` entry) or `Rejected` (one
    /// `Warning` entry).
    pub fn review(
        &mut self,
        ledger: &mut AuditLedger,
        actor: &User,
        verification_id: u128,
        verdict: Verdict,
        now: i64,
    ) -> (r: Result<FaceVerification, BotError>)
        requires
            old(self).wf(),
            old(ledger).wf(),
        ensures
            final(self).wf(),
            final(ledger).wf(),
            if decide(actor.role, actor.status, verdict_action(verdict), None, actor.id) is Deny {
                &&& r is Err
                &&& r->Err_0 == BotError::Forbidden
                &&& final(self)@ == old(self)@
                &&& gained(
                    old(ledger)@,
                    final(ledger)@,
                    denial_event(
                        *actor,
                        "verification.review.denied"@,
                        "face_verification"@,
                        verification_id,
                        decide(actor.role, actor.status, verdict_action(verdict), None, actor.id),
                        now,
                    ),
                )
            } else if !has_id(old(self)@, verification_id) {
                &&& r is Err
                &&& r->Err_0.is(ErrorKind::NotFound, "face verification"@)
                &&& final(self)@ == old(self)@
                &&& final(ledger)@ == old(ledger)@
            } else {
                let i = index_of_id(old(self)@, verification_id);
                let before = old(self)@[i];
                let after = judgement(before, verdict, now);
                &&& r is Ok
                &&& r->Ok_0@ == after
                &&& final(self)@ == old(self)@.update(i, after)
                &&& if before.status.terminal() {
                    final(ledger)@ == old(ledger)@
                } else {
                    gained(
                        old(ledger)@,
                        final(ledger)@,
                        outcome_event(after, Some(actor.id), now),
                    )
                }
            },
    {
        let action = match verdict {
            Verdict::Verify => Action::VerifyFace,
            Verdict::Reject => Action::RejectFace,
        };
        let decision = authorize(actor.role, actor.status, action, None, actor.id);
        if let Decision::Deny(reason) = decision {
            ledger.append(
                AuditEvent::about(
                    Some(actor.id),
                    "verification.review.denied",
                    "face_verification",
                    verification_id,
                    Some(reason.message()),
                    LogSeverity::Error,
                    now,
                ),
            );
            return Err(BotError::Forbidden);
        }
        let i = match self.position(verification_id) {
            Some(i) => i,
            None => {
                return Err(BotError::NotFound(String::from_str("face verification")));
            },
        };
        proof {
            lemma_index_of_id(self@, verification_id, i as int);
        }
        let current = &self.records[i];
        if current.status.is_terminal() {
            let out = current.clone();
            assert(self@ == old(self)@.update(i as int, out@));
            return Ok(out);
        }
        let updated = FaceVerification {
            id: current.id,
            telegram_id: current.telegram_id,
            video_file_id: current.video_file_id.clone(),
            azure_face_id: copy_text(&current.azure_face_id),
            verification_date: now,
            confidence_score: current.confidence_score,
            status: match verdict {
                Verdict::Verify => FaceVerificationStatus::Verified,
                Verdict::Reject => FaceVerificationStatus::Rejected,
            },
            rejection_reason: match verdict {
                Verdict::Verify => None,
                Verdict::Reject => Some(String::from_str("rejected by an administrator")),
            },
            created_at: current.created_at,
        };
        let out = updated.clone();
        let event = outcome_audit(&updated, Some(actor.id), now);
        self.records.set(i, updated);
        assert(self@ == old(self)@.update(i as int, out@));
        ledger.append(event);
        Ok(out)
    }

    /// Applies the provider's answer to the verification `verification_id`
    /// and returns the record as it then stands.
    ///
    /// A record that is already terminal stays as it is and nothing is
    /// written to the ledger: an answer that comes twice, or late, has no
    /// effect. A pending record becomes `Verified` where `match_confidence`
    /// reaches `threshold` (one `Info` entry) and `Rejected` where it does
    /// not (one `Warning` entry). Fails with `NotFound` where no record has
    /// that identifier.
    pub fn apply_result(
        &mut self,
        ledger: &mut AuditLedger,
        verification_id: u128,
        match_confidence: i32,
        threshold: i32,
        external_face_id: String,
        actor_id: Option<u128>,
        now: i64,
    ) -> (r: Result<FaceVerification, BotError>)
        requires
            old(self).wf(),
            old(ledger).wf(),
        ensures
            final(self).wf(),
            final(ledger).wf(),
            result_outcome(
                old(self)@,
                final(self)@,
                old(ledger)@,
                final(ledger)@,
                r,
                verification_id,
                match_confidence,
                threshold,
                external_face_id@,
                actor_id,
                now,
            ),
    {
        let i = match self.position(verification_id) {
            Some(i) => i,
            None => {
                return Err(BotError::NotFound(String::from_str("face verification")));
            },
        };
        proof {
            lemma_index_of_id(self@, verification_id, i as int);
        }
        let current = &self.records[i];
        if current.status.is_terminal() {
            let out = current.clone();
            assert(self@ == old(self)@.update(i as int, out@));
            return Ok(out);
        }
        let verified = match_confidence >= threshold;
        let updated = FaceVerification {
            id: current.id,
            telegram_id: current.telegram_id,
            video_file_id: current.video_file_id.clone(),
            azure_face_id: Some(external_face_id),
            verification_date: now,
            confidence_score: Some(match_confidence),
            status: if verified {
                FaceVerificationStatus::Verified
            } else {
                FaceVerificationStatus::Rejected
            },
            rejection_reason: if verified {
                None
            } else {
                Some(String::from_str("match confidence below threshold"))
            },
            created_at: current.created_at,
        };
        let out = updated.clone();
        let event = outcome_audit(&updated, actor_id, now);
        self.records.set(i, updated);
        assert(self@ == old(self)@.update(i as int, out@));
        ledger.append(event);
        Ok(out)
    }

    /// Applies a failure of the provider to the verification
    /// `verification_id`.
    ///
    /// A record that is already terminal stays as it is and is returned.
    /// While the pipeline goes on waiting (after a timeout, and after a
    /// retryable error as long as retries are left) the record stays
    /// pending and a retryable error is returned. When it gives up, the
    /// record is rejected with the reason `provider unavailable`, the ledger
    /// gains one `Warning` entry, and the record is returned. Fails with
    /// `NotFound` where no record has that identifier.
    pub fn apply_failure(
        &mut self,
        ledger: &mut AuditLedger,
        verification_id: u128,
        failure: ProviderFailure,
        retries_exhausted: bool,
        actor_id: Option<u128>,
        now: i64,
    ) -> (r: Result<FaceVerification, BotError>)
        requires
            old(self).wf(),
            old(ledger).wf(),
        ensures
            final(self).wf(),
            final(ledger).wf(),
            has_id(old(self)@, verification_id) ==> {
                let i = index_of_id(old(self)@, verification_id);
                let before = old(self)@[i];
                let after = abandonment(before, failure, retries_exhausted, now);
                &&& final(self)@ == old(self)@.update(i, after)
                &&& if before.status.terminal() {
                    r is Ok && r->Ok_0@ == before && final(ledger)@ == old(ledger)@
                } else if gives_up(failure, retries_exhausted) {
                    r is Ok && r->Ok_0@ == after && gained(
                        old(ledger)@,
                        final(ledger)@,
                        outcome_event(after, actor_id, now),
                    )
                } else {
                    &&& r is Err
                    &&& r->Err_0.is(
                        ErrorKind::ExternalService,
                        if failure == ProviderFailure::Timeout {
                            "provider timeout"@
                        } else {
                            "provider unavailable"@
                        },
                    )
                    &&& r->Err_0.retryable()
                    &&& final(ledger)@ == old(ledger)@
                }
            },
            !has_id(old(self)@, verification_id) ==> {
                &&& r is Err
                &&& r->Err_0.is(ErrorKind::NotFound, "face verification"@)
                &&& final(self)@ == old(self)@
                &&& final(ledger)@ == old(ledger)@
            },
    {
        let i = match self.position(verification_id) {
            Some(i) => i,
            None => {
                return Err(BotError::NotFound(String::from_str("face verification")));
            },
        };
        proof {
            lemma_index_of_id(self@, verification_id, i as int);
        }
        let current = &self.records[i];
        if current.status.is_terminal() {
            let out = current.clone();
            return Ok(out);
        }
        let stop = match failure {
            ProviderFailure::Timeout => false,
            ProviderFailure::Unavailable { retryable } => !retryable || retries_exhausted,
        };
        if !stop {
            let message = match failure {
                ProviderFailure::Timeout => String::from_str("provider timeout"),
                _ => String::from_str("provider unavailable"),
            };
            return Err(BotError::ExternalServiceError { message, retryable: true });
        }
        let updated = FaceVerification {
            id: current.id,
            telegram_id: current.telegram_id,
            video_file_id: current.video_file_id.clone(),
            azure_face_id: copy_text(&current.azure_face_id),
            verification_date: now,
            confidence_score: current.confidence_score,
            status: FaceVerificationStatus::Rejected,
            rejection_reason: Some(String::from_str("provider unavailable")),
            created_at: current.created_at,
        };
        let out = updated.clone();
        let event = outcome_audit(&updated, actor_id, now);
        self.records.set(i, updated);
        assert(self@ == old(self)@.update(i as int, out@));
        ledger.append(event);
        Ok(out)
    }
}

/// Where no identifier occurs twice, the record with a given identifier is
/// found at one position only.
pub proof fn lemma_index_of_id(records: Seq<FaceVerificationView>, id: u128, i: int)
    requires
        well_formed(records),
        0 <= i < records.len(),
        records[i].id == id,
    ensures
        has_id(records, id),
        index_of_id(records, id) == i,
{
    let j = index_of_id(records, id);
    if j < i {
        assert(!clash(records[j], records[i]));
    } else if i < j {
        assert(!clash(records[i], records[j]));
    }
}

/// Single flight: in a state that the pipeline can be in, at most one
/// record is pending for an account.
pub proof fn lemma_single_flight(records: Seq<FaceVerificationView>, account: i64)
    requires
        well_formed(records),
    ensures
        pending_of(records, account).len() <= 1,
    decreases records.len(),
{
    let waiting = |r: FaceVerificationView| r.pending_for(account);
    if records.len() == 0 {
        reveal(Seq::filter);
    } else {
        let init = records.drop_last();
        let last = records.last();
        assert(records == init.push(last));
        init.lemma_filter_push(last, waiting);
        assert(well_formed(init)) by {
            assert forall|i: int| 0 <= i < init.len() implies (#[trigger] init[i]).coherent() by {
                assert(init[i] == records[i]);
            }
            assert forall|i: int, j: int|
                #![trigger init[i], init[j]]
                0 <= i < j < init.len() implies !clash(init[i], init[j]) by {
                assert(init[i] == records[i] && init[j] == records[j]);
            }
        }
        lemma_single_flight(init, account);
        if waiting(last) && init.filter(waiting).len() > 0 {
            let other = init.filter(waiting)[0];
            init.lemma_filter_pred(waiting, 0);
            init.lemma_filter_contains_rev(waiting, other);
            let k = choose|k: int| 0 <= k < init.len() && init[k] == other;
            assert(!clash(records[k], records[records.len() - 1]));
        }
    }
}

/// Of the submissions that are made for one account while none of its
/// records is resolved, one wins at most: once a submission has been
/// accepted, every further one for that account is refused, and changes
/// nothing, whatever identifier, video and instant it comes with.
pub proof fn lemma_one_submission_wins(
    before: Seq<FaceVerificationView>,
    after: Seq<FaceVerificationView>,
    last: Seq<FaceVerificationView>,
    ledger_before: Seq<AuditLog>,
    ledger_after: Seq<AuditLog>,
    ledger_last: Seq<AuditLog>,
    first: Result<FaceVerification, BotError>,
    second: Result<FaceVerification, BotError>,
    account: i64,
    first_id: u128,
    first_media: Seq<char>,
    first_actor: Option<u128>,
    first_instant: i64,
    second_id: u128,
    second_media: Seq<char>,
    second_actor: Option<u128>,
    second_instant: i64,
)
    requires
        submit_outcome(
            before,
            after,
            ledger_before,
            ledger_after,
            first,
            first_id,
            account,
            first_media,
            first_actor,
            first_instant,
        ),
        submit_outcome(
            after,
            last,
            ledger_after,
            ledger_last,
            second,
            second_id,
            account,
            second_media,
            second_actor,
            second_instant,
        ),
        first is Ok,
    ensures
        second is Err,
        second->Err_0.is(ErrorKind::Validation, "verification already pending"@),
        last == after,
        ledger_last == ledger_after,
{
    assert(after[after.len() - 1].pending_for(account));
}

/// Terminal idempotence: of two answers of the provider for one
/// verification, the first decides. The second, whatever it says, returns
/// the record as the first left it, changes no record and records nothing.
pub proof fn lemma_second_result_changes_nothing(
    before: Seq<FaceVerificationView>,
    after: Seq<FaceVerificationView>,
    last: Seq<FaceVerificationView>,
    ledger_before: Seq<AuditLog>,
    ledger_after: Seq<AuditLog>,
    ledger_last: Seq<AuditLog>,
    first: Result<FaceVerification, BotError>,
    second: Result<FaceVerification, BotError>,
    id: u128,
    first_confidence: i32,
    first_threshold: i32,
    first_face: Seq<char>,
    first_actor: Option<u128>,
    first_instant: i64,
    second_confidence: i32,
    second_threshold: i32,
    second_face: Seq<char>,
    second_actor: Option<u128>,
    second_instant: i64,
)
    requires
        well_formed(before),
        result_outcome(
            before,
            after,
            ledger_before,
            ledger_after,
            first,
            id,
            first_confidence,
            first_threshold,
            first_face,
            first_actor,
            first_instant,
        ),
        result_outcome(
            after,
            last,
            ledger_after,
            ledger_last,
            second,
            id,
            second_confidence,
            second_threshold,
            second_face,
            second_actor,
            second_instant,
        ),
        first is Ok,
    ensures
        second is Ok,
        second->Ok_0@ == first->Ok_0@,
        last == after,
        ledger_last == ledger_after,
{
    let i = index_of_id(before, id);
    assert(after[i].id == id);
    assert(well_formed(after)) by {
        assert forall|a: int, b: int|
            #![trigger after[a], after[b]]
            0 <= a < b < after.len() implies !clash(after[a], after[b]) by {
            assert(!clash(before[a], before[b]));
        }
    }
    lemma_index_of_id(after, id, i);
    assert(last == after);
}

/// A terminal record is final: neither an answer of the provider, nor a
/// failure of the provider, nor the verdict of an administrator changes it.
pub proof fn lemma_terminal_is_final(
    record: FaceVerificationView,
    confidence: i32,
    threshold: i32,
    external_face: Seq<char>,
    failure: ProviderFailure,
    retries_exhausted: bool,
    verdict: Verdict,
    now: i64,
)
    requires
        record.status.terminal(),
    ensures
        resolution(record, confidence, threshold, external_face, now) == record,
        abandonment(record, failure, retries_exhausted, now) == record,
        judgement(record, verdict, now) == record,
{
}

/// Terminal idempotence: the first answer of the provider decides. Whatever
/// a second answer says, the record stays as the first one left it.
pub proof fn lemma_first_result_decides(
    record: FaceVerificationView,
    first_confidence: i32,
    first_threshold: i32,
    first_face: Seq<char>,
    first_instant: i64,
    second_confidence: i32,
    second_threshold: i32,
    second_face: Seq<char>,
    second_instant: i64,
)
    ensures
        resolution(
            record,
            first_confidence,
            first_threshold,
            first_face,
            first_instant,
        ).status.terminal(),
        resolution(
            resolution(record, first_confidence, first_threshold, first_face, first_instant),
            second_confidence,
            second_threshold,
            second_face,
            second_instant,
        ) == resolution(record, first_confidence, first_threshold, first_face, first_instant),
{
}

/// Every transition keeps a coherent record coherent.
pub proof fn lemma_transitions_keep_coherence(
    record: FaceVerificationView,
    confidence: i32,
    threshold: i32,
    external_face: Seq<char>,
    failure: ProviderFailure,
    retries_exhausted: bool,
    verdict: Verdict,
    now: i64,
)
    requires
        record.coherent(),
    ensures
        resolution(record, confidence, threshold, external_face, now).coherent(),
        abandonment(record, failure, retries_exhausted, now).coherent(),
        judgement(record, verdict, now).coherent(),
{
}

} // verus!
