//! Accounts: registration on first contact, and the changes of role and
//! status that administrators make.

use crate::domain::audit::{event_about, gained, AuditEvent, AuditLedger};
use crate::domain::authorization::{authorize, decide, Action, Decision};
use crate::domain::models::{
    AuditLog, FaceVerification, FaceVerificationStatus, FaceVerificationView, LogSeverity, User,
    UserCreateRequest, UserRole, UserStatus,
};
use crate::domain::verification::{has_id, index_of_id, VerificationPipeline};
use crate::error::{BotError, ErrorKind};
use vstd::prelude::*;
use vstd::string::*;

verus! {

/// The name of a role as it is written in records.
pub open spec fn role_text(role: UserRole) -> Seq<char> {
    match role {
        UserRole::Viewer => "viewer"@,
        UserRole::Announcer => "announcer"@,
        UserRole::Admin => "admin"@,
        UserRole::SuperAdmin => "super_admin"@,
    }
}

/// The name of a status as it is written in records.
pub open spec fn status_text(status: UserStatus) -> Seq<char> {
    match status {
        UserStatus::Active => "active"@,
        UserStatus::Blocked => "blocked"@,
    }
}

/// The name of a role as it is written in records.
pub fn role_name(role: UserRole) -> (r: String)
    ensures
        r@ == role_text(role),
{
    match role {
        UserRole::Viewer => String::from_str("viewer"),
        UserRole::Announcer => String::from_str("announcer"),
        UserRole::Admin => String::from_str("admin"),
        UserRole::SuperAdmin => String::from_str("super_admin"),
    }
}

/// The name of a status as it is written in records.
pub fn status_name(status: UserStatus) -> (r: String)
    ensures
        r@ == status_text(status),
{
    match status {
        UserStatus::Active => String::from_str("active"),
        UserStatus::Blocked => String::from_str("blocked"),
    }
}

/// Whether the face verification that `user` relies on is one of its own
/// that has succeeded. An account that relies on none is backed.
pub open spec fn backed(verifications: Seq<FaceVerificationView>, user: User) -> bool {
    user.face_verification_id matches Some(vid) ==> {
        &&& has_id(verifications, vid)
        &&& verifications[index_of_id(verifications, vid)].status
            == FaceVerificationStatus::Verified
        &&& verifications[index_of_id(verifications, vid)].telegram_id == user.telegram_id
    }
}

/// Whether the account keeps the rule of its role: from `Announcer` on, the
/// face verification it relies on, if any, has succeeded.
pub open spec fn sound(verifications: Seq<FaceVerificationView>, user: User) -> bool {
    user.role.rank() >= UserRole::Announcer.rank() ==> backed(verifications, user)
}

/// Why a role cannot be given, if anything stands against it: the actor may
/// not give it (`Forbidden`); or the role is `Announcer` or higher and the
/// target relies on a face verification that has not succeeded.
pub open spec fn role_refusal(
    verifications: Seq<FaceVerificationView>,
    actor: User,
    target: User,
    new_role: UserRole,
) -> Option<(ErrorKind, Seq<char>)> {
    if decide(actor.role, actor.status, Action::ChangeRole(new_role), Some(target.id), actor.id)
        is Deny {
        Some((ErrorKind::Forbidden, Seq::empty()))
    } else if new_role.rank() >= UserRole::Announcer.rank() && !backed(verifications, target) {
        Some((ErrorKind::Validation, "verification not verified"@))
    } else {
        None
    }
}

/// What an attempt of `actor` to change the account `target` does to the
/// ledger and returns, where `refusal` is the reason against it, if there
/// is one, and `changed` the account after the change.
///
/// A refusal is returned as an error, and is recorded as an `Error` entry
/// where it is `Forbidden`. A change is recorded as an `Info` entry that
/// holds `detail`.
pub open spec fn change_outcome(
    ledger_before: Seq<AuditLog>,
    ledger_after: Seq<AuditLog>,
    r: Result<User, BotError>,
    refusal: Option<(ErrorKind, Seq<char>)>,
    changed: User,
    actor: User,
    decision: Decision,
    denied_action: Seq<char>,
    done_action: Seq<char>,
    detail: Seq<char>,
    now: i64,
) -> bool {
    match refusal {
        Some(why) => {
            &&& r is Err
            &&& r->Err_0.is(why.0, why.1)
            &&& if why.0 == ErrorKind::Forbidden {
                gained(
                    ledger_before,
                    ledger_after,
                    event_about(
                        Some(actor.id),
                        denied_action,
                        "user"@,
                        changed.id,
                        Some(decision->Deny_0.text()),
                        LogSeverity::Error,
                        now,
                    ),
                )
            } else {
                ledger_after == ledger_before
            }
        },
        None => {
            &&& r == Ok::<User, BotError>(changed)
            &&& gained(
                ledger_before,
                ledger_after,
                event_about(
                    Some(actor.id),
                    done_action,
                    "user"@,
                    changed.id,
                    Some(detail),
                    LogSeverity::Info,
                    now,
                ),
            )
        },
    }
}

/// The account of a member on first contact: active, a `Viewer`, without a
/// face verification.
pub fn register(request: &UserCreateRequest, id: u128, now: i64) -> (r: User)
    ensures
        r.id == id,
        r.telegram_id == request.telegram_id,
        r.telegram_username == request.telegram_username,
        r.name == request.name,
        r.surname == request.surname,
        r.status == UserStatus::Active,
        r.role == UserRole::Viewer,
        r.face_verification_id is None,
        r.created_at == now,
        r.updated_at == now,
{
    User {
        id,
        telegram_id: request.telegram_id,
        telegram_username: request.telegram_username.clone(),
        name: request.name.clone(),
        surname: request.surname.clone(),
        status: UserStatus::Active,
        role: UserRole::Viewer,
        face_verification_id: None,
        created_at: now,
        updated_at: now,
    }
}

/// Whether the face verification that `user` relies on is one of its own
/// that has succeeded. An account that relies on none is backed.
pub fn is_backed(verifications: &VerificationPipeline, user: &User) -> (r: bool)
    requires
        verifications.wf(),
    ensures
        r == backed(verifications@, *user),
{
    match user.face_verification_id {
        Some(vid) => match verifications.find(vid) {
            Some(v) => v.status == FaceVerificationStatus::Verified && v.telegram_id
                == user.telegram_id,
            None => false,
        },
        None => true,
    }
}

/// Gives the account `target` the role `new_role`, on behalf of `actor`,
/// and returns the account as it then stands. See `role_refusal` and
/// `change_outcome`.
pub fn change_role(
    ledger: &mut AuditLedger,
    verifications: &VerificationPipeline,
    actor: &User,
    target: &User,
    new_role: UserRole,
    now: i64,
) -> (r: Result<User, BotError>)
    requires
        old(ledger).wf(),
        verifications.wf(),
    ensures
        final(ledger).wf(),
        change_outcome(
            old(ledger)@,
            final(ledger)@,
            r,
            role_refusal(verifications@, *actor, *target, new_role),
            User { role: new_role, updated_at: now, ..*target },
            *actor,
            decide(
                actor.role,
                actor.status,
                Action::ChangeRole(new_role),
                Some(target.id),
                actor.id,
            ),
            "account.role.denied"@,
            "account.role.changed"@,
            role_text(new_role),
            now,
        ),
        r matches Ok(user) ==> sound(verifications@, user),
{
    let decision = authorize(
        actor.role,
        actor.status,
        Action::ChangeRole(new_role),
        Some(target.id),
        actor.id,
    );
    if let Decision::Deny(reason) = decision {
        ledger.append(
            AuditEvent::about(
                Some(actor.id),
                "account.role.denied",
                "user",
                target.id,
                Some(reason.message()),
                LogSeverity::Error,
                now,
            ),
        );
        return Err(BotError::Forbidden);
    }
    if new_role.at_least(UserRole::Announcer) && !is_backed(verifications, target) {
        return Err(BotError::ValidationError(String::from_str("verification not verified")));
    }
    let changed = User {
        id: target.id,
        telegram_id: target.telegram_id,
        telegram_username: target.telegram_username.clone(),
        name: target.name.clone(),
        surname: target.surname.clone(),
        status: target.status,
        role: new_role,
        face_verification_id: target.face_verification_id,
        created_at: target.created_at,
        updated_at: now,
    };
    ledger.append(
        AuditEvent::about(
            Some(actor.id),
            "account.role.changed",
            "user",
            target.id,
            Some(role_name(new_role)),
            LogSeverity::Info,
            now,
        ),
    );
    Ok(changed)
}

/// Blocks or unblocks the account `target`, on behalf of `actor`, and
/// returns the account as it then stands. Only the authorization can stand
/// against it. See `change_outcome`.
pub fn change_status(
    ledger: &mut AuditLedger,
    actor: &User,
    target: &User,
    new_status: UserStatus,
    now: i64,
) -> (r: Result<User, BotError>)
    requires
        old(ledger).wf(),
    ensures
        final(ledger).wf(),
        change_outcome(
            old(ledger)@,
            final(ledger)@,
            r,
            if decide(actor.role, actor.status, Action::ChangeStatus, Some(target.id), actor.id)
                is Deny {
                Some((ErrorKind::Forbidden, Seq::empty()))
            } else {
                None
            },
            User { status: new_status, updated_at: now, ..*target },
            *actor,
            decide(actor.role, actor.status, Action::ChangeStatus, Some(target.id), actor.id),
            "account.status.denied"@,
            "account.status.changed"@,
            status_text(new_status),
            now,
        ),
{
    let decision = authorize(
        actor.role,
        actor.status,
        Action::ChangeStatus,
        Some(target.id),
        actor.id,
    );
    if let Decision::Deny(reason) = decision {
        ledger.append(
            AuditEvent::about(
                Some(actor.id),
                "account.status.denied",
                "user",
                target.id,
                Some(reason.message()),
                LogSeverity::Error,
                now,
            ),
        );
        return Err(BotError::Forbidden);
    }
    let changed = User {
        id: target.id,
        telegram_id: target.telegram_id,
        telegram_username: target.telegram_username.clone(),
        name: target.name.clone(),
        surname: target.surname.clone(),
        status: new_status,
        role: target.role,
        face_verification_id: target.face_verification_id,
        created_at: target.created_at,
        updated_at: now,
    };
    ledger.append(
        AuditEvent::about(
            Some(actor.id),
            "account.status.changed",
            "user",
            target.id,
            Some(status_name(new_status)),
            LogSeverity::Info,
            now,
        ),
    );
    Ok(changed)
}

/// Lets the account `user` rely on the face verification `verification`,
/// and returns the account as it then stands.
///
/// Fails with a validation error where the verification was handed in for
/// another account, and where the account is an `Announcer` or higher and
/// the verification has not succeeded.
pub fn link_verification(user: &User, verification: &FaceVerification, now: i64) -> (r: Result<
    User,
    BotError,
>)
    ensures
        match r {
            Ok(linked) => {
                &&& verification.telegram_id == user.telegram_id
                &&& user.role.rank() >= UserRole::Announcer.rank() ==> verification.status
                    == FaceVerificationStatus::Verified
                &&& linked == User {
                    face_verification_id: Some(verification.id),
                    updated_at: now,
                    ..*user
                }
            },
            Err(e) => if verification.telegram_id != user.telegram_id {
                e.is(ErrorKind::Validation, "verification belongs to another account"@)
            } else {
                &&& user.role.rank() >= UserRole::Announcer.rank()
                &&& verification.status != FaceVerificationStatus::Verified
                &&& e.is(ErrorKind::Validation, "verification not verified"@)
            },
        },
{
    if verification.telegram_id != user.telegram_id {
        return Err(
            BotError::ValidationError(String::from_str("verification belongs to another account")),
        );
    }
    if user.role.at_least(UserRole::Announcer) && verification.status
        != FaceVerificationStatus::Verified {
        return Err(BotError::ValidationError(String::from_str("verification not verified")));
    }
    Ok(
        User {
            id: user.id,
            telegram_id: user.telegram_id,
            telegram_username: user.telegram_username.clone(),
            name: user.name.clone(),
            surname: user.surname.clone(),
            status: user.status,
            role: user.role,
            face_verification_id: Some(verification.id),
            created_at: user.created_at,
            updated_at: now,
        },
    )
}

} // verus!
