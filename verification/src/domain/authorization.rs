//! The authorization engine: who may do what to whom.
//!
//! The decision is a pure function of the actor's role and status, the
//! action, the owner of the target and the actor's identity.

use crate::domain::audit::{event_about, EventView};
use crate::domain::models::{LogSeverity, User, UserRole, UserStatus};
use crate::error::BotError;
use vstd::prelude::*;
use vstd::string::*;

verus! {

/// What an actor asks to do.
#[derive(Debug, Clone, Copy, PartialEq, Eq, Structural)]
pub enum Action {
    /// Read the actor's own profile.
    ViewOwnProfile,
    /// Hand in a video for the actor's own face verification.
    SubmitVerification,
    /// Publish an announcement for a service.
    CreateAnnouncement,
    /// Change an announcement of a service.
    EditAnnouncement,
    /// Accept a face verification.
    VerifyFace,
    /// Refuse a face verification.
    RejectFace,
    /// Block or unblock an account.
    ChangeStatus,
    /// Give an account the role named.
    ChangeRole(UserRole),
}

/// Why an action was refused.
#[derive(Debug, Clone, Copy, PartialEq, Eq, Structural)]
pub enum DenyReason {
    AccountBlocked,
    InsufficientRole,
    NotOwner,
    SuperAdminRequired,
}

/// The outcome of an authorization.
#[derive(Debug, Clone, Copy, PartialEq, Eq, Structural)]
pub enum Decision {
    Allow,
    Deny(DenyReason),
}

impl Action {
    /// Whether the action changes anything.
    pub open spec fn mutating(self) -> bool {
        self != Action::ViewOwnProfile
    }

    /// Whether the action concerns only what belongs to the actor.
    pub open spec fn personal(self) -> bool {
        self == Action::ViewOwnProfile || self == Action::SubmitVerification
    }

    /// Whether the action is about an announcement.
    pub open spec fn on_announcement(self) -> bool {
        self == Action::CreateAnnouncement || self == Action::EditAnnouncement
    }

    /// Whether the action changes anything.
    pub fn is_mutating(self) -> (r: bool)
        ensures
            r == self.mutating(),
    {
        match self {
            Action::ViewOwnProfile => false,
            _ => true,
        }
    }
}

impl DenyReason {
    /// The reason in words.
    pub open spec fn text(self) -> Seq<char> {
        match self {
            DenyReason::AccountBlocked => "account blocked"@,
            DenyReason::InsufficientRole => "insufficient role"@,
            DenyReason::NotOwner => "not the owner"@,
            DenyReason::SuperAdminRequired => "super admin required"@,
        }
    }

    /// The reason in words.
    pub fn message(self) -> (r: String)
        ensures
            r@ == self.text(),
    {
        match self {
            DenyReason::AccountBlocked => String::from_str("account blocked"),
            DenyReason::InsufficientRole => String::from_str("insufficient role"),
            DenyReason::NotOwner => String::from_str("not the owner"),
            DenyReason::SuperAdminRequired => String::from_str("super admin required"),
        }
    }
}

/// Whether the target belongs to the actor. A target without an owner belongs to nobody.
pub open spec fn owns(target_owner_id: Option<u128>, actor_id: u128) -> bool {
    target_owner_id == Some(actor_id)
}

/// The permission matrix.
///
/// A blocked account may only view its own profile. The personal actions are
/// open to every active account, on its own behalf. An announcement may be
/// created or edited by its owner from the role `Announcer` on, and by every
/// `Admin`. Face verifications are decided, and accounts blocked or given a
/// role, by an `Admin`; the role `SuperAdmin` is given only by a `SuperAdmin`.
pub open spec fn decide(
    actor_role: UserRole,
    actor_status: UserStatus,
    action: Action,
    target_owner_id: Option<u128>,
    actor_id: u128,
) -> Decision {
    if actor_status == UserStatus::Blocked && action != Action::ViewOwnProfile {
        Decision::Deny(DenyReason::AccountBlocked)
    } else if action.personal() {
        if target_owner_id is None || owns(target_owner_id, actor_id) {
            Decision::Allow
        } else {
            Decision::Deny(DenyReason::NotOwner)
        }
    } else if action.on_announcement() {
        if actor_role.rank() >= UserRole::Admin.rank() {
            Decision::Allow
        } else if actor_role.rank() < UserRole::Announcer.rank() {
            Decision::Deny(DenyReason::InsufficientRole)
        } else if owns(target_owner_id, actor_id) {
            Decision::Allow
        } else {
            Decision::Deny(DenyReason::NotOwner)
        }
    } else if actor_role.rank() < UserRole::Admin.rank() {
        Decision::Deny(DenyReason::InsufficientRole)
    } else if action == Action::ChangeRole(UserRole::SuperAdmin) && actor_role
        != UserRole::SuperAdmin {
        Decision::Deny(DenyReason::SuperAdminRequired)
    } else {
        Decision::Allow
    }
}

/// Decides whether the actor may perform `action` on a target owned by
/// `target_owner_id`. The decision has no effect of its own.
pub fn authorize(
    actor_role: UserRole,
    actor_status: UserStatus,
    action: Action,
    target_owner_id: Option<u128>,
    actor_id: u128,
) -> (r: Decision)
    ensures
        r == decide(actor_role, actor_status, action, target_owner_id, actor_id),
{
    let own = match target_owner_id {
        Some(owner) => owner == actor_id,
        None => false,
    };
    match action {
        Action::ViewOwnProfile => {
            if target_owner_id.is_none() || own {
                Decision::Allow
            } else {
                Decision::Deny(DenyReason::NotOwner)
            }
        },
        _ => {
            if actor_status == UserStatus::Blocked {
                return Decision::Deny(DenyReason::AccountBlocked);
            }
            match action {
                Action::SubmitVerification => {
                    if target_owner_id.is_none() || own {
                        Decision::Allow
                    } else {
                        Decision::Deny(DenyReason::NotOwner)
                    }
                },
                Action::CreateAnnouncement | Action::EditAnnouncement => {
                    if actor_role.at_least(UserRole::Admin) {
                        Decision::Allow
                    } else if !actor_role.at_least(UserRole::Announcer) {
                        Decision::Deny(DenyReason::InsufficientRole)
                    } else if own {
                        Decision::Allow
                    } else {
                        Decision::Deny(DenyReason::NotOwner)
                    }
                },
                Action::ChangeRole(UserRole::SuperAdmin) => {
                    if !actor_role.at_least(UserRole::Admin) {
                        Decision::Deny(DenyReason::InsufficientRole)
                    } else if actor_role != UserRole::SuperAdmin {
                        Decision::Deny(DenyReason::SuperAdminRequired)
                    } else {
                        Decision::Allow
                    }
                },
                _ => {
                    if actor_role.at_least(UserRole::Admin) {
                        Decision::Allow
                    } else {
                        Decision::Deny(DenyReason::InsufficientRole)
                    }
                },
            }
        },
    }
}

/// The severity of the audit entry that a decision calls for, if it calls for one.
///
/// A refusal of a mutating action is recorded as `Error`. A permission is
/// recorded as `Info` where the action is reserved to administrators or where
/// an administrator acts on an announcement that is not their own.
pub open spec fn audit_severity_of(
    decision: Decision,
    action: Action,
    target_owner_id: Option<u128>,
    actor_id: u128,
) -> Option<LogSeverity> {
    match decision {
        Decision::Deny(_) => if action.mutating() {
            Some(LogSeverity::Error)
        } else {
            None
        },
        Decision::Allow => if action.personal() {
            None
        } else if action.on_announcement() && owns(target_owner_id, actor_id) {
            None
        } else {
            Some(LogSeverity::Info)
        },
    }
}

/// The severity of the audit entry that a decision calls for, if it calls for one.
pub fn audit_severity(
    decision: Decision,
    action: Action,
    target_owner_id: Option<u128>,
    actor_id: u128,
) -> (r: Option<LogSeverity>)
    ensures
        r == audit_severity_of(decision, action, target_owner_id, actor_id),
{
    let own = match target_owner_id {
        Some(owner) => owner == actor_id,
        None => false,
    };
    match decision {
        Decision::Deny(_) => {
            if action.is_mutating() {
                Some(LogSeverity::Error)
            } else {
                None
            }
        },
        Decision::Allow => {
            match action {
                Action::ViewOwnProfile | Action::SubmitVerification => None,
                Action::CreateAnnouncement | Action::EditAnnouncement => {
                    if own {
                        None
                    } else {
                        Some(LogSeverity::Info)
                    }
                },
                _ => Some(LogSeverity::Info),
            }
        },
    }
}

/// The audit event of a refusal: what the actor was refused, on which
/// entity, and why.
pub open spec fn denial_event(
    actor: User,
    action: Seq<char>,
    kind: Seq<char>,
    entity_id: u128,
    decision: Decision,
    now: i64,
) -> EventView {
    event_about(
        Some(actor.id),
        action,
        kind,
        entity_id,
        Some(decision->Deny_0.text()),
        LogSeverity::Error,
        now,
    )
}

/// The error that reports a refusal: `Unauthorized` where the actor could not
/// be identified, `Forbidden` where the actor is known.
pub fn denial_error(actor_recognized: bool) -> (r: BotError)
    ensures
        actor_recognized ==> r == BotError::Forbidden,
        !actor_recognized ==> r == BotError::Unauthorized,
{
    if actor_recognized {
        BotError::Forbidden
    } else {
        BotError::Unauthorized
    }
}

/// A blocked account is refused everything but the view of its own profile.
pub proof fn lemma_blocked_is_denied(
    actor_role: UserRole,
    action: Action,
    target_owner_id: Option<u128>,
    actor_id: u128,
)
    requires
        action != Action::ViewOwnProfile,
    ensures
        decide(actor_role, UserStatus::Blocked, action, target_owner_id, actor_id)
            == Decision::Deny(DenyReason::AccountBlocked),
{
}

/// What a role may do, every higher role may do as well.
pub proof fn lemma_higher_role_keeps_permission(
    lower: UserRole,
    higher: UserRole,
    actor_status: UserStatus,
    action: Action,
    target_owner_id: Option<u128>,
    actor_id: u128,
)
    requires
        lower.rank() <= higher.rank(),
        decide(lower, actor_status, action, target_owner_id, actor_id) == Decision::Allow,
    ensures
        decide(higher, actor_status, action, target_owner_id, actor_id) == Decision::Allow,
{
}

/// A `Viewer` may neither create nor edit an announcement, whoever owns it.
pub proof fn lemma_viewer_cannot_announce(
    actor_status: UserStatus,
    action: Action,
    target_owner_id: Option<u128>,
    actor_id: u128,
)
    requires
        action.on_announcement(),
    ensures
        decide(UserRole::Viewer, actor_status, action, target_owner_id, actor_id)
            is Deny,
{
}

} // verus!
