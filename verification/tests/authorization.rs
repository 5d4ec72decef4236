use rustobot::domain::authorization::{
    audit_severity, authorize, denial_error, Action, Decision, DenyReason,
};
use rustobot::domain::models::{LogSeverity, UserRole, UserStatus};
use rustobot::error::BotError;

const ROLES: [UserRole; 4] =
    [UserRole::Viewer, UserRole::Announcer, UserRole::Admin, UserRole::SuperAdmin];

const ACTIONS: [Action; 11] = [
    Action::ViewOwnProfile,
    Action::SubmitVerification,
    Action::CreateAnnouncement,
    Action::EditAnnouncement,
    Action::VerifyFace,
    Action::RejectFace,
    Action::ChangeStatus,
    Action::ChangeRole(UserRole::Viewer),
    Action::ChangeRole(UserRole::Announcer),
    Action::ChangeRole(UserRole::Admin),
    Action::ChangeRole(UserRole::SuperAdmin),
];

#[test]
fn blocked_account_may_only_view_its_own_profile() {
    for role in ROLES {
        for action in ACTIONS {
            let decision = authorize(role, UserStatus::Blocked, action, Some(9), 9);
            if action == Action::ViewOwnProfile {
                assert_eq!(decision, Decision::Allow);
            } else {
                assert_eq!(decision, Decision::Deny(DenyReason::AccountBlocked));
            }
        }
    }
}

#[test]
fn announcer_acts_on_own_announcements_only() {
    for action in [Action::CreateAnnouncement, Action::EditAnnouncement] {
        assert_eq!(
            authorize(UserRole::Announcer, UserStatus::Active, action, Some(5), 5),
            Decision::Allow
        );
        assert_eq!(
            authorize(UserRole::Announcer, UserStatus::Active, action, Some(6), 5),
            Decision::Deny(DenyReason::NotOwner)
        );
        assert_eq!(
            authorize(UserRole::Announcer, UserStatus::Active, action, None, 5),
            Decision::Deny(DenyReason::NotOwner)
        );
    }
}

#[test]
fn viewer_is_refused_announcements_even_as_owner() {
    for action in [Action::CreateAnnouncement, Action::EditAnnouncement] {
        assert_eq!(
            authorize(UserRole::Viewer, UserStatus::Active, action, Some(5), 5),
            Decision::Deny(DenyReason::InsufficientRole)
        );
    }
}

#[test]
fn admins_act_on_any_owner() {
    for role in [UserRole::Admin, UserRole::SuperAdmin] {
        for action in [Action::CreateAnnouncement, Action::EditAnnouncement] {
            assert_eq!(authorize(role, UserStatus::Active, action, Some(6), 5), Decision::Allow);
            assert_eq!(authorize(role, UserStatus::Active, action, None, 5), Decision::Allow);
        }
    }
}

#[test]
fn face_verifications_are_decided_by_admins() {
    for action in [Action::VerifyFace, Action::RejectFace, Action::ChangeStatus] {
        for role in [UserRole::Viewer, UserRole::Announcer] {
            assert_eq!(
                authorize(role, UserStatus::Active, action, Some(6), 5),
                Decision::Deny(DenyReason::InsufficientRole)
            );
        }
        for role in [UserRole::Admin, UserRole::SuperAdmin] {
            assert_eq!(authorize(role, UserStatus::Active, action, Some(6), 5), Decision::Allow);
        }
    }
}

#[test]
fn super_admin_is_granted_by_super_admin_only() {
    let grant = Action::ChangeRole(UserRole::SuperAdmin);
    assert_eq!(
        authorize(UserRole::Admin, UserStatus::Active, grant, Some(6), 5),
        Decision::Deny(DenyReason::SuperAdminRequired)
    );
    assert_eq!(
        authorize(UserRole::SuperAdmin, UserStatus::Active, grant, Some(6), 5),
        Decision::Allow
    );
    assert_eq!(
        authorize(UserRole::Announcer, UserStatus::Active, grant, Some(6), 5),
        Decision::Deny(DenyReason::InsufficientRole)
    );
    assert_eq!(
        authorize(
            UserRole::Admin,
            UserStatus::Active,
            Action::ChangeRole(UserRole::Admin),
            Some(6),
            5
        ),
        Decision::Allow
    );
}

#[test]
fn personal_actions_are_for_oneself() {
    for role in ROLES {
        for action in [Action::ViewOwnProfile, Action::SubmitVerification] {
            assert_eq!(authorize(role, UserStatus::Active, action, Some(5), 5), Decision::Allow);
            assert_eq!(authorize(role, UserStatus::Active, action, None, 5), Decision::Allow);
            assert_eq!(
                authorize(role, UserStatus::Active, action, Some(6), 5),
                Decision::Deny(DenyReason::NotOwner)
            );
        }
    }
}

#[test]
fn a_higher_role_keeps_every_permission() {
    for (i, lower) in ROLES.iter().enumerate() {
        for higher in &ROLES[i..] {
            for action in ACTIONS {
                for target in [None, Some(5), Some(6)] {
                    if authorize(*lower, UserStatus::Active, action, target, 5) == Decision::Allow {
                        assert_eq!(
                            authorize(*higher, UserStatus::Active, action, target, 5),
                            Decision::Allow
                        );
                    }
                }
            }
        }
    }
}

#[test]
fn deny_reasons_read_as_text() {
    assert_eq!(DenyReason::AccountBlocked.message(), "account blocked");
    assert_eq!(DenyReason::InsufficientRole.message(), "insufficient role");
    assert_eq!(DenyReason::NotOwner.message(), "not the owner");
    assert_eq!(DenyReason::SuperAdminRequired.message(), "super admin required");
}

#[test]
fn refusals_of_mutations_are_audited_as_errors() {
    let deny = Decision::Deny(DenyReason::InsufficientRole);
    assert_eq!(
        audit_severity(deny, Action::CreateAnnouncement, Some(5), 5),
        Some(LogSeverity::Error)
    );
    assert_eq!(audit_severity(deny, Action::ViewOwnProfile, Some(6), 5), None);
    assert_eq!(audit_severity(Decision::Allow, Action::VerifyFace, Some(6), 5), Some(LogSeverity::Info));
    assert_eq!(audit_severity(Decision::Allow, Action::EditAnnouncement, Some(5), 5), None);
    assert_eq!(
        audit_severity(Decision::Allow, Action::EditAnnouncement, Some(6), 5),
        Some(LogSeverity::Info)
    );
    assert_eq!(audit_severity(Decision::Allow, Action::SubmitVerification, Some(5), 5), None);
    assert!(Action::CreateAnnouncement.is_mutating());
    assert!(!Action::ViewOwnProfile.is_mutating());
}

#[test]
fn denial_maps_to_unauthorized_or_forbidden() {
    assert_eq!(denial_error(true), BotError::Forbidden);
    assert_eq!(denial_error(false), BotError::Unauthorized);
}

#[test]
fn roles_and_severities_are_ordered() {
    assert!(UserRole::SuperAdmin.at_least(UserRole::Admin));
    assert!(UserRole::Admin.at_least(UserRole::Announcer));
    assert!(UserRole::Announcer.at_least(UserRole::Viewer));
    assert!(!UserRole::Viewer.at_least(UserRole::Announcer));
    assert!(UserRole::Admin.at_least(UserRole::Admin));
    assert_eq!(UserRole::Viewer.level(), 0);
    assert_eq!(UserRole::SuperAdmin.level(), 3);
    assert!(LogSeverity::Critical.at_least(LogSeverity::Error));
    assert!(LogSeverity::Warning.at_least(LogSeverity::Info));
    assert!(!LogSeverity::Info.at_least(LogSeverity::Warning));
    assert_eq!(LogSeverity::Warning.level(), 1);
}
