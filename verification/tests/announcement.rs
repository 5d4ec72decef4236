use rustobot::domain::announcement::{AnnouncementLifecycle, Placement, SweepReport};
use rustobot::domain::audit::AuditLedger;
use rustobot::domain::catalog::CatalogManager;
use rustobot::domain::models::{
    AccessType, Announcement, AnnouncementCreateRequest, LogSeverity, Periodicity, Service,
    ServiceCategory, ServiceStatus, User, UserRole, UserStatus, MICROS_PER_DAY,
};
use rustobot::domain::price::Price;
use rustobot::domain::verification::VerificationPipeline;
use rustobot::error::BotError;

const T0: i64 = 1_700_000_000_000_000;

struct World {
    lifecycle: AnnouncementLifecycle,
    ledger: AuditLedger,
    verifications: VerificationPipeline,
    catalog: CatalogManager,
}

fn user(id: u128, role: UserRole, verification: Option<u128>) -> User {
    User {
        id,
        telegram_id: 1000 + id as i64,
        telegram_username: format!("user{}", id),
        name: "Name".to_string(),
        surname: "Surname".to_string(),
        status: UserStatus::Active,
        role,
        face_verification_id: verification,
        created_at: 0,
        updated_at: 0,
    }
}

fn service(id: u128, owner: u128, suggestion: Option<u128>) -> Service {
    Service {
        id,
        owner_id: owner,
        service_suggestion_id: suggestion,
        service_name: "Netflix".to_string(),
        category: ServiceCategory::Streaming,
        created_at: 0,
        updated_at: 0,
    }
}

fn request(price: &str, periodicity: Periodicity) -> AnnouncementCreateRequest {
    AnnouncementCreateRequest {
        service_name: "netflix".to_string(),
        price_per_slot: price.to_string(),
        periodicity,
        access_type: AccessType::EmailInvite,
        status: ServiceStatus::Available,
    }
}

fn placement(id: u128) -> Placement {
    Placement { id, telegram_message_id: 555, channel_id: -100 }
}

/// A world in which account 1 has a verified face (verification 11), account 2 a pending one
/// (verification 12), and the catalog holds Netflix (suggestion 21) between 5.00 and 12.00.
fn world() -> World {
    let mut ledger = AuditLedger::new();
    let mut verifications = VerificationPipeline::new();
    verifications.submit(&mut ledger, 11, 1001, "v".to_string(), None, 1).unwrap();
    verifications.apply_result(&mut ledger, 11, 92, 85, "f".to_string(), None, 2).unwrap();
    verifications.submit(&mut ledger, 12, 1002, "v".to_string(), None, 3).unwrap();
    let mut catalog = CatalogManager::new();
    catalog
        .find_or_create_suggestion(
            21,
            "Netflix",
            ServiceCategory::Streaming,
            Price { hundredths: 500 },
            Price { hundredths: 1200 },
            4,
        )
        .unwrap();
    World { lifecycle: AnnouncementLifecycle::new(), ledger: AuditLedger::new(), verifications, catalog }
}

fn create(
    w: &mut World,
    actor: &User,
    service: &Service,
    request: &AnnouncementCreateRequest,
    id: u128,
    now: i64,
) -> Result<Announcement, BotError> {
    w.lifecycle.create(
        &mut w.ledger,
        &w.verifications,
        &w.catalog,
        actor,
        service,
        request,
        placement(id),
        now,
    )
}

fn validation(text: &str) -> BotError {
    BotError::ValidationError(text.to_string())
}

#[test]
fn verified_announcer_creates_an_announcement() {
    let mut w = world();
    let actor = user(1, UserRole::Announcer, Some(11));
    let a = create(&mut w, &actor, &service(31, 1, Some(21)), &request("7.50", Periodicity::Monthly), 41, T0)
        .unwrap();
    assert_eq!(
        a,
        Announcement {
            id: 41,
            service_id: 31,
            telegram_message_id: 555,
            channel_id: -100,
            price_per_slot: Price { hundredths: 750 },
            periodicity: Periodicity::Monthly,
            access_type: AccessType::EmailInvite,
            status: ServiceStatus::Available,
            expiration_date: T0 + 2_592_000_000_000,
            created_at: T0,
            version: 0,
        }
    );
    assert_eq!(w.lifecycle.len(), 1);
    assert_eq!(w.lifecycle.find(41), Some(a));
    assert_eq!(w.ledger.len(), 1);
    let entry = w.ledger.get(0).unwrap();
    assert_eq!(entry.action_type, "announcement.created");
    assert_eq!(entry.entity_type.as_deref(), Some("announcement"));
    assert_eq!(entry.entity_id, Some(41));
    assert_eq!(entry.user_id, Some(1));
    assert_eq!(entry.severity, LogSeverity::Info);
    assert_eq!(entry.created_at, T0);
}

#[test]
fn expiration_follows_the_periodicity() {
    assert_eq!(MICROS_PER_DAY, 86_400_000_000);
    assert_eq!(Periodicity::Monthly.offset_micros(), 2_592_000_000_000);
    assert_eq!(Periodicity::Quarterly.offset_micros(), 7_776_000_000_000);
    assert_eq!(Periodicity::Semiannual.offset_micros(), 15_552_000_000_000);
    assert_eq!(Periodicity::Annual.offset_micros(), 31_536_000_000_000);
    let mut w = world();
    let actor = user(1, UserRole::Announcer, Some(11));
    let periods = [
        (Periodicity::Monthly, 30),
        (Periodicity::Quarterly, 90),
        (Periodicity::Semiannual, 180),
        (Periodicity::Annual, 365),
    ];
    for (k, (periodicity, days)) in periods.iter().enumerate() {
        let a = create(&mut w, &actor, &service(31, 1, None), &request("1", *periodicity), k as u128, T0)
            .unwrap();
        assert_eq!(a.expiration_date, T0 + days * 86_400_000_000);
    }
}

#[test]
fn viewer_cannot_create_whatever_else_holds() {
    let mut w = world();
    let good = request("7.50", Periodicity::Monthly);
    let bad = AnnouncementCreateRequest {
        service_name: "other".to_string(),
        price_per_slot: "nonsense".to_string(),
        periodicity: Periodicity::Annual,
        access_type: AccessType::Credentials,
        status: ServiceStatus::Expired,
    };
    let mut attempts = 0;
    for verification in [None, Some(11), Some(12), Some(99)] {
        for status in [UserStatus::Active, UserStatus::Blocked] {
            for svc in [service(31, 1, Some(21)), service(31, 2, None), service(31, 1, Some(99))] {
                for req in [&good, &bad] {
                    for now in [T0, i64::MAX] {
                        let mut actor = user(1, UserRole::Viewer, verification);
                        actor.status = status;
                        let r = create(&mut w, &actor, &svc, req, 41, now);
                        assert_eq!(r, Err(BotError::Forbidden));
                        attempts += 1;
                        assert_eq!(w.ledger.len(), attempts);
                        assert_eq!(w.ledger.get(attempts - 1).unwrap().severity, LogSeverity::Error);
                    }
                }
            }
        }
    }
    assert_eq!(w.lifecycle.len(), 0);
}

#[test]
fn refusal_is_recorded_with_its_reason() {
    let mut w = world();
    let actor = user(1, UserRole::Viewer, None);
    let r = create(&mut w, &actor, &service(31, 1, None), &request("1", Periodicity::Monthly), 41, T0);
    assert_eq!(r, Err(BotError::Forbidden));
    let entry = w.ledger.get(0).unwrap();
    assert_eq!(entry.action_type, "announcement.create.denied");
    assert_eq!(entry.entity_type.as_deref(), Some("service"));
    assert_eq!(entry.entity_id, Some(31));
    assert_eq!(entry.user_id, Some(1));
    assert_eq!(entry.details.as_deref(), Some("insufficient role"));
    assert_eq!(entry.severity, LogSeverity::Error);

    let stranger = user(2, UserRole::Announcer, None);
    let r = create(&mut w, &stranger, &service(31, 1, None), &request("1", Periodicity::Monthly), 41, T0);
    assert_eq!(r, Err(BotError::Forbidden));
    assert_eq!(w.ledger.get(1).unwrap().details.as_deref(), Some("not the owner"));

    let mut blocked = user(1, UserRole::Admin, None);
    blocked.status = UserStatus::Blocked;
    let r = create(&mut w, &blocked, &service(31, 1, None), &request("1", Periodicity::Monthly), 41, T0);
    assert_eq!(r, Err(BotError::Forbidden));
    assert_eq!(w.ledger.get(2).unwrap().details.as_deref(), Some("account blocked"));
    assert_eq!(w.lifecycle.len(), 0);
}

#[test]
fn announcer_without_verification_is_refused() {
    let mut w = world();
    let actor = user(1, UserRole::Announcer, None);
    let r = create(&mut w, &actor, &service(31, 1, Some(21)), &request("7.50", Periodicity::Monthly), 41, T0);
    assert_eq!(r, Err(validation("verification required")));
    assert_eq!(w.lifecycle.len(), 0);
    assert_eq!(w.ledger.len(), 0);
}

#[test]
fn announcer_needs_a_verification_of_their_own_that_succeeded() {
    let mut w = world();
    let req = request("7.50", Periodicity::Monthly);
    let pending = user(2, UserRole::Announcer, Some(12));
    assert_eq!(
        create(&mut w, &pending, &service(31, 2, None), &req, 41, T0),
        Err(validation("verification required"))
    );
    let borrowed = user(2, UserRole::Announcer, Some(11));
    assert_eq!(
        create(&mut w, &borrowed, &service(31, 2, None), &req, 41, T0),
        Err(validation("verification required"))
    );
    let unknown = user(1, UserRole::Announcer, Some(99));
    assert_eq!(
        create(&mut w, &unknown, &service(31, 1, None), &req, 41, T0),
        Err(validation("verification required"))
    );
    assert_eq!(w.lifecycle.len(), 0);
}

#[test]
fn admin_creates_without_verification_and_for_others() {
    let mut w = world();
    let admin = user(3, UserRole::Admin, None);
    let a = create(&mut w, &admin, &service(31, 1, None), &request("99.99", Periodicity::Annual), 41, T0)
        .unwrap();
    assert_eq!(a.price_per_slot, Price { hundredths: 9999 });
    assert_eq!(w.lifecycle.len(), 1);
}

#[test]
fn price_above_the_maximum_is_refused() {
    let mut w = world();
    let actor = user(1, UserRole::Announcer, Some(11));
    let r = create(&mut w, &actor, &service(31, 1, Some(21)), &request("15.00", Periodicity::Monthly), 41, T0);
    assert_eq!(r, Err(validation("price outside the allowed range")));
    assert_eq!(w.lifecycle.len(), 0);
    assert_eq!(w.lifecycle.find(41), None);
    assert_eq!(w.ledger.len(), 0);
}

#[test]
fn price_bounds_hold_at_creation() {
    let mut w = world();
    let actor = user(1, UserRole::Announcer, Some(11));
    let svc = service(31, 1, Some(21));
    let mut id = 0;
    for (text, ok) in [("4.99", false), ("5.00", true), ("5", true), ("8.5", true), ("12.00", true), ("12.01", false), ("0", false)] {
        id += 1;
        let r = create(&mut w, &actor, &svc, &request(text, Periodicity::Monthly), id, T0);
        match r {
            Ok(a) => {
                assert!(ok, "price {}", text);
                assert!(500 <= a.price_per_slot.hundredths && a.price_per_slot.hundredths <= 1200);
            }
            Err(e) => {
                assert!(!ok, "price {}", text);
                assert_eq!(e, validation("price outside the allowed range"));
            }
        }
    }
    assert_eq!(w.lifecycle.len(), 4);
    let free = service(32, 1, None);
    assert!(create(&mut w, &actor, &free, &request("15.00", Periodicity::Monthly), 100, T0).is_ok());
}

#[test]
fn malformed_requests_are_refused() {
    let mut w = world();
    let actor = user(1, UserRole::Announcer, Some(11));
    let svc = service(31, 1, Some(21));
    let mut waiting = request("7.50", Periodicity::Monthly);
    waiting.status = ServiceStatus::WaitingMembers;
    assert_eq!(
        create(&mut w, &actor, &svc, &waiting, 41, T0),
        Err(validation("initial status must be available"))
    );
    let mut misnamed = request("7.50", Periodicity::Monthly);
    misnamed.service_name = "Spotify".to_string();
    assert_eq!(
        create(&mut w, &actor, &svc, &misnamed, 41, T0),
        Err(validation("service name does not match the service"))
    );
    for text in ["", "abc", "7,50", "7.505", "-1"] {
        assert_eq!(
            create(&mut w, &actor, &svc, &request(text, Periodicity::Monthly), 41, T0),
            Err(validation("invalid price"))
        );
    }
    assert_eq!(
        create(&mut w, &actor, &service(31, 1, Some(99)), &request("7.50", Periodicity::Monthly), 41, T0),
        Err(BotError::NotFound("service suggestion".to_string()))
    );
    let mut gaming = service(31, 1, Some(21));
    gaming.category = ServiceCategory::Gaming;
    assert_eq!(
        create(&mut w, &actor, &gaming, &request("7.50", Periodicity::Monthly), 41, T0),
        Err(validation("category differs from the catalog entry"))
    );
    assert_eq!(
        create(&mut w, &actor, &svc, &request("7.50", Periodicity::Monthly), 41, i64::MAX - 2_591_999_999_999),
        Err(validation("expiration out of range"))
    );
    assert_eq!(w.lifecycle.len(), 0);
    assert_eq!(w.ledger.len(), 0);
    let last = create(&mut w, &actor, &svc, &request("7.50", Periodicity::Monthly), 41, i64::MAX - 2_592_000_000_000)
        .unwrap();
    assert_eq!(last.expiration_date, i64::MAX);
    assert_eq!(
        create(&mut w, &actor, &svc, &request("7.50", Periodicity::Monthly), 41, T0),
        Err(BotError::Conflict("announcement id already in use".to_string()))
    );
    assert_eq!(w.lifecycle.len(), 1);
}

fn with_announcement() -> (World, User, Service, Announcement) {
    let mut w = world();
    let actor = user(1, UserRole::Announcer, Some(11));
    let svc = service(31, 1, Some(21));
    let a = create(&mut w, &actor, &svc, &request("7.50", Periodicity::Monthly), 41, T0).unwrap();
    (w, actor, svc, a)
}

#[test]
fn owner_toggles_between_available_and_waiting() {
    let (mut w, actor, svc, a) = with_announcement();
    let waiting = w.lifecycle.set_waiting(&mut w.ledger, 41, &actor, &svc, 0, T0 + 1).unwrap();
    assert_eq!(waiting, Announcement { status: ServiceStatus::WaitingMembers, version: 1, ..a });
    assert_eq!(w.lifecycle.find(41), Some(waiting));
    assert_eq!(w.ledger.len(), 2);
    let entry = w.ledger.get(1).unwrap();
    assert_eq!(entry.action_type, "announcement.waiting");
    assert_eq!(entry.entity_id, Some(41));
    assert_eq!(entry.sequence, 1);
    assert_eq!(entry.severity, LogSeverity::Info);

    let available = w.lifecycle.set_available(&mut w.ledger, 41, &actor, &svc, 1, T0 + 2).unwrap();
    assert_eq!(available, Announcement { version: 2, ..a });
    assert_eq!(w.ledger.len(), 3);
    assert_eq!(w.ledger.get(2).unwrap().action_type, "announcement.available");
    assert_eq!(w.ledger.get(2).unwrap().sequence, 2);
}

#[test]
fn toggle_to_the_present_state_changes_nothing() {
    let (mut w, actor, svc, a) = with_announcement();
    let same = w.lifecycle.set_available(&mut w.ledger, 41, &actor, &svc, 0, T0 + 1).unwrap();
    assert_eq!(same, a);
    assert_eq!(w.lifecycle.find(41), Some(a));
    assert_eq!(w.ledger.len(), 1);
}

#[test]
fn toggle_with_a_stale_version_is_a_conflict() {
    let (mut w, actor, svc, _) = with_announcement();
    w.lifecycle.set_waiting(&mut w.ledger, 41, &actor, &svc, 0, T0 + 1).unwrap();
    let stale = w.lifecycle.set_available(&mut w.ledger, 41, &actor, &svc, 0, T0 + 2);
    assert_eq!(
        stale,
        Err(BotError::Conflict("announcement changed since it was read".to_string()))
    );
    assert!(stale.unwrap_err().is_retryable());
    assert_eq!(w.lifecycle.find(41).unwrap().status, ServiceStatus::WaitingMembers);
    assert_eq!(w.ledger.len(), 2);
}

#[test]
fn toggle_is_for_the_owner_or_an_admin() {
    let (mut w, _, svc, a) = with_announcement();
    let stranger = user(2, UserRole::Announcer, None);
    let r = w.lifecycle.set_waiting(&mut w.ledger, 41, &stranger, &svc, 0, T0 + 1);
    assert_eq!(r, Err(BotError::Forbidden));
    assert_eq!(w.lifecycle.find(41), Some(a));
    assert_eq!(w.ledger.len(), 2);
    let entry = w.ledger.get(1).unwrap();
    assert_eq!(entry.action_type, "announcement.update.denied");
    assert_eq!(entry.severity, LogSeverity::Error);
    assert_eq!(entry.details.as_deref(), Some("not the owner"));
    assert_eq!(entry.entity_id, Some(41));

    let admin = user(3, UserRole::Admin, None);
    let changed = w.lifecycle.set_waiting(&mut w.ledger, 41, &admin, &svc, 0, T0 + 2).unwrap();
    assert_eq!(changed.status, ServiceStatus::WaitingMembers);
}

#[test]
fn toggle_of_what_is_not_there_fails() {
    let (mut w, actor, svc, _) = with_announcement();
    assert_eq!(
        w.lifecycle.set_waiting(&mut w.ledger, 42, &actor, &svc, 0, T0),
        Err(BotError::NotFound("announcement".to_string()))
    );
    assert_eq!(
        w.lifecycle.set_waiting(&mut w.ledger, 41, &actor, &service(32, 1, None), 0, T0),
        Err(validation("service does not match the announcement"))
    );
    assert_eq!(w.ledger.len(), 1);
}

#[test]
fn sweep_expires_what_is_due_exactly_once() {
    let (mut w, _, _, a) = with_announcement();
    let now = a.expiration_date + 1_000_000;
    assert_eq!(w.lifecycle.sweep_expirations(&mut w.ledger, now), 1);
    let expired = w.lifecycle.find(41).unwrap();
    assert_eq!(expired, Announcement { status: ServiceStatus::Expired, version: 1, ..a });
    assert_eq!(w.ledger.len(), 2);
    let entry = w.ledger.get(1).unwrap();
    assert_eq!(entry.action_type, "announcement.expired");
    assert_eq!(entry.entity_id, Some(41));
    assert_eq!(entry.user_id, None);
    assert_eq!(entry.severity, LogSeverity::Info);
    assert_eq!(entry.created_at, now);
    assert_eq!(entry.sequence, 1);

    assert_eq!(w.lifecycle.sweep_expirations(&mut w.ledger, now), 0);
    assert_eq!(w.lifecycle.find(41), Some(expired));
    assert_eq!(w.ledger.len(), 2);
}

#[test]
fn sweep_spares_what_is_not_due() {
    let (mut w, actor, svc, a) = with_announcement();
    let later = create(&mut w, &actor, &svc, &request("7.50", Periodicity::Annual), 42, T0).unwrap();
    assert_eq!(w.lifecycle.sweep_expirations(&mut w.ledger, a.expiration_date - 1), 0);
    assert_eq!(w.lifecycle.find(41), Some(a));
    assert_eq!(w.lifecycle.sweep_expirations(&mut w.ledger, a.expiration_date), 1);
    assert_eq!(w.lifecycle.find(41).unwrap().status, ServiceStatus::Expired);
    assert_eq!(w.lifecycle.find(42), Some(later));
    assert_eq!(w.lifecycle.sweep_expirations(&mut w.ledger, i64::MAX), 1);
    assert_eq!(w.lifecycle.find(42).unwrap().status, ServiceStatus::Expired);
    assert_eq!(w.lifecycle.sweep_expirations(&mut w.ledger, i64::MAX), 0);
    assert_eq!(w.ledger.len(), 4);
}

#[test]
fn sweep_expires_waiting_announcements_too() {
    let (mut w, actor, svc, a) = with_announcement();
    w.lifecycle.set_waiting(&mut w.ledger, 41, &actor, &svc, 0, T0 + 1).unwrap();
    assert_eq!(w.lifecycle.sweep_expirations(&mut w.ledger, a.expiration_date), 1);
    let expired = w.lifecycle.find(41).unwrap();
    assert_eq!(expired.status, ServiceStatus::Expired);
    assert_eq!(expired.version, 2);
}

#[test]
fn expired_announcement_never_changes_again() {
    let (mut w, actor, svc, a) = with_announcement();
    w.lifecycle.sweep_expirations(&mut w.ledger, a.expiration_date);
    let expired = w.lifecycle.find(41).unwrap();
    let admin = user(3, UserRole::SuperAdmin, None);
    for who in [&actor, &admin] {
        for version in [0, 1, 2] {
            assert_eq!(
                w.lifecycle.set_available(&mut w.ledger, 41, who, &svc, version, T0),
                Err(validation("terminal state"))
            );
            assert_eq!(
                w.lifecycle.set_waiting(&mut w.ledger, 41, who, &svc, version, T0),
                Err(validation("terminal state"))
            );
            assert_eq!(w.lifecycle.find(41), Some(expired));
        }
    }
    assert_eq!(w.ledger.len(), 2);
}

#[test]
fn due_announcements_are_listed_with_their_versions() {
    let (mut w, actor, svc, a) = with_announcement();
    create(&mut w, &actor, &svc, &request("7.50", Periodicity::Annual), 42, T0).unwrap();
    w.lifecycle.set_waiting(&mut w.ledger, 41, &actor, &svc, 0, T0 + 1).unwrap();
    assert_eq!(w.lifecycle.due_at(a.expiration_date - 1), vec![]);
    assert_eq!(w.lifecycle.due_at(a.expiration_date), vec![(41, 1)]);
    assert_eq!(w.lifecycle.due_at(i64::MAX), vec![(41, 1), (42, 0)]);
    w.lifecycle.sweep_expirations(&mut w.ledger, a.expiration_date);
    assert_eq!(w.lifecycle.due_at(i64::MAX), vec![(42, 0)]);
}

#[test]
fn single_expiration_compares_the_version_before_it_swaps() {
    let (mut w, actor, svc, a) = with_announcement();
    let due = a.expiration_date;
    assert_eq!(
        w.lifecycle.expire(&mut w.ledger, 99, 0, due),
        Err(BotError::NotFound("announcement".to_string()))
    );
    assert_eq!(w.lifecycle.expire(&mut w.ledger, 41, 0, due - 1), Err(validation("not yet due")));
    w.lifecycle.set_waiting(&mut w.ledger, 41, &actor, &svc, 0, T0 + 1).unwrap();
    assert_eq!(
        w.lifecycle.expire(&mut w.ledger, 41, 0, due),
        Err(BotError::Conflict("announcement changed since it was read".to_string()))
    );
    assert_eq!(w.lifecycle.find(41).unwrap().status, ServiceStatus::WaitingMembers);
    assert_eq!(w.ledger.len(), 2);

    let expired = w.lifecycle.expire(&mut w.ledger, 41, 1, due).unwrap();
    assert_eq!(
        expired,
        Announcement { status: ServiceStatus::Expired, version: 2, ..a }
    );
    assert_eq!(w.ledger.len(), 3);
    assert_eq!(w.ledger.get(2).unwrap().action_type, "announcement.expired");

    for version in [0, 1, 2, 3] {
        assert_eq!(w.lifecycle.expire(&mut w.ledger, 41, version, due), Ok(expired));
    }
    assert_eq!(w.lifecycle.find(41), Some(expired));
    assert_eq!(w.ledger.len(), 3);
}

#[test]
fn a_lifecycle_is_restored_from_announcements_that_agree() {
    let (mut w, actor, svc, a) = with_announcement();
    let b = create(&mut w, &actor, &svc, &request("7.50", Periodicity::Annual), 42, T0).unwrap();
    let waiting = w.lifecycle.set_waiting(&mut w.ledger, 41, &actor, &svc, 0, T0 + 1).unwrap();
    let mut restored = AnnouncementLifecycle::restore(vec![waiting, b]).unwrap();
    assert_eq!(restored.len(), 2);
    assert_eq!(restored.find(41), Some(waiting));
    assert_eq!(restored.sweep_expirations(&mut w.ledger, a.expiration_date), 1);

    let refused = BotError::ValidationError("announcements contradict each other".to_string());
    assert_eq!(AnnouncementLifecycle::restore(vec![a, a]).err(), Some(refused.clone()));
    let shifted = Announcement { expiration_date: a.expiration_date + 1, ..a };
    assert_eq!(AnnouncementLifecycle::restore(vec![shifted]).err(), Some(refused.clone()));
    let overflowing = Announcement { created_at: i64::MAX, expiration_date: i64::MAX, ..a };
    assert_eq!(AnnouncementLifecycle::restore(vec![overflowing]).err(), Some(refused));
    assert!(AnnouncementLifecycle::restore(Vec::new()).is_ok());
}

#[test]
fn a_service_is_held_while_an_announcement_of_it_lives() {
    let (mut w, _, _, a) = with_announcement();
    assert!(w.lifecycle.holds_service(31));
    assert!(!w.lifecycle.holds_service(32));
    w.lifecycle.sweep_expirations(&mut w.ledger, a.expiration_date);
    assert!(!w.lifecycle.holds_service(31));
}

#[test]
fn a_listed_sweep_meets_changes_and_passes_over_what_it_cannot_expire() {
    let (mut w, actor, svc, a) = with_announcement();
    let _later = create(&mut w, &actor, &svc, &request("7.50", Periodicity::Annual), 42, T0).unwrap();
    let now = a.expiration_date;
    let targets = w.lifecycle.due_at(now);
    assert_eq!(targets, vec![(41, 0)]);
    // The announcement changes between the listing and the sweep.
    w.lifecycle.set_waiting(&mut w.ledger, 41, &actor, &svc, 0, T0 + 1).unwrap();
    let entries_before = w.ledger.len();
    let listed = vec![(41, 0), (42, 0), (99, 0), (41, 0)];
    let report = w.lifecycle.sweep_listed(&mut w.ledger, &listed, now);
    assert_eq!(report, SweepReport { expired: 1, skipped: 2 });
    let expired = w.lifecycle.find(41).unwrap();
    assert_eq!(expired.status, ServiceStatus::Expired);
    assert_eq!(expired.version, 2);
    assert_eq!(w.lifecycle.find(42).unwrap().status, ServiceStatus::Available);
    assert_eq!(w.ledger.len(), entries_before + 3);
    let e0 = w.ledger.get(entries_before).unwrap();
    assert_eq!(e0.action_type, "announcement.expired");
    assert_eq!(e0.severity, LogSeverity::Info);
    assert_eq!(e0.entity_id, Some(41));
    let e1 = w.ledger.get(entries_before + 1).unwrap();
    assert_eq!(e1.action_type, "announcement.sweep.skipped");
    assert_eq!(e1.severity, LogSeverity::Warning);
    assert_eq!(e1.entity_id, Some(42));
    assert_eq!(e1.details.as_deref(), Some("not yet due"));
    let e2 = w.ledger.get(entries_before + 2).unwrap();
    assert_eq!(e2.severity, LogSeverity::Warning);
    assert_eq!(e2.entity_id, Some(99));
    assert_eq!(e2.details.as_deref(), Some("announcement"));

    let again = w.lifecycle.sweep_listed(&mut w.ledger, &vec![(41, 0)], now);
    assert_eq!(again, SweepReport { expired: 0, skipped: 0 });
    assert_eq!(w.ledger.len(), entries_before + 3);
}

#[test]
fn a_listed_sweep_of_what_is_due_does_what_a_sweep_does() {
    let (mut w, actor, svc, a) = with_announcement();
    create(&mut w, &actor, &svc, &request("7.50", Periodicity::Annual), 42, T0).unwrap();
    create(&mut w, &actor, &svc, &request("8.50", Periodicity::Monthly), 43, T0).unwrap();
    let mut other = AnnouncementLifecycle::restore(vec![
        w.lifecycle.find(41).unwrap(),
        w.lifecycle.find(42).unwrap(),
        w.lifecycle.find(43).unwrap(),
    ])
    .unwrap();
    let mut other_ledger = AuditLedger::new();
    let now = a.expiration_date + 5;
    let targets = other.due_at(now);
    let report = other.sweep_listed(&mut other_ledger, &targets, now);
    assert_eq!(report, SweepReport { expired: 2, skipped: 0 });
    let before = w.ledger.len();
    assert_eq!(w.lifecycle.sweep_expirations(&mut w.ledger, now), 2);
    for id in [41, 42, 43] {
        assert_eq!(other.find(id), w.lifecycle.find(id));
    }
    assert_eq!(other_ledger.len(), w.ledger.len() - before);
}
