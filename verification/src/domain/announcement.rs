//! The announcement lifecycle: creation, the manual toggle between
//! `Available` and `WaitingMembers`, and expiration, from which nothing
//! leads back.

use crate::domain::audit::{
    event_about, gained, gained_all, numbered, AuditEvent, AuditLedger, EventView,
};
use crate::domain::authorization::{authorize, decide, denial_event, Action, Decision};
use crate::domain::catalog::{has_entry, index_of_entry, normalize, normalized, CatalogManager};
use crate::domain::accounts::{backed, is_backed};
use crate::domain::models::{
    Announcement, AnnouncementCreateRequest, AuditLog, FaceVerificationView, LogSeverity,
    Service, ServiceStatus, ServiceSuggestionView, User, UserRole,
};
use crate::domain::price::{price_value, Price};
use crate::domain::retry::{after_sweep_attempt, SweepStep};
use crate::domain::verification::VerificationPipeline;
use crate::error::{BotError, ErrorKind};
use vstd::prelude::*;
use vstd::string::*;

verus! {

/// Where a new announcement is shown, and the identifier it gets.
#[derive(Debug, Clone, Copy, PartialEq, Eq, Structural)]
pub struct Placement {
    /// The identifier of the new announcement.
    pub id: u128,
    /// The message that shows the announcement in the channel.
    pub telegram_message_id: i64,
    pub channel_id: i64,
}

/// Whether some announcement of `announcements` has the identifier `id`.
pub open spec fn has_announcement(announcements: Seq<Announcement>, id: u128) -> bool {
    exists|i: int| 0 <= i < announcements.len() && (#[trigger] announcements[i]).id == id
}

/// The position of the announcement with the identifier `id`.
pub open spec fn index_of_announcement(announcements: Seq<Announcement>, id: u128) -> int {
    choose|i: int| 0 <= i < announcements.len() && (#[trigger] announcements[i]).id == id
}

/// Whether `announcements` is a state that the lifecycle can be in: no
/// identifier occurs twice, and every announcement expires as long after
/// its creation as its periodicity says.
pub open spec fn well_formed(announcements: Seq<Announcement>) -> bool {
    &&& forall|i: int|
        0 <= i < announcements.len() ==> (#[trigger] announcements[i]).expiration_date
            == announcements[i].created_at + announcements[i].periodicity.offset()
    &&& forall|i: int, j: int|
        #![trigger announcements[i], announcements[j]]
        0 <= i < j < announcements.len() ==> announcements[i].id != announcements[j].id
}

/// The version that follows `version`. The greatest version is followed by itself.
pub open spec fn next_version(version: u64) -> u64 {
    if version < u64::MAX {
        (version + 1) as u64
    } else {
        version
    }
}

/// Whether the account `actor` relies on a face verification of its own
/// that has succeeded.
pub open spec fn verified(verifications: Seq<FaceVerificationView>, actor: User) -> bool {
    actor.face_verification_id is Some && backed(verifications, actor)
}

/// The price that a request states, where `price_value` finds one that fits
/// into 64 bits.
pub open spec fn requested_price(request: AnnouncementCreateRequest) -> Option<Price> {
    match price_value(request.price_per_slot@) {
        Some(v) => if v <= u64::MAX {
            Some(Price { hundredths: v as u64 })
        } else {
            None
        },
        None => None,
    }
}

/// Why an announcement cannot be created, if anything stands against it.
///
/// In this order: the actor may not create announcements for the service
/// (`Forbidden`); the actor is an `Announcer` without a face verification
/// that succeeded; the request asks for another initial state than
/// `Available`; the request names another service; the request states no
/// price; the service is tied to a catalog entry that is missing, that has
/// another category, or whose bounds the price breaks; the expiration date
/// cannot be represented; the identifier is taken.
pub open spec fn creation_refusal(
    announcements: Seq<Announcement>,
    verifications: Seq<FaceVerificationView>,
    catalog: Seq<ServiceSuggestionView>,
    actor: User,
    service: Service,
    request: AnnouncementCreateRequest,
    id: u128,
    now: i64,
) -> Option<(ErrorKind, Seq<char>)> {
    if decide(
        actor.role,
        actor.status,
        Action::CreateAnnouncement,
        Some(service.owner_id),
        actor.id,
    ) is Deny {
        Some((ErrorKind::Forbidden, Seq::empty()))
    } else if actor.role == UserRole::Announcer && !verified(verifications, actor) {
        Some((ErrorKind::Validation, "verification required"@))
    } else if request.status != ServiceStatus::Available {
        Some((ErrorKind::Validation, "initial status must be available"@))
    } else if normalized(request.service_name@) != normalized(service.service_name@) {
        Some((ErrorKind::Validation, "service name does not match the service"@))
    } else if requested_price(request) is None {
        Some((ErrorKind::Validation, "invalid price"@))
    } else if service.service_suggestion_id is Some && !has_entry(
        catalog,
        service.service_suggestion_id->0,
    ) {
        Some((ErrorKind::NotFound, "service suggestion"@))
    } else if service.service_suggestion_id is Some && catalog[index_of_entry(
        catalog,
        service.service_suggestion_id->0,
    )].category != service.category {
        Some((ErrorKind::Validation, "category differs from the catalog entry"@))
    } else if service.service_suggestion_id is Some && !requested_price(request)->0.between(
        catalog[index_of_entry(catalog, service.service_suggestion_id->0)].reference_price_per_slot,
        catalog[index_of_entry(catalog, service.service_suggestion_id->0)].max_price_per_slot,
    ) {
        Some((ErrorKind::Validation, "price outside the allowed range"@))
    } else if now + request.periodicity.offset() > i64::MAX {
        Some((ErrorKind::Validation, "expiration out of range"@))
    } else if has_announcement(announcements, id) {
        Some((ErrorKind::Conflict, "announcement id already in use"@))
    } else {
        None
    }
}

/// The announcement that a request creates.
pub open spec fn created(
    service: Service,
    request: AnnouncementCreateRequest,
    placement: Placement,
    now: i64,
) -> Announcement {
    Announcement {
        id: placement.id,
        service_id: service.id,
        telegram_message_id: placement.telegram_message_id,
        channel_id: placement.channel_id,
        price_per_slot: requested_price(request)->0,
        periodicity: request.periodicity,
        access_type: request.access_type,
        status: ServiceStatus::Available,
        expiration_date: (now + request.periodicity.offset()) as i64,
        created_at: now,
        version: 0,
    }
}

/// Why an announcement cannot be toggled, if anything stands against it.
///
/// In this order: no announcement has the identifier; `service` is not the
/// service of the announcement; the actor may not edit announcements of the
/// service (`Forbidden`); the announcement has expired; the announcement is
/// at another version than the one the actor read.
pub open spec fn toggle_refusal(
    announcements: Seq<Announcement>,
    id: u128,
    actor: User,
    service: Service,
    expected_version: u64,
) -> Option<(ErrorKind, Seq<char>)> {
    if !has_announcement(announcements, id) {
        Some((ErrorKind::NotFound, "announcement"@))
    } else if announcements[index_of_announcement(announcements, id)].service_id != service.id {
        Some((ErrorKind::Validation, "service does not match the announcement"@))
    } else if decide(
        actor.role,
        actor.status,
        Action::EditAnnouncement,
        Some(service.owner_id),
        actor.id,
    ) is Deny {
        Some((ErrorKind::Forbidden, Seq::empty()))
    } else if announcements[index_of_announcement(announcements, id)].status
        == ServiceStatus::Expired {
        Some((ErrorKind::Validation, "terminal state"@))
    } else if announcements[index_of_announcement(announcements, id)].version
        != expected_version {
        Some((ErrorKind::Conflict, "announcement changed since it was read"@))
    } else {
        None
    }
}

/// The announcement `a` brought to the state `target`: as it is where it is
/// in that state already, and at its next version otherwise.
pub open spec fn toggled(a: Announcement, target: ServiceStatus) -> Announcement {
    if a.status == target {
        a
    } else {
        Announcement { status: target, version: next_version(a.version), ..a }
    }
}

/// The name under which a toggle to `target` is recorded.
pub open spec fn toggle_action(target: ServiceStatus) -> Seq<char> {
    if target == ServiceStatus::WaitingMembers {
        "announcement.waiting"@
    } else {
        "announcement.available"@
    }
}

/// What a toggle of the announcement `id` to `target` does.
///
/// Where `toggle_refusal` names a reason, the toggle fails with it and no
/// announcement changes; the ledger gains an `Error` entry where the reason
/// is `Forbidden` and nothing otherwise. Where it names none, the
/// announcement becomes `toggled` and is returned, and the ledger gains one
/// `Info` entry if the state changed and nothing if it did not.
pub open spec fn toggle_outcome(
    before: Seq<Announcement>,
    after: Seq<Announcement>,
    ledger_before: Seq<AuditLog>,
    ledger_after: Seq<AuditLog>,
    r: Result<Announcement, BotError>,
    id: u128,
    actor: User,
    service: Service,
    expected_version: u64,
    target: ServiceStatus,
    now: i64,
) -> bool {
    match toggle_refusal(before, id, actor, service, expected_version) {
        Some(why) => {
            &&& r is Err
            &&& r->Err_0.is(why.0, why.1)
            &&& after == before
            &&& if why.0 == ErrorKind::Forbidden {
                gained(
                    ledger_before,
                    ledger_after,
                    denial_event(
                        actor,
                        "announcement.update.denied"@,
                        "announcement"@,
                        id,
                        decide(
                            actor.role,
                            actor.status,
                            Action::EditAnnouncement,
                            Some(service.owner_id),
                            actor.id,
                        ),
                        now,
                    ),
                )
            } else {
                ledger_after == ledger_before
            }
        },
        None => {
            let i = index_of_announcement(before, id);
            &&& r == Ok::<Announcement, BotError>(toggled(before[i], target))
            &&& after == before.update(i, toggled(before[i], target))
            &&& if before[i].status == target {
                ledger_after == ledger_before
            } else {
                gained(
                    ledger_before,
                    ledger_after,
                    event_about(
                        Some(actor.id),
                        toggle_action(target),
                        "announcement"@,
                        id,
                        None,
                        LogSeverity::Info,
                        now,
                    ),
                )
            }
        },
    }
}

/// Whether the announcement `a` is to expire at the instant `now`: it has
/// not expired yet, and its expiration date has come.
pub open spec fn due(a: Announcement, now: i64) -> bool {
    a.status != ServiceStatus::Expired && a.expiration_date <= now
}

/// The announcement `a` after its expiration.
pub open spec fn expired(a: Announcement) -> Announcement {
    Announcement { status: ServiceStatus::Expired, version: next_version(a.version), ..a }
}

/// The announcements after a sweep at the instant `now`: those that were
/// due have expired, the others are as they were.
pub open spec fn swept(announcements: Seq<Announcement>, now: i64) -> Seq<Announcement> {
    announcements.map_values(
        |a: Announcement|
            if due(a, now) {
                expired(a)
            } else {
                a
            },
    )
}

/// The audit event of the expiration of the announcement `a`.
pub open spec fn expiry_event(a: Announcement, now: i64) -> EventView {
    event_about(
        None,
        "announcement.expired"@,
        "announcement"@,
        a.id,
        None,
        LogSeverity::Info,
        now,
    )
}

/// The audit events of a sweep at the instant `now`: one for each
/// announcement that is due, in the order of the announcements.
pub open spec fn expiry_events(announcements: Seq<Announcement>, now: i64) -> Seq<EventView> {
    announcements.filter(|a: Announcement| due(a, now)).map_values(
        |a: Announcement| expiry_event(a, now),
    )
}

/// Why a single announcement cannot be expired, if anything stands against
/// it, for a caller that read it at `expected_version`.
///
/// In this order: no announcement has the identifier; the announcement has
/// not expired yet and is at another version than the one read; it has not
/// expired yet and is not due. Nothing stands against an announcement that
/// has expired before: it is left as it is.
pub open spec fn expiry_refusal(
    announcements: Seq<Announcement>,
    id: u128,
    expected_version: u64,
    now: i64,
) -> Option<(ErrorKind, Seq<char>)> {
    if !has_announcement(announcements, id) {
        Some((ErrorKind::NotFound, "announcement"@))
    } else if announcements[index_of_announcement(announcements, id)].status
        == ServiceStatus::Expired {
        None
    } else if announcements[index_of_announcement(announcements, id)].version
        != expected_version {
        Some((ErrorKind::Conflict, "announcement changed since it was read"@))
    } else if announcements[index_of_announcement(announcements, id)].expiration_date > now {
        Some((ErrorKind::Validation, "not yet due"@))
    } else {
        None
    }
}

/// What a sweep has to know of an announcement that is due: its
/// identifier and the version at which it was found.
pub open spec fn due_targets(announcements: Seq<Announcement>, now: i64) -> Seq<(u128, u64)> {
    announcements.filter(|a: Announcement| due(a, now)).map_values(
        |a: Announcement| (a.id, a.version),
    )
}

/// The audit event of an announcement that a sweep passed over, and why.
pub open spec fn skip_event(id: u128, why: Seq<char>, now: i64) -> EventView {
    event_about(
        None,
        "announcement.sweep.skipped"@,
        "announcement"@,
        id,
        Some(why),
        LogSeverity::Warning,
        now,
    )
}

/// What a sweep over a list does with the announcement `id`: the
/// announcements after it, and the event it records, if it records one.
///
/// An announcement that is due expires (`Info`). One that has expired
/// before is left as it is, and nothing is recorded. One that is missing,
/// or not yet due, is passed over (`Warning`).
pub open spec fn listed_step(announcements: Seq<Announcement>, id: u128, now: i64) -> (
    Seq<Announcement>,
    Option<EventView>,
) {
    if !has_announcement(announcements, id) {
        (announcements, Some(skip_event(id, "announcement"@, now)))
    } else {
        let i = index_of_announcement(announcements, id);
        let a = announcements[i];
        if a.status == ServiceStatus::Expired {
            (announcements, None)
        } else if a.expiration_date > now {
            (announcements, Some(skip_event(id, "not yet due"@, now)))
        } else {
            (announcements.update(i, expired(a)), Some(expiry_event(a, now)))
        }
    }
}

/// What a sweep over the list `ids` does, one announcement after the other:
/// the announcements after it, and the events it records, in their order.
pub open spec fn listed(announcements: Seq<Announcement>, ids: Seq<u128>, now: i64) -> (
    Seq<Announcement>,
    Seq<EventView>,
)
    decreases ids.len(),
{
    if ids.len() == 0 {
        (announcements, Seq::empty())
    } else {
        let before = listed(announcements, ids.drop_last(), now);
        let step = listed_step(before.0, ids.last(), now);
        (
            step.0,
            match step.1 {
                Some(event) => before.1.push(event),
                None => before.1,
            },
        )
    }
}

/// How a sweep over a list ended.
#[derive(Debug, Clone, Copy, PartialEq, Eq, Structural)]
pub struct SweepReport {
    /// The number of announcements that expired.
    pub expired: usize,
    /// The number of announcements that were passed over.
    pub skipped: usize,
}

/// The announcements of all services.
pub struct AnnouncementLifecycle {
    announcements: Vec<Announcement>,
}

impl View for AnnouncementLifecycle {
    type V = Seq<Announcement>;

    /// The announcements in the order of their creation.
    closed spec fn view(&self) -> Seq<Announcement> {
        self.announcements@
    }
}

impl AnnouncementLifecycle {
    /// Whether the lifecycle is in a state that its operations can have led to.
    pub open spec fn wf(&self) -> bool {
        well_formed(self@)
    }

    /// A lifecycle without announcements.
    pub fn new() -> (r: Self)
        ensures
            r@ == Seq::<Announcement>::empty(),
            r.wf(),
    {
        AnnouncementLifecycle { announcements: Vec::new() }
    }

    /// The lifecycle that holds `announcements`, where they make a state
    /// that the lifecycle can be in; a validation error where they do not.
    pub fn restore(announcements: Vec<Announcement>) -> (r: Result<Self, BotError>)
        ensures
            match r {
                Ok(lifecycle) => lifecycle.wf() && lifecycle@ == announcements@,
                Err(e) => {
                    &&& !well_formed(announcements@)
                    &&& e.is(ErrorKind::Validation, "announcements contradict each other"@)
                },
            },
    {
        let mut j: usize = 0;
        while j < announcements.len()
            invariant
                j <= announcements@.len(),
                forall|k: int|
                    0 <= k < j ==> (#[trigger] announcements@[k]).expiration_date
                        == announcements@[k].created_at + announcements@[k].periodicity.offset(),
                forall|a: int, b: int|
                    #![trigger announcements@[a], announcements@[b]]
                    0 <= a < b < j ==> announcements@[a].id != announcements@[b].id,
            decreases announcements@.len() - j,
        {
            let current = announcements[j];
            let offset = current.periodicity.offset_micros();
            if current.created_at > i64::MAX - offset || current.expiration_date
                != current.created_at + offset {
                return Err(
                    BotError::ValidationError(
                        String::from_str("announcements contradict each other"),
                    ),
                );
            }
            let mut i: usize = 0;
            while i < j
                invariant
                    i <= j < announcements@.len(),
                    current == announcements@[j as int],
                    forall|a: int|
                        0 <= a < i ==> (#[trigger] announcements@[a]).id
                            != announcements@[j as int].id,
                decreases j - i,
            {
                if announcements[i].id == current.id {
                    return Err(
                        BotError::ValidationError(
                            String::from_str("announcements contradict each other"),
                        ),
                    );
                }
                i = i + 1;
            }
            j = j + 1;
        }
        Ok(AnnouncementLifecycle { announcements })
    }

    /// Whether an announcement of the service `service_id` has not expired
    /// yet. While one has not, the service is not to be removed.
    pub fn holds_service(&self, service_id: u128) -> (r: bool)
        ensures
            r == (exists|i: int|
                0 <= i < self@.len() && (#[trigger] self@[i]).service_id == service_id
                    && self@[i].status != ServiceStatus::Expired),
    {
        let mut i: usize = 0;
        while i < self.announcements.len()
            invariant
                i <= self.announcements@.len(),
                forall|k: int|
                    0 <= k < i ==> !((#[trigger] self@[k]).service_id == service_id
                        && self@[k].status != ServiceStatus::Expired),
            decreases self.announcements@.len() - i,
        {
            let a = self.announcements[i];
            if a.service_id == service_id && a.status != ServiceStatus::Expired {
                return true;
            }
            i = i + 1;
        }
        false
    }

    /// The number of announcements.
    pub fn len(&self) -> (r: usize)
        ensures
            r == self@.len(),
    {
        self.announcements.len()
    }

    fn position(&self, id: u128) -> (r: Option<usize>)
        ensures
            match r {
                Some(i) => i < self@.len() && self@[i as int].id == id,
                None => !has_announcement(self@, id),
            },
    {
        let mut i: usize = 0;
        while i < self.announcements.len()
            invariant
                i <= self.announcements@.len(),
                forall|k: int| 0 <= k < i ==> (#[trigger] self@[k]).id != id,
            decreases self.announcements@.len() - i,
        {
            if self.announcements[i].id == id {
                return Some(i);
            }
            i = i + 1;
        }
        None
    }

    /// The announcement with the identifier `id`, if there is one.
    pub fn find(&self, id: u128) -> (r: Option<Announcement>)
        requires
            self.wf(),
        ensures
            match r {
                Some(a) => has_announcement(self@, id) && a == self@[index_of_announcement(
                    self@,
                    id,
                )] && a.id == id,
                None => !has_announcement(self@, id),
            },
    {
        match self.position(id) {
            Some(i) => {
                proof {
                    lemma_index_of_announcement(self@, id, i as int);
                }
                Some(self.announcements[i])
            },
            None => None,
        }
    }

    /// Publishes an announcement for `service` as `request` asks, on behalf
    /// of `actor`, and returns it.
    ///
    /// The announcement starts `Available`, at version 0, and expires as
    /// long after `now` as its periodicity says. The ledger gains one `Info`
    /// entry. Fails as `creation_refusal` says; then no announcement is
    /// created, and the ledger gains an `Error` entry where the failure is
    /// `Forbidden` and nothing otherwise.
    pub fn create(
        &mut self,
        ledger: &mut AuditLedger,
        verifications: &VerificationPipeline,
        catalog: &CatalogManager,
        actor: &User,
        service: &Service,
        request: &AnnouncementCreateRequest,
        placement: Placement,
        now: i64,
    ) -> (r: Result<Announcement, BotError>)
        requires
            old(self).wf(),
            old(ledger).wf(),
            verifications.wf(),
            catalog.wf(),
        ensures
            final(self).wf(),
            final(ledger).wf(),
            match r {
                Ok(a) => {
                    &&& creation_refusal(
                        old(self)@,
                        verifications@,
                        catalog@,
                        *actor,
                        *service,
                        *request,
                        placement.id,
                        now,
                    ) is None
                    &&& a == created(*service, *request, placement, now)
                    &&& final(self)@ == old(self)@.push(a)
                    &&& gained(
                        old(ledger)@,
                        final(ledger)@,
                        event_about(
                            Some(actor.id),
                            "announcement.created"@,
                            "announcement"@,
                            placement.id,
                            None,
                            LogSeverity::Info,
                            now,
                        ),
                    )
                },
                Err(e) => {
                    &&& creation_refusal(
                        old(self)@,
                        verifications@,
                        catalog@,
                        *actor,
                        *service,
                        *request,
                        placement.id,
                        now,
                    ) matches Some(why)
                    &&& e.is(why.0, why.1)
                    &&& final(self)@ == old(self)@
                    &&& if why.0 == ErrorKind::Forbidden {
                        gained(
                            old(ledger)@,
                            final(ledger)@,
                            denial_event(
                                *actor,
                                "announcement.create.denied"@,
                                "service"@,
                                service.id,
                                decide(
                                    actor.role,
                                    actor.status,
                                    Action::CreateAnnouncement,
                                    Some(service.owner_id),
                                    actor.id,
                                ),
                                now,
                            ),
                        )
                    } else {
                        final(ledger)@ == old(ledger)@
                    }
                },
            },
    {
        let decision = authorize(
            actor.role,
            actor.status,
            Action::CreateAnnouncement,
            Some(service.owner_id),
            actor.id,
        );
        if let Decision::Deny(reason) = decision {
            ledger.append(
                AuditEvent::about(
                    Some(actor.id),
                    "announcement.create.denied",
                    "service",
                    service.id,
                    Some(reason.message()),
                    LogSeverity::Error,
                    now,
                ),
            );
            return Err(BotError::Forbidden);
        }
        if actor.role == UserRole::Announcer && !(actor.face_verification_id.is_some()
            && is_backed(verifications, actor)) {
            return Err(BotError::ValidationError(String::from_str("verification required")));
        }
        if request.status != ServiceStatus::Available {
            return Err(
                BotError::ValidationError(String::from_str("initial status must be available")),
            );
        }
        if normalize(request.service_name.as_str()) != normalize(service.service_name.as_str()) {
            return Err(
                BotError::ValidationError(
                    String::from_str("service name does not match the service"),
                ),
            );
        }
        let price = match Price::parse(request.price_per_slot.as_str()) {
            Some(p) => p,
            None => {
                return Err(BotError::ValidationError(String::from_str("invalid price")));
            },
        };
        if let Some(sid) = service.service_suggestion_id {
            let suggestion = match catalog.find(sid) {
                Some(s) => s,
                None => {
                    return Err(BotError::NotFound(String::from_str("service suggestion")));
                },
            };
            if suggestion.category != service.category {
                return Err(
                    BotError::ValidationError(
                        String::from_str("category differs from the catalog entry"),
                    ),
                );
            }
            if !price.is_between(
                suggestion.reference_price_per_slot,
                suggestion.max_price_per_slot,
            ) {
                return Err(
                    BotError::ValidationError(String::from_str("price outside the allowed range")),
                );
            }
        }
        let offset = request.periodicity.offset_micros();
        if now > i64::MAX - offset {
            return Err(BotError::ValidationError(String::from_str("expiration out of range")));
        }
        if self.position(placement.id).is_some() {
            return Err(BotError::Conflict(String::from_str("announcement id already in use")));
        }
        let a = Announcement {
            id: placement.id,
            service_id: service.id,
            telegram_message_id: placement.telegram_message_id,
            channel_id: placement.channel_id,
            price_per_slot: price,
            periodicity: request.periodicity,
            access_type: request.access_type,
            status: ServiceStatus::Available,
            expiration_date: now + offset,
            created_at: now,
            version: 0,
        };
        self.announcements.push(a);
        ledger.append(
            AuditEvent::about(
                Some(actor.id),
                "announcement.created",
                "announcement",
                placement.id,
                None,
                LogSeverity::Info,
                now,
            ),
        );
        Ok(a)
    }

    fn toggle(
        &mut self,
        ledger: &mut AuditLedger,
        id: u128,
        actor: &User,
        service: &Service,
        expected_version: u64,
        target: ServiceStatus,
        now: i64,
    ) -> (r: Result<Announcement, BotError>)
        requires
            old(self).wf(),
            old(ledger).wf(),
            target != ServiceStatus::Expired,
        ensures
            final(self).wf(),
            final(ledger).wf(),
            toggle_outcome(
                old(self)@,
                final(self)@,
                old(ledger)@,
                final(ledger)@,
                r,
                id,
                *actor,
                *service,
                expected_version,
                target,
                now,
            ),
    {
        let i = match self.position(id) {
            Some(i) => i,
            None => {
                return Err(BotError::NotFound(String::from_str("announcement")));
            },
        };
        proof {
            lemma_index_of_announcement(self@, id, i as int);
        }
        let current = self.announcements[i];
        if current.service_id != service.id {
            return Err(
                BotError::ValidationError(
                    String::from_str("service does not match the announcement"),
                ),
            );
        }
        let decision = authorize(
            actor.role,
            actor.status,
            Action::EditAnnouncement,
            Some(service.owner_id),
            actor.id,
        );
        if let Decision::Deny(reason) = decision {
            ledger.append(
                AuditEvent::about(
                    Some(actor.id),
                    "announcement.update.denied",
                    "announcement",
                    id,
                    Some(reason.message()),
                    LogSeverity::Error,
                    now,
                ),
            );
            return Err(BotError::Forbidden);
        }
        if current.status == ServiceStatus::Expired {
            return Err(BotError::ValidationError(String::from_str("terminal state")));
        }
        if current.version != expected_version {
            return Err(
                BotError::Conflict(String::from_str("announcement changed since it was read")),
            );
        }
        if current.status == target {
            assert(self@ == old(self)@.update(i as int, current));
            return Ok(current);
        }
        let changed = Announcement {
            id: current.id,
            service_id: current.service_id,
            telegram_message_id: current.telegram_message_id,
            channel_id: current.channel_id,
            price_per_slot: current.price_per_slot,
            periodicity: current.periodicity,
            access_type: current.access_type,
            status: target,
            expiration_date: current.expiration_date,
            created_at: current.created_at,
            version: if current.version < u64::MAX {
                current.version + 1
            } else {
                current.version
            },
        };
        self.announcements.set(i, changed);
        let action = match target {
            ServiceStatus::WaitingMembers => "announcement.waiting",
            _ => "announcement.available",
        };
        ledger.append(
            AuditEvent::about(
                Some(actor.id),
                action,
                "announcement",
                id,
                None,
                LogSeverity::Info,
                now,
            ),
        );
        Ok(changed)
    }

    /// Marks the announcement `announcement_id` as waiting for members, on
    /// behalf of `actor`, who read it at `expected_version`. `service` is the
    /// service of the announcement. See `toggle_outcome`.
    pub fn set_waiting(
        &mut self,
        ledger: &mut AuditLedger,
        announcement_id: u128,
        actor: &User,
        service: &Service,
        expected_version: u64,
        now: i64,
    ) -> (r: Result<Announcement, BotError>)
        requires
            old(self).wf(),
            old(ledger).wf(),
        ensures
            final(self).wf(),
            final(ledger).wf(),
            toggle_outcome(
                old(self)@,
                final(self)@,
                old(ledger)@,
                final(ledger)@,
                r,
                announcement_id,
                *actor,
                *service,
                expected_version,
                ServiceStatus::WaitingMembers,
                now,
            ),
    {
        self.toggle(
            ledger,
            announcement_id,
            actor,
            service,
            expected_version,
            ServiceStatus::WaitingMembers,
            now,
        )
    }

    /// Marks the announcement `announcement_id` as available, on behalf of
    /// `actor`, who read it at `expected_version`. `service` is the service
    /// of the announcement. See `toggle_outcome`.
    pub fn set_available(
        &mut self,
        ledger: &mut AuditLedger,
        announcement_id: u128,
        actor: &User,
        service: &Service,
        expected_version: u64,
        now: i64,
    ) -> (r: Result<Announcement, BotError>)
        requires
            old(self).wf(),
            old(ledger).wf(),
        ensures
            final(self).wf(),
            final(ledger).wf(),
            toggle_outcome(
                old(self)@,
                final(self)@,
                old(ledger)@,
                final(ledger)@,
                r,
                announcement_id,
                *actor,
                *service,
                expected_version,
                ServiceStatus::Available,
                now,
            ),
    {
        self.toggle(
            ledger,
            announcement_id,
            actor,
            service,
            expected_version,
            ServiceStatus::Available,
            now,
        )
    }

    /// The announcements that are due at the instant `now`, each with its
    /// identifier and its version, in the order of the announcements.
    pub fn due_at(&self, now: i64) -> (r: Vec<(u128, u64)>)
        ensures
            r@ == due_targets(self@, now),
    {
        let ghost is_due = |a: Announcement| due(a, now);
        let ghost target = |a: Announcement| (a.id, a.version);
        let mut out: Vec<(u128, u64)> = Vec::new();
        let mut i: usize = 0;
        proof {
            reveal(Seq::filter);
            assert(due_targets(self@.take(0), now) == out@);
        }
        while i < self.announcements.len()
            invariant
                i <= self.announcements@.len(),
                is_due == (|a: Announcement| due(a, now)),
                target == (|a: Announcement| (a.id, a.version)),
                out@ == due_targets(self@.take(i as int), now),
            decreases self.announcements@.len() - i,
        {
            let a = self.announcements[i];
            proof {
                let prefix = self@.take(i as int);
                assert(self@.take(i + 1) == prefix.push(a));
                prefix.lemma_filter_push(a, is_due);
                if due(a, now) {
                    assert(prefix.filter(is_due).push(a).map_values(target) == prefix.filter(
                        is_due,
                    ).map_values(target).push(target(a)));
                }
            }
            if a.status != ServiceStatus::Expired && a.expiration_date <= now {
                out.push((a.id, a.version));
            }
            i = i + 1;
        }
        proof {
            assert(self@.take(self@.len() as int) == self@);
        }
        out
    }

    /// Lets the announcement `id` expire, for a caller that found it due at
    /// `expected_version`, and returns it as it then stands.
    ///
    /// The announcement moves to `Expired` and to its next version, and the
    /// ledger gains one `Info` entry. An announcement that has expired
    /// before is returned as it is, and nothing is recorded: no expiration
    /// is applied twice. Fails, and changes nothing, as `expiry_refusal`
    /// says; a conflict tells the caller that the announcement was changed
    /// in the meantime.
    pub fn expire(
        &mut self,
        ledger: &mut AuditLedger,
        id: u128,
        expected_version: u64,
        now: i64,
    ) -> (r: Result<Announcement, BotError>)
        requires
            old(self).wf(),
            old(ledger).wf(),
        ensures
            final(self).wf(),
            final(ledger).wf(),
            match expiry_refusal(old(self)@, id, expected_version, now) {
                Some(why) => {
                    &&& r is Err
                    &&& r->Err_0.is(why.0, why.1)
                    &&& final(self)@ == old(self)@
                    &&& final(ledger)@ == old(ledger)@
                },
                None => {
                    let i = index_of_announcement(old(self)@, id);
                    let a = old(self)@[i];
                    if a.status == ServiceStatus::Expired {
                        &&& r == Ok::<Announcement, BotError>(a)
                        &&& final(self)@ == old(self)@
                        &&& final(ledger)@ == old(ledger)@
                    } else {
                        &&& r == Ok::<Announcement, BotError>(expired(a))
                        &&& final(self)@ == old(self)@.update(i, expired(a))
                        &&& gained(old(ledger)@, final(ledger)@, expiry_event(a, now))
                    }
                },
            },
    {
        let i = match self.position(id) {
            Some(i) => i,
            None => {
                return Err(BotError::NotFound(String::from_str("announcement")));
            },
        };
        proof {
            lemma_index_of_announcement(self@, id, i as int);
        }
        let current = self.announcements[i];
        if current.status == ServiceStatus::Expired {
            return Ok(current);
        }
        if current.version != expected_version {
            return Err(
                BotError::Conflict(String::from_str("announcement changed since it was read")),
            );
        }
        if current.expiration_date > now {
            return Err(BotError::ValidationError(String::from_str("not yet due")));
        }
        let after = Announcement {
            id: current.id,
            service_id: current.service_id,
            telegram_message_id: current.telegram_message_id,
            channel_id: current.channel_id,
            price_per_slot: current.price_per_slot,
            periodicity: current.periodicity,
            access_type: current.access_type,
            status: ServiceStatus::Expired,
            expiration_date: current.expiration_date,
            created_at: current.created_at,
            version: if current.version < u64::MAX {
                current.version + 1
            } else {
                current.version
            },
        };
        self.announcements.set(i, after);
        ledger.append(
            AuditEvent::about(
                None,
                "announcement.expired",
                "announcement",
                id,
                None,
                LogSeverity::Info,
                now,
            ),
        );
        Ok(after)
    }

    /// Lets the announcements expire that `targets` lists, each with the
    /// version at which it was found due, and reports how many expired and
    /// how many were passed over.
    ///
    /// Each announcement is expired as `expire` does it. Where it was
    /// changed since it was listed, the conflict is met by reading it again
    /// and trying once more. An announcement that cannot be expired then,
    /// because it is missing or not yet due, is passed over: the ledger
    /// gains a `Warning` entry with the reason, and the sweep goes on with
    /// the next. See `listed`.
    pub fn sweep_listed(
        &mut self,
        ledger: &mut AuditLedger,
        targets: &Vec<(u128, u64)>,
        now: i64,
    ) -> (r: SweepReport)
        requires
            old(self).wf(),
            old(ledger).wf(),
        ensures
            final(self).wf(),
            final(ledger).wf(),
            final(self)@ == listed(old(self)@, targets@.map_values(|t: (u128, u64)| t.0), now).0,
            gained_all(
                old(ledger)@,
                final(ledger)@,
                listed(old(self)@, targets@.map_values(|t: (u128, u64)| t.0), now).1,
            ),
            r.skipped == listed(
                old(self)@,
                targets@.map_values(|t: (u128, u64)| t.0),
                now,
            ).1.filter(|e: EventView| e.severity == LogSeverity::Warning).len(),
            r.expired + r.skipped == listed(
                old(self)@,
                targets@.map_values(|t: (u128, u64)| t.0),
                now,
            ).1.len(),
    {
        let ghost skips = |e: EventView| e.severity == LogSeverity::Warning;
        let ghost start = self@;
        let ghost ledger_start = ledger@;
        let ghost ids = targets@.map_values(|t: (u128, u64)| t.0);
        let mut report = SweepReport { expired: 0, skipped: 0 };
        let mut k: usize = 0;
        proof {
            reveal(Seq::filter);
            assert(ledger@.take(ledger_start.len() as int) == ledger_start);
            assert(listed(start, ids.take(0), now).1.filter(skips) == Seq::<EventView>::empty());
        }
        while k < targets.len()
            invariant
                k <= targets@.len(),
                ids == targets@.map_values(|t: (u128, u64)| t.0),
                skips == (|e: EventView| e.severity == LogSeverity::Warning),
                report.skipped == listed(start, ids.take(k as int), now).1.filter(skips).len(),
                self.wf(),
                ledger.wf(),
                numbered(ledger_start),
                self@ == listed(start, ids.take(k as int), now).0,
                gained_all(ledger_start, ledger@, listed(start, ids.take(k as int), now).1),
                report.expired + report.skipped == listed(start, ids.take(k as int), now).1.len(),
                report.expired + report.skipped <= k,
            decreases targets@.len() - k,
        {
            let id = targets[k].0;
            let ghost before = self@;
            let ghost events = listed(start, ids.take(k as int), now).1;
            let ghost ledger_before = ledger@;
            proof {
                assert(ids.take(k + 1).drop_last() == ids.take(k as int));
                assert(ids.take(k + 1).last() == id);
            }
            let was_expired = match self.find(id) {
                Some(a) => a.status == ServiceStatus::Expired,
                None => false,
            };
            let first = self.expire(ledger, id, targets[k].1, now);
            let outcome = match first {
                Err(e) => match after_sweep_attempt(Some(e.kind()), 1) {
                    SweepStep::Retry => match self.find(id) {
                        Some(fresh) => self.expire(ledger, id, fresh.version, now),
                        None => Err(e),
                    },
                    _ => Err(e),
                },
                Ok(a) => Ok(a),
            };
            match outcome {
                Ok(_) => {
                    if !was_expired {
                        report.expired = report.expired + 1;
                    }
                },
                Err(e) => {
                    ledger.append(
                        AuditEvent::about(
                            None,
                            "announcement.sweep.skipped",
                            "announcement",
                            id,
                            Some(e.detail()),
                            LogSeverity::Warning,
                            now,
                        ),
                    );
                    report.skipped = report.skipped + 1;
                },
            }
            proof {
                let step = listed_step(before, id, now);
                if step.1 is Some {
                    let grown = events.push(step.1->0);
                    events.lemma_filter_push(step.1->0, skips);
                    assert(ledger@.take(ledger_start.len() as int) == ledger_start) by {
                        assert(ledger@.take(ledger_start.len() as int) == ledger_before.take(
                            ledger_start.len() as int,
                        ));
                    }
                    assert forall|j: int| 0 <= j < grown.len() implies (#[trigger] ledger@[
                        ledger_start.len() + j
                    ]).event() == grown[j] by {
                        if j < events.len() {
                            assert(ledger@[ledger_start.len() + j] == ledger_before[
                                ledger_start.len() + j
                            ]);
                        }
                    }
                } else {
                    assert(ledger@ == ledger_before);
                }
            }
            k = k + 1;
        }
        proof {
            assert(ids.take(targets@.len() as int) == ids);
        }
        report
    }

    /// Lets every announcement expire that is due at the instant `now`, and
    /// returns how many did.
    ///
    /// Each of them moves to `Expired` and to its next version, and the
    /// ledger gains one `Info` entry for it. Announcements that are not due,
    /// or have expired before, stay as they are: a second sweep at the same
    /// instant changes nothing.
    pub fn sweep_expirations(&mut self, ledger: &mut AuditLedger, now: i64) -> (r: usize)
        requires
            old(self).wf(),
            old(ledger).wf(),
        ensures
            final(self).wf(),
            final(ledger).wf(),
            final(self)@ == swept(old(self)@, now),
            gained_all(old(ledger)@, final(ledger)@, expiry_events(old(self)@, now)),
            r == expiry_events(old(self)@, now).len(),
    {
        let ghost start = self@;
        let ghost ledger_start = ledger@;
        let ghost is_due = |a: Announcement| due(a, now);
        let ghost to_event = |a: Announcement| expiry_event(a, now);
        let n = self.announcements.len();
        let mut count: usize = 0;
        let mut i: usize = 0;
        proof {
            reveal(Seq::filter);
            assert(ledger@.take(ledger_start.len() as int) == ledger_start);
        }
        while i < n
            invariant
                n == start.len(),
                self.announcements@.len() == n,
                i <= n,
                count <= i,
                ledger.wf(),
                is_due == (|a: Announcement| due(a, now)),
                to_event == (|a: Announcement| expiry_event(a, now)),
                forall|k: int|
                    0 <= k < i ==> (#[trigger] self.announcements@[k]) == (if due(start[k], now) {
                        expired(start[k])
                    } else {
                        start[k]
                    }),
                forall|k: int| i <= k < n ==> (#[trigger] self.announcements@[k]) == start[k],
                count == expiry_events(start.take(i as int), now).len(),
                gained_all(ledger_start, ledger@, expiry_events(start.take(i as int), now)),
            decreases n - i,
        {
            let current = self.announcements[i];
            let ghost prefix = start.take(i as int);
            let ghost events = expiry_events(prefix, now);
            proof {
                assert(start.take(i + 1) == prefix.push(current));
                prefix.lemma_filter_push(current, is_due);
            }
            if current.status != ServiceStatus::Expired && current.expiration_date <= now {
                let after = Announcement {
                    id: current.id,
                    service_id: current.service_id,
                    telegram_message_id: current.telegram_message_id,
                    channel_id: current.channel_id,
                    price_per_slot: current.price_per_slot,
                    periodicity: current.periodicity,
                    access_type: current.access_type,
                    status: ServiceStatus::Expired,
                    expiration_date: current.expiration_date,
                    created_at: current.created_at,
                    version: if current.version < u64::MAX {
                        current.version + 1
                    } else {
                        current.version
                    },
                };
                self.announcements.set(i, after);
                let ghost ledger_before = ledger@;
                ledger.append(
                    AuditEvent::about(
                        None,
                        "announcement.expired",
                        "announcement",
                        current.id,
                        None,
                        LogSeverity::Info,
                        now,
                    ),
                );
                proof {
                    let grown = expiry_events(start.take(i + 1), now);
                    assert(grown == events.push(expiry_event(current, now))) by {
                        assert(prefix.filter(is_due).push(current).map_values(to_event)
                            == prefix.filter(is_due).map_values(to_event).push(
                            to_event(current),
                        ));
                    }
                    assert(ledger@.take(ledger_start.len() as int) == ledger_start) by {
                        assert(ledger@.take(ledger_start.len() as int) == ledger_before.take(
                            ledger_start.len() as int,
                        ));
                    }
                    assert forall|k: int| 0 <= k < grown.len() implies (#[trigger] ledger@[
                        ledger_start.len() + k
                    ]).event() == grown[k] by {
                        if k < events.len() {
                            assert(ledger@[ledger_start.len() + k] == ledger_before[
                                ledger_start.len() + k
                            ]);
                        }
                    }
                }
                count = count + 1;
            }
            i = i + 1;
        }
        proof {
            assert(start.take(n as int) == start);
            assert(self@ == swept(start, now));
        }
        count
    }
}

/// An announcement that has expired stays as it is, whoever tries to toggle
/// it, in whatever direction: the attempt fails and no announcement changes.
pub proof fn lemma_expired_is_final(
    before: Seq<Announcement>,
    after: Seq<Announcement>,
    ledger_before: Seq<AuditLog>,
    ledger_after: Seq<AuditLog>,
    r: Result<Announcement, BotError>,
    id: u128,
    actor: User,
    service: Service,
    expected_version: u64,
    target: ServiceStatus,
    now: i64,
)
    requires
        has_announcement(before, id),
        before[index_of_announcement(before, id)].status == ServiceStatus::Expired,
        toggle_outcome(
            before,
            after,
            ledger_before,
            ledger_after,
            r,
            id,
            actor,
            service,
            expected_version,
            target,
            now,
        ),
    ensures
        r is Err,
        after == before,
{
}

/// A sweep leaves every expired announcement as it is.
pub proof fn lemma_sweep_keeps_expired(announcements: Seq<Announcement>, now: i64, i: int)
    requires
        0 <= i < announcements.len(),
        announcements[i].status == ServiceStatus::Expired,
    ensures
        swept(announcements, now)[i] == announcements[i],
{
}

/// After a sweep at the instant `now`, another sweep at that instant, or at
/// an earlier one, finds nothing to do: it changes no announcement and
/// records no event.
pub proof fn lemma_sweep_is_idempotent(announcements: Seq<Announcement>, now: i64, again: i64)
    requires
        again <= now,
    ensures
        swept(swept(announcements, now), again) == swept(announcements, now),
        expiry_events(swept(announcements, now), again) == Seq::<EventView>::empty(),
{
    let once = swept(announcements, now);
    let is_due = |a: Announcement| due(a, again);
    once.lemma_all_neg_filter_empty(is_due);
    assert(once.filter(is_due) == Seq::<Announcement>::empty());
}

/// The identifiers of the announcements that are due, in their order.
pub open spec fn due_ids(announcements: Seq<Announcement>, now: i64) -> Seq<u128> {
    due_targets(announcements, now).map_values(|t: (u128, u64)| t.0)
}

spec fn swept_upto(announcements: Seq<Announcement>, upto: int, now: i64) -> Seq<Announcement> {
    Seq::new(
        announcements.len(),
        |k: int|
            if k < upto && due(announcements[k], now) {
                expired(announcements[k])
            } else {
                announcements[k]
            },
    )
}

proof fn lemma_listed_prefix(announcements: Seq<Announcement>, now: i64, upto: int)
    requires
        well_formed(announcements),
        0 <= upto <= announcements.len(),
    ensures
        listed(announcements, due_ids(announcements.take(upto), now), now) == (
            swept_upto(announcements, upto, now),
            expiry_events(announcements.take(upto), now),
        ),
    decreases upto,
{
    let is_due = |a: Announcement| due(a, now);
    let target = |a: Announcement| (a.id, a.version);
    let first = |t: (u128, u64)| t.0;
    let to_event = |a: Announcement| expiry_event(a, now);
    if upto == 0 {
        reveal(Seq::filter);
        assert(swept_upto(announcements, 0, now) == announcements);
    } else {
        let i = upto - 1;
        let prefix = announcements.take(i);
        let a = announcements[i];
        lemma_listed_prefix(announcements, now, i);
        assert(announcements.take(upto) == prefix.push(a));
        prefix.lemma_filter_push(a, is_due);
        let before = swept_upto(announcements, i, now);
        if due(a, now) {
            let found = prefix.filter(is_due);
            assert(found.map_values(target).push(target(a)).map_values(first) == found.map_values(
                target,
            ).map_values(first).push(a.id));
            assert(found.push(a).map_values(to_event) == found.map_values(to_event).push(
                to_event(a),
            ));
            let ids = due_ids(announcements.take(upto), now);
            assert(ids.drop_last() == due_ids(prefix, now));
            lemma_index_of_announcement(before, a.id, i);
            assert(before.update(i, expired(a)) == swept_upto(announcements, upto, now));
        } else {
            assert(before == swept_upto(announcements, upto, now));
        }
    }
}

/// A sweep over the list of the announcements that are due does what a
/// sweep does: the same announcements expire, and the same events are
/// recorded.
pub proof fn lemma_listed_due_is_sweep(announcements: Seq<Announcement>, now: i64)
    requires
        well_formed(announcements),
    ensures
        listed(announcements, due_ids(announcements, now), now) == (
            swept(announcements, now),
            expiry_events(announcements, now),
        ),
{
    lemma_listed_prefix(announcements, now, announcements.len() as int);
    assert(announcements.take(announcements.len() as int) == announcements);
    assert(swept_upto(announcements, announcements.len() as int, now) == swept(
        announcements,
        now,
    ));
}

/// An account of the role `Viewer` is refused the creation of an
/// announcement as `Forbidden`, whatever else holds.
pub proof fn lemma_viewer_is_forbidden(
    announcements: Seq<Announcement>,
    verifications: Seq<FaceVerificationView>,
    catalog: Seq<ServiceSuggestionView>,
    actor: User,
    service: Service,
    request: AnnouncementCreateRequest,
    id: u128,
    now: i64,
)
    requires
        actor.role == UserRole::Viewer,
    ensures
        creation_refusal(announcements, verifications, catalog, actor, service, request, id, now)
            == Some((ErrorKind::Forbidden, Seq::<char>::empty())),
{
}

/// An announcement that is created for a service tied to a catalog entry has
/// a price within the bounds of that entry.
pub proof fn lemma_created_within_bounds(
    announcements: Seq<Announcement>,
    verifications: Seq<FaceVerificationView>,
    catalog: Seq<ServiceSuggestionView>,
    actor: User,
    service: Service,
    request: AnnouncementCreateRequest,
    placement: Placement,
    now: i64,
)
    requires
        creation_refusal(
            announcements,
            verifications,
            catalog,
            actor,
            service,
            request,
            placement.id,
            now,
        ) is None,
        service.service_suggestion_id is Some,
    ensures
        has_entry(catalog, service.service_suggestion_id->0),
        created(service, request, placement, now).price_per_slot.between(
            catalog[index_of_entry(
                catalog,
                service.service_suggestion_id->0,
            )].reference_price_per_slot,
            catalog[index_of_entry(catalog, service.service_suggestion_id->0)].max_price_per_slot,
        ),
{
}

/// Where no identifier occurs twice, the announcement with a given
/// identifier is found at one position only.
pub proof fn lemma_index_of_announcement(announcements: Seq<Announcement>, id: u128, i: int)
    requires
        well_formed(announcements),
        0 <= i < announcements.len(),
        announcements[i].id == id,
    ensures
        has_announcement(announcements, id),
        index_of_announcement(announcements, id) == i,
{
    let j = index_of_announcement(announcements, id);
    if j < i {
        assert(announcements[j].id != announcements[i].id);
    } else if i < j {
        assert(announcements[i].id != announcements[j].id);
    }
}

} // verus!
