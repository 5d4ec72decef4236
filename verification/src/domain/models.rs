//! The entities: closed enumerations for every state and the records built
//! from them.
//!
//! Identifiers are 128-bit numbers, timestamps are microseconds since the
//! Unix epoch (UTC), and a confidence score is an integer on the scale the
//! face-matching provider reports.

use crate::domain::price::Price;
use vstd::prelude::*;

verus! {

/// Whether an account may act at all.
#[derive(Debug, Clone, Copy, PartialEq, Eq, Structural)]
pub enum UserStatus {
    Active,
    Blocked,
}

/// The privilege of an account, ordered `Viewer < Announcer < Admin < SuperAdmin`.
#[derive(Debug, Clone, Copy, PartialEq, Eq, Structural)]
pub enum UserRole {
    Viewer,
    Announcer,
    Admin,
    SuperAdmin,
}

/// The trust state of one face verification. `Verified` and `Rejected` are terminal.
#[derive(Debug, Clone, Copy, PartialEq, Eq, Structural)]
pub enum FaceVerificationStatus {
    Pending,
    Verified,
    Rejected,
}

/// The catalog category of a service.
#[derive(Debug, Clone, Copy, PartialEq, Eq, Structural)]
pub enum ServiceCategory {
    Streaming,
    Cloud,
    Gaming,
    Education,
    Tools,
    Other,
}

/// How often a slot is paid for.
#[derive(Debug, Clone, Copy, PartialEq, Eq, Structural)]
pub enum Periodicity {
    Monthly,
    Quarterly,
    Semiannual,
    Annual,
}

/// How a member receives access to the shared subscription.
#[derive(Debug, Clone, Copy, PartialEq, Eq, Structural)]
pub enum AccessType {
    EmailInvite,
    ActivationCode,
    Credentials,
}

/// The state of an announcement. `Expired` is terminal.
#[derive(Debug, Clone, Copy, PartialEq, Eq, Structural)]
pub enum ServiceStatus {
    Available,
    WaitingMembers,
    Expired,
}

/// The severity of an audit entry, ordered `Info < Warning < Error < Critical`.
#[derive(Debug, Clone, Copy, PartialEq, Eq, Structural)]
pub enum LogSeverity {
    Info,
    Warning,
    Error,
    Critical,
}

impl UserRole {
    /// The position of the role in the privilege order.
    pub open spec fn rank(self) -> nat {
        match self {
            UserRole::Viewer => 0,
            UserRole::Announcer => 1,
            UserRole::Admin => 2,
            UserRole::SuperAdmin => 3,
        }
    }

    /// The position of the role in the privilege order.
    pub fn level(self) -> (r: u8)
        ensures
            r == self.rank(),
    {
        match self {
            UserRole::Viewer => 0,
            UserRole::Announcer => 1,
            UserRole::Admin => 2,
            UserRole::SuperAdmin => 3,
        }
    }

    /// Whether this role carries at least the privilege of `other`.
    pub fn at_least(self, other: UserRole) -> (r: bool)
        ensures
            r == (self.rank() >= other.rank()),
    {
        self.level() >= other.level()
    }
}

impl LogSeverity {
    /// The position of the severity in the order of gravity.
    pub open spec fn rank(self) -> nat {
        match self {
            LogSeverity::Info => 0,
            LogSeverity::Warning => 1,
            LogSeverity::Error => 2,
            LogSeverity::Critical => 3,
        }
    }

    /// The position of the severity in the order of gravity.
    pub fn level(self) -> (r: u8)
        ensures
            r == self.rank(),
    {
        match self {
            LogSeverity::Info => 0,
            LogSeverity::Warning => 1,
            LogSeverity::Error => 2,
            LogSeverity::Critical => 3,
        }
    }

    /// Whether this severity is at least as grave as `other`.
    pub fn at_least(self, other: LogSeverity) -> (r: bool)
        ensures
            r == (self.rank() >= other.rank()),
    {
        self.level() >= other.level()
    }
}

impl FaceVerificationStatus {
    /// Whether no further transition can leave this state.
    pub open spec fn terminal(self) -> bool {
        self != FaceVerificationStatus::Pending
    }

    /// Whether no further transition can leave this state.
    pub fn is_terminal(self) -> (r: bool)
        ensures
            r == self.terminal(),
    {
        match self {
            FaceVerificationStatus::Pending => false,
            _ => true,
        }
    }
}

/// Microseconds in one day.
pub const MICROS_PER_DAY: i64 = 86_400_000_000;

impl Periodicity {
    /// The number of days after which an announcement of this periodicity expires.
    pub open spec fn days(self) -> int {
        match self {
            Periodicity::Monthly => 30,
            Periodicity::Quarterly => 90,
            Periodicity::Semiannual => 180,
            Periodicity::Annual => 365,
        }
    }

    /// The time between the creation of an announcement and its expiration, in microseconds.
    pub open spec fn offset(self) -> int {
        self.days() * 86_400_000_000
    }

    /// The time between the creation of an announcement and its expiration, in microseconds.
    pub fn offset_micros(self) -> (r: i64)
        ensures
            r == self.offset(),
    {
        match self {
            Periodicity::Monthly => 30 * MICROS_PER_DAY,
            Periodicity::Quarterly => 90 * MICROS_PER_DAY,
            Periodicity::Semiannual => 180 * MICROS_PER_DAY,
            Periodicity::Annual => 365 * MICROS_PER_DAY,
        }
    }
}

/// A copy of an optional text.
pub fn copy_text(text: &Option<String>) -> (r: Option<String>)
    ensures
        r == *text,
{
    match text {
        Some(s) => Some(s.clone()),
        None => None,
    }
}

/// The characters of an optional text.
pub open spec fn text_of(text: Option<String>) -> Option<Seq<char>> {
    match text {
        Some(s) => Some(s@),
        None => None,
    }
}

/// Whether two optional texts hold the same characters, or are both absent.
pub fn same_text(a: &Option<String>, b: &Option<String>) -> (r: bool)
    ensures
        r == (text_of(*a) == text_of(*b)),
{
    match (a, b) {
        (Some(x), Some(y)) => *x == *y,
        (None, None) => true,
        _ => false,
    }
}

/// A member of the community.
#[derive(Debug, PartialEq, Eq)]
pub struct User {
    pub id: u128,
    /// The identity on the messaging platform.
    pub telegram_id: i64,
    pub telegram_username: String,
    pub name: String,
    pub surname: String,
    pub status: UserStatus,
    pub role: UserRole,
    /// The face verification this account relies on, if it has one.
    pub face_verification_id: Option<u128>,
    pub created_at: i64,
    pub updated_at: i64,
}

impl Clone for User {
    fn clone(&self) -> (r: Self)
        ensures
            r == *self,
    {
        User {
            id: self.id,
            telegram_id: self.telegram_id,
            telegram_username: self.telegram_username.clone(),
            name: self.name.clone(),
            surname: self.surname.clone(),
            status: self.status,
            role: self.role,
            face_verification_id: self.face_verification_id,
            created_at: self.created_at,
            updated_at: self.updated_at,
        }
    }
}

/// What a new member tells about themselves on first contact.
#[derive(Debug, PartialEq, Eq)]
pub struct UserCreateRequest {
    pub telegram_id: i64,
    pub telegram_username: String,
    pub name: String,
    pub surname: String,
}

impl Clone for UserCreateRequest {
    fn clone(&self) -> (r: Self)
        ensures
            r == *self,
    {
        UserCreateRequest {
            telegram_id: self.telegram_id,
            telegram_username: self.telegram_username.clone(),
            name: self.name.clone(),
            surname: self.surname.clone(),
        }
    }
}


/// What a member asks for when publishing a slot offer.
#[derive(Debug, PartialEq, Eq)]
pub struct AnnouncementCreateRequest {
    pub service_name: String,
    /// The price of one slot as decimal text, such as `4.99`.
    pub price_per_slot: String,
    pub periodicity: Periodicity,
    pub access_type: AccessType,
    /// The state the announcement is to start in.
    pub status: ServiceStatus,
}

impl Clone for AnnouncementCreateRequest {
    fn clone(&self) -> (r: Self)
        ensures
            r == *self,
    {
        AnnouncementCreateRequest {
            service_name: self.service_name.clone(),
            price_per_slot: self.price_per_slot.clone(),
            periodicity: self.periodicity,
            access_type: self.access_type,
            status: self.status,
        }
    }
}


/// One entry of the audit ledger.
#[derive(Debug, PartialEq, Eq)]
pub struct AuditLog {
    /// The position of the entry in the ledger, counted from zero.
    pub id: u128,
    /// The account that acted, if it is known.
    pub user_id: Option<u128>,
    pub action_type: String,
    /// The kind of the entity acted upon, if there is one.
    pub entity_type: Option<String>,
    /// The entity acted upon, if there is one.
    pub entity_id: Option<u128>,
    pub details: Option<String>,
    /// The message on the platform that reports the entry, if there is one.
    pub telegram_message_id: Option<i64>,
    pub severity: LogSeverity,
    pub created_at: i64,
    /// The number of entries recorded earlier for the same entity.
    pub sequence: u64,
}

impl Clone for AuditLog {
    fn clone(&self) -> (r: Self)
        ensures
            r == *self,
    {
        AuditLog {
            id: self.id,
            user_id: self.user_id,
            action_type: self.action_type.clone(),
            entity_type: copy_text(&self.entity_type),
            entity_id: self.entity_id,
            details: copy_text(&self.details),
            telegram_message_id: self.telegram_message_id,
            severity: self.severity,
            created_at: self.created_at,
            sequence: self.sequence,
        }
    }
}


/// One attempt of an account to have its face verified.
#[derive(Debug, PartialEq, Eq)]
pub struct FaceVerification {
    pub id: u128,
    /// The account that asked, by its identity on the messaging platform.
    pub telegram_id: i64,
    /// The reference of the video that was handed in.
    pub video_file_id: String,
    /// The identifier the provider gave to the matched face, once it has answered.
    pub azure_face_id: Option<String>,
    /// When the record last changed its state.
    pub verification_date: i64,
    /// The confidence the provider reported, once it has answered.
    pub confidence_score: Option<i32>,
    pub status: FaceVerificationStatus,
    /// Why the verification was rejected, if it was.
    pub rejection_reason: Option<String>,
    /// When the video was handed in.
    pub created_at: i64,
}

/// A face verification with its texts as sequences of characters.
pub struct FaceVerificationView {
    pub id: u128,
    pub telegram_id: i64,
    pub video_file_id: Seq<char>,
    pub azure_face_id: Option<Seq<char>>,
    pub verification_date: i64,
    pub confidence_score: Option<i32>,
    pub status: FaceVerificationStatus,
    pub rejection_reason: Option<Seq<char>>,
    pub created_at: i64,
}

impl View for FaceVerification {
    type V = FaceVerificationView;

    open spec fn view(&self) -> FaceVerificationView {
        FaceVerificationView {
            id: self.id,
            telegram_id: self.telegram_id,
            video_file_id: self.video_file_id@,
            azure_face_id: text_of(self.azure_face_id),
            verification_date: self.verification_date,
            confidence_score: self.confidence_score,
            status: self.status,
            rejection_reason: text_of(self.rejection_reason),
            created_at: self.created_at,
        }
    }
}

impl FaceVerificationView {
    /// Whether the fields agree with the state: a confidence score only on a
    /// record that has left `Pending`, a rejection reason on a rejected
    /// record and on no other.
    pub open spec fn coherent(self) -> bool {
        &&& self.confidence_score is Some ==> self.status.terminal()
        &&& self.rejection_reason is Some <==> self.status == FaceVerificationStatus::Rejected
    }

    /// Whether the record waits for the provider's answer on behalf of `account`.
    pub open spec fn pending_for(self, account: i64) -> bool {
        self.telegram_id == account && self.status == FaceVerificationStatus::Pending
    }
}

impl Clone for FaceVerification {
    fn clone(&self) -> (r: Self)
        ensures
            r == *self,
    {
        FaceVerification {
            id: self.id,
            telegram_id: self.telegram_id,
            video_file_id: self.video_file_id.clone(),
            azure_face_id: copy_text(&self.azure_face_id),
            verification_date: self.verification_date,
            confidence_score: self.confidence_score,
            status: self.status,
            rejection_reason: copy_text(&self.rejection_reason),
            created_at: self.created_at,
        }
    }
}


/// A canonical entry of the service catalog.
#[derive(Debug, PartialEq, Eq)]
pub struct ServiceSuggestion {
    pub id: u128,
    /// The name as it was first given.
    pub service_name: String,
    /// The name in its normal form, by which entries are told apart.
    pub normalized_name: String,
    pub category: ServiceCategory,
    pub icon_emoji: String,
    /// The lowest price a slot of this service may be offered for.
    pub reference_price_per_slot: Price,
    /// The highest price a slot of this service may be offered for.
    pub max_price_per_slot: Price,
    pub created_at: i64,
    pub updated_at: i64,
}

/// A catalog entry with its texts as sequences of characters.
pub struct ServiceSuggestionView {
    pub id: u128,
    pub service_name: Seq<char>,
    pub normalized_name: Seq<char>,
    pub category: ServiceCategory,
    pub icon_emoji: Seq<char>,
    pub reference_price_per_slot: Price,
    pub max_price_per_slot: Price,
    pub created_at: i64,
    pub updated_at: i64,
}

impl View for ServiceSuggestion {
    type V = ServiceSuggestionView;

    open spec fn view(&self) -> ServiceSuggestionView {
        ServiceSuggestionView {
            id: self.id,
            service_name: self.service_name@,
            normalized_name: self.normalized_name@,
            category: self.category,
            icon_emoji: self.icon_emoji@,
            reference_price_per_slot: self.reference_price_per_slot,
            max_price_per_slot: self.max_price_per_slot,
            created_at: self.created_at,
            updated_at: self.updated_at,
        }
    }
}

impl Clone for ServiceSuggestion {
    fn clone(&self) -> (r: Self)
        ensures
            r == *self,
    {
        ServiceSuggestion {
            id: self.id,
            service_name: self.service_name.clone(),
            normalized_name: self.normalized_name.clone(),
            category: self.category,
            icon_emoji: self.icon_emoji.clone(),
            reference_price_per_slot: self.reference_price_per_slot,
            max_price_per_slot: self.max_price_per_slot,
            created_at: self.created_at,
            updated_at: self.updated_at,
        }
    }
}

/// A subscription that a member shares.
#[derive(Debug, PartialEq, Eq)]
pub struct Service {
    pub id: u128,
    /// The account that shares the subscription.
    pub owner_id: u128,
    /// The catalog entry the service is tied to, if it is tied to one.
    pub service_suggestion_id: Option<u128>,
    pub service_name: String,
    pub category: ServiceCategory,
    pub created_at: i64,
    pub updated_at: i64,
}

impl Clone for Service {
    fn clone(&self) -> (r: Self)
        ensures
            r == *self,
    {
        Service {
            id: self.id,
            owner_id: self.owner_id,
            service_suggestion_id: self.service_suggestion_id,
            service_name: self.service_name.clone(),
            category: self.category,
            created_at: self.created_at,
            updated_at: self.updated_at,
        }
    }
}

/// A published offer of a slot on a service.
#[derive(Debug, Clone, Copy, PartialEq, Eq, Structural)]
pub struct Announcement {
    pub id: u128,
    pub service_id: u128,
    /// The message that shows the announcement in the channel.
    pub telegram_message_id: i64,
    pub channel_id: i64,
    pub price_per_slot: Price,
    pub periodicity: Periodicity,
    pub access_type: AccessType,
    pub status: ServiceStatus,
    pub expiration_date: i64,
    pub created_at: i64,
    /// The number of changes made to the announcement since its creation.
    pub version: u64,
}

} // verus!
