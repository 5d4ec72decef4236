//! The error taxonomy shared by every component.

use vstd::prelude::*;
use vstd::string::*;

verus! {

/// Failure of a domain operation.
#[derive(Debug, PartialEq, Eq)]
pub enum BotError {
    /// The persistent store failed.
    DatabaseError(String),
    /// The message channel failed.
    TelegramError(String),
    /// The face-matching provider reported an error of its own.
    AzureError(String),
    /// Malformed input or a violated invariant; the text is shown to the caller as it is.
    ValidationError(String),
    /// A referenced entity is absent.
    NotFound(String),
    /// The actor could not be identified.
    Unauthorized,
    /// The actor is known but lacks the privilege.
    Forbidden,
    /// A write met another state of the entity than the one last read.
    Conflict(String),
    /// A collaborator failed; `retryable` tells whether another attempt may succeed.
    ExternalServiceError { message: String, retryable: bool },
    /// An unexpected failure.
    InternalError(String),
    /// The configuration is incomplete or malformed.
    ConfigError(String),
}

impl Clone for BotError {
    fn clone(&self) -> (r: Self)
        ensures
            r == *self,
    {
        match self {
            BotError::DatabaseError(m) => BotError::DatabaseError(m.clone()),
            BotError::TelegramError(m) => BotError::TelegramError(m.clone()),
            BotError::AzureError(m) => BotError::AzureError(m.clone()),
            BotError::ValidationError(m) => BotError::ValidationError(m.clone()),
            BotError::NotFound(m) => BotError::NotFound(m.clone()),
            BotError::Unauthorized => BotError::Unauthorized,
            BotError::Forbidden => BotError::Forbidden,
            BotError::Conflict(m) => BotError::Conflict(m.clone()),
            BotError::ExternalServiceError { message, retryable } => {
                BotError::ExternalServiceError { message: message.clone(), retryable: *retryable }
            },
            BotError::InternalError(m) => BotError::InternalError(m.clone()),
            BotError::ConfigError(m) => BotError::ConfigError(m.clone()),
        }
    }
}

/// The kind of a failure, without its text.
#[derive(Debug, Clone, Copy, PartialEq, Eq, Structural)]
pub enum ErrorKind {
    Database,
    Telegram,
    Azure,
    Validation,
    NotFound,
    Unauthorized,
    Forbidden,
    Conflict,
    ExternalService,
    Internal,
    Config,
}

impl BotError {
    /// The kind of the failure.
    pub open spec fn kind_of(self) -> ErrorKind {
        match self {
            BotError::DatabaseError(_) => ErrorKind::Database,
            BotError::TelegramError(_) => ErrorKind::Telegram,
            BotError::AzureError(_) => ErrorKind::Azure,
            BotError::ValidationError(_) => ErrorKind::Validation,
            BotError::NotFound(_) => ErrorKind::NotFound,
            BotError::Unauthorized => ErrorKind::Unauthorized,
            BotError::Forbidden => ErrorKind::Forbidden,
            BotError::Conflict(_) => ErrorKind::Conflict,
            BotError::ExternalServiceError { .. } => ErrorKind::ExternalService,
            BotError::InternalError(_) => ErrorKind::Internal,
            BotError::ConfigError(_) => ErrorKind::Config,
        }
    }

    /// The text the failure carries; empty where it carries none.
    pub open spec fn text(self) -> Seq<char> {
        match self {
            BotError::DatabaseError(m) => m@,
            BotError::TelegramError(m) => m@,
            BotError::AzureError(m) => m@,
            BotError::ValidationError(m) => m@,
            BotError::NotFound(m) => m@,
            BotError::Unauthorized => Seq::empty(),
            BotError::Forbidden => Seq::empty(),
            BotError::Conflict(m) => m@,
            BotError::ExternalServiceError { message, .. } => message@,
            BotError::InternalError(m) => m@,
            BotError::ConfigError(m) => m@,
        }
    }

    /// Whether the failure is of the kind `kind` and carries the text `text`.
    pub open spec fn is(self, kind: ErrorKind, text: Seq<char>) -> bool {
        self.kind_of() == kind && self.text() == text
    }

    /// Whether the same attempt may succeed when it is made again: after a
    /// conflict, and after a collaborator's failure that it calls retryable.
    pub open spec fn retryable(self) -> bool {
        match self {
            BotError::Conflict(_) => true,
            BotError::ExternalServiceError { retryable, .. } => retryable,
            _ => false,
        }
    }

    /// What introduces the text of a failure when it is shown.
    pub open spec fn heading(kind: ErrorKind) -> Seq<char> {
        match kind {
            ErrorKind::Database => "Database error: "@,
            ErrorKind::Telegram => "Telegram error: "@,
            ErrorKind::Azure => "Azure Face API error: "@,
            ErrorKind::Validation => "Validation error: "@,
            ErrorKind::NotFound => "Not found: "@,
            ErrorKind::Unauthorized => "Unauthorized"@,
            ErrorKind::Forbidden => "Forbidden"@,
            ErrorKind::Conflict => "Conflict: "@,
            ErrorKind::ExternalService => "External service error: "@,
            ErrorKind::Internal => "Internal server error: "@,
            ErrorKind::Config => "Configuration error: "@,
        }
    }

    /// The kind of the failure.
    pub fn kind(&self) -> (r: ErrorKind)
        ensures
            r == self.kind_of(),
    {
        match self {
            BotError::DatabaseError(_) => ErrorKind::Database,
            BotError::TelegramError(_) => ErrorKind::Telegram,
            BotError::AzureError(_) => ErrorKind::Azure,
            BotError::ValidationError(_) => ErrorKind::Validation,
            BotError::NotFound(_) => ErrorKind::NotFound,
            BotError::Unauthorized => ErrorKind::Unauthorized,
            BotError::Forbidden => ErrorKind::Forbidden,
            BotError::Conflict(_) => ErrorKind::Conflict,
            BotError::ExternalServiceError { .. } => ErrorKind::ExternalService,
            BotError::InternalError(_) => ErrorKind::Internal,
            BotError::ConfigError(_) => ErrorKind::Config,
        }
    }

    /// The text the failure carries; empty where it carries none.
    pub fn detail(&self) -> (r: String)
        ensures
            r@ == self.text(),
    {
        match self {
            BotError::DatabaseError(m) => m.clone(),
            BotError::TelegramError(m) => m.clone(),
            BotError::AzureError(m) => m.clone(),
            BotError::ValidationError(m) => m.clone(),
            BotError::NotFound(m) => m.clone(),
            BotError::Unauthorized => String::new(),
            BotError::Forbidden => String::new(),
            BotError::Conflict(m) => m.clone(),
            BotError::ExternalServiceError { message, .. } => message.clone(),
            BotError::InternalError(m) => m.clone(),
            BotError::ConfigError(m) => m.clone(),
        }
    }

    /// Whether the same attempt may succeed when it is made again.
    pub fn is_retryable(&self) -> (r: bool)
        ensures
            r == self.retryable(),
    {
        match self {
            BotError::Conflict(_) => true,
            BotError::ExternalServiceError { retryable, .. } => *retryable,
            _ => false,
        }
    }

    /// The failure in words: the heading of its kind, followed by its text.
    pub fn message(&self) -> (r: String)
        ensures
            r@ == Self::heading(self.kind_of()) + self.text(),
    {
        match self {
            BotError::DatabaseError(m) => String::from_str("Database error: ").concat(m.as_str()),
            BotError::TelegramError(m) => String::from_str("Telegram error: ").concat(m.as_str()),
            BotError::AzureError(m) => String::from_str("Azure Face API error: ").concat(
                m.as_str(),
            ),
            BotError::ValidationError(m) => String::from_str("Validation error: ").concat(
                m.as_str(),
            ),
            BotError::NotFound(m) => String::from_str("Not found: ").concat(m.as_str()),
            BotError::Unauthorized => String::from_str("Unauthorized"),
            BotError::Forbidden => String::from_str("Forbidden"),
            BotError::Conflict(m) => String::from_str("Conflict: ").concat(m.as_str()),
            BotError::ExternalServiceError { message, .. } => String::from_str(
                "External service error: ",
            ).concat(message.as_str()),
            BotError::InternalError(m) => String::from_str("Internal server error: ").concat(
                m.as_str(),
            ),
            BotError::ConfigError(m) => String::from_str("Configuration error: ").concat(
                m.as_str(),
            ),
        }
    }
}

} // verus!
