//! The errors a request can end in, by kind.

use crate::discord_webhook::{DispatchError, DispatchErrorView};
use crate::models::SHARED_MEMBER;
use crate::text::{append_integer, append_natural, decimal, decimal_digits};
use vstd::prelude::*;

verus! {

/// A submitted member state broke a structural rule.
#[derive(Debug, Clone, PartialEq, Eq)]
pub enum ValidationError {
    /// A sub-document whose length lies outside its allowed bounds.
    LengthOutOfRange { field: String, actual: usize, min: usize, max: usize },
    /// A collection-log entry for a page that the reference schema does not list.
    UnknownPage { page: String },
    /// A collection-log entry with an item that the reference schema does not list for its page.
    UnknownItem { page: String, item: i32 },
}

/// What a [`ValidationError`] holds, as plain values.
pub enum ValidationErrorView {
    LengthOutOfRange { field: Seq<char>, actual: int, min: int, max: int },
    UnknownPage { page: Seq<char> },
    UnknownItem { page: Seq<char>, item: int },
}

impl View for ValidationError {
    type V = ValidationErrorView;

    open spec fn view(&self) -> ValidationErrorView {
        match *self {
            ValidationError::LengthOutOfRange { field, actual, min, max } => {
                ValidationErrorView::LengthOutOfRange {
                    field: field@,
                    actual: actual as int,
                    min: min as int,
                    max: max as int,
                }
            },
            ValidationError::UnknownPage { page } => ValidationErrorView::UnknownPage {
                page: page@,
            },
            ValidationError::UnknownItem { page, item } => ValidationErrorView::UnknownItem {
                page: page@,
                item: item as int,
            },
        }
    }
}

impl ValidationErrorView {
    /// The error in words.
    pub open spec fn message(self) -> Seq<char> {
        match self {
            ValidationErrorView::LengthOutOfRange { field, actual, min, max } => field
                + " length violated range constraint "@ + decimal_digits(min as nat) + "..="@
                + decimal_digits(max as nat) + " actual="@ + decimal_digits(actual as nat),
            ValidationErrorView::UnknownPage { page } => "Unknown collection log page "@ + page,
            ValidationErrorView::UnknownItem { page, item } => "Unknown collection log item "@
                + decimal(item) + " on page "@ + page,
        }
    }
}

impl ValidationError {
    /// The error in words: the part and its bounds, or the key that is not known.
    pub fn message(&self) -> (text: String)
        ensures
            text@ == self@.message(),
    {
        match self {
            ValidationError::LengthOutOfRange { field, actual, min, max } => {
                let mut text = field.clone();
                text.append(" length violated range constraint ");
                append_natural(&mut text, *min as u64);
                text.append("..=");
                append_natural(&mut text, *max as u64);
                text.append(" actual=");
                append_natural(&mut text, *actual as u64);
                assert(text@ =~= self@.message());
                text
            },
            ValidationError::UnknownPage { page } => {
                let mut text = "Unknown collection log page ".to_owned();
                text.append(page.as_str());
                text
            },
            ValidationError::UnknownItem { page, item } => {
                let mut text = "Unknown collection log item ".to_owned();
                append_integer(&mut text, *item as i64);
                text.append(" on page ");
                text.append(page.as_str());
                assert(text@ =~= self@.message());
                text
            },
        }
    }
}

/// The name given does not belong to the group.
#[derive(Debug, Clone, Copy, PartialEq, Eq, Structural)]
pub enum AuthorizationError {
    /// The member that a request is about.
    PlayerNotInGroup,
    /// The member that asks for an item.
    RequesterNotInGroup,
}

impl AuthorizationError {
    /// The error in words. It says no more than that the name is not a member here.
    pub open spec fn message_text(self) -> Seq<char> {
        match self {
            AuthorizationError::PlayerNotInGroup => "Player is not a member of this group"@,
            AuthorizationError::RequesterNotInGroup => "Requester is not a member of this group"@,
        }
    }

    /// The error in words.
    pub fn message(&self) -> (text: String)
        ensures
            text@ == self.message_text(),
    {
        match self {
            AuthorizationError::PlayerNotInGroup => "Player is not a member of this group".to_owned(),
            AuthorizationError::RequesterNotInGroup => {
                "Requester is not a member of this group".to_owned()
            },
        }
    }
}

/// A request asks for something that the group's rules or settings do not allow.
#[derive(Debug, Clone, PartialEq, Eq)]
pub enum ConfigurationError {
    /// The name of the shared pool was given where a member's name is wanted.
    ReservedName,
    /// The name cannot be a member's name.
    InvalidName { name: String },
    /// The group already has a member of that name.
    NameTaken { name: String },
    /// The address does not begin as a Discord webhook's address does.
    InvalidWebhookUrl,
    /// The group has item requests switched off.
    ItemRequestsDisabled,
    /// The group has no webhook address to send item requests to.
    WebhookNotConfigured,
}

/// What a [`ConfigurationError`] holds, as plain values.
pub enum ConfigurationErrorView {
    ReservedName,
    InvalidName { name: Seq<char> },
    NameTaken { name: Seq<char> },
    InvalidWebhookUrl,
    ItemRequestsDisabled,
    WebhookNotConfigured,
}

impl View for ConfigurationError {
    type V = ConfigurationErrorView;

    open spec fn view(&self) -> ConfigurationErrorView {
        match *self {
            ConfigurationError::ReservedName => ConfigurationErrorView::ReservedName,
            ConfigurationError::InvalidName { name } => ConfigurationErrorView::InvalidName {
                name: name@,
            },
            ConfigurationError::NameTaken { name } => ConfigurationErrorView::NameTaken {
                name: name@,
            },
            ConfigurationError::InvalidWebhookUrl => ConfigurationErrorView::InvalidWebhookUrl,
            ConfigurationError::ItemRequestsDisabled => ConfigurationErrorView::ItemRequestsDisabled,
            ConfigurationError::WebhookNotConfigured => ConfigurationErrorView::WebhookNotConfigured,
        }
    }
}

impl ConfigurationErrorView {
    /// The error in words.
    pub open spec fn message(self) -> Seq<char> {
        match self {
            ConfigurationErrorView::ReservedName => "Member name "@ + SHARED_MEMBER@
                + " not allowed"@,
            ConfigurationErrorView::InvalidName { name } => "Member name "@ + name
                + " is not valid"@,
            ConfigurationErrorView::NameTaken { name } => "Member name "@ + name
                + " is already in this group"@,
            ConfigurationErrorView::InvalidWebhookUrl => "Invalid Discord webhook URL"@,
            ConfigurationErrorView::ItemRequestsDisabled => {
                "Item requests are not enabled for this group"@
            },
            ConfigurationErrorView::WebhookNotConfigured => {
                "Discord webhook URL is not configured"@
            },
        }
    }
}

impl ConfigurationError {
    /// The error in words.
    pub fn message(&self) -> (text: String)
        ensures
            text@ == self@.message(),
    {
        match self {
            ConfigurationError::ReservedName => {
                let mut text = "Member name ".to_owned();
                text.append(SHARED_MEMBER);
                text.append(" not allowed");
                text
            },
            ConfigurationError::InvalidName { name } => {
                let mut text = "Member name ".to_owned();
                text.append(name.as_str());
                text.append(" is not valid");
                text
            },
            ConfigurationError::NameTaken { name } => {
                let mut text = "Member name ".to_owned();
                text.append(name.as_str());
                text.append(" is already in this group");
                text
            },
            ConfigurationError::InvalidWebhookUrl => "Invalid Discord webhook URL".to_owned(),
            ConfigurationError::ItemRequestsDisabled => {
                "Item requests are not enabled for this group".to_owned()
            },
            ConfigurationError::WebhookNotConfigured => {
                "Discord webhook URL is not configured".to_owned()
            },
        }
    }
}

/// Every way in which a request can fail.
#[derive(Debug, Clone, PartialEq, Eq)]
pub enum ApiError {
    /// The submitted state broke a structural rule. Nothing was stored.
    Validation(ValidationError),
    /// The name is not a member of the group. Nothing was stored or sent.
    Authorization(AuthorizationError),
    /// The request is against the group's rules or settings.
    Configuration(ConfigurationError),
    /// The store could not be reached or refused the operation. No detail is passed on.
    Persistence,
    /// The item request could not be delivered.
    Dispatch(DispatchError),
}

/// What an [`ApiError`] holds, as plain values.
pub enum ApiErrorView {
    Validation(ValidationErrorView),
    Authorization(AuthorizationError),
    Configuration(ConfigurationErrorView),
    Persistence,
    Dispatch(DispatchErrorView),
}

impl View for ApiError {
    type V = ApiErrorView;

    open spec fn view(&self) -> ApiErrorView {
        match *self {
            ApiError::Validation(e) => ApiErrorView::Validation(e@),
            ApiError::Authorization(e) => ApiErrorView::Authorization(e),
            ApiError::Configuration(e) => ApiErrorView::Configuration(e@),
            ApiError::Persistence => ApiErrorView::Persistence,
            ApiError::Dispatch(e) => ApiErrorView::Dispatch(e@),
        }
    }
}

impl ApiErrorView {
    /// The error in words, as the caller is told.
    pub open spec fn message(self) -> Seq<char> {
        match self {
            ApiErrorView::Validation(e) => e.message(),
            ApiErrorView::Authorization(e) => e.message_text(),
            ApiErrorView::Configuration(e) => e.message(),
            ApiErrorView::Persistence => "Internal server error"@,
            ApiErrorView::Dispatch(e) => e.message(),
        }
    }

    /// The HTTP status under which the error is reported.
    pub open spec fn status_code(self) -> int {
        match self {
            ApiErrorView::Validation(_) => 400,
            ApiErrorView::Authorization(_) => 401,
            ApiErrorView::Configuration(_) => 400,
            ApiErrorView::Persistence => 500,
            ApiErrorView::Dispatch(_) => 500,
        }
    }
}

impl ApiError {
    /// The error in words, as the caller is told.
    pub fn message(&self) -> (text: String)
        ensures
            text@ == self@.message(),
    {
        match self {
            ApiError::Validation(e) => e.message(),
            ApiError::Authorization(e) => e.message(),
            ApiError::Configuration(e) => e.message(),
            ApiError::Persistence => "Internal server error".to_owned(),
            ApiError::Dispatch(e) => e.message(),
        }
    }

    /// The HTTP status under which the error is reported: 400 for a request that
    /// breaks a rule, 401 for a name that is no member, 500 where the store or the
    /// delivery failed.
    pub fn status_code(&self) -> (code: u16)
        ensures
            code == self@.status_code(),
    {
        match self {
            ApiError::Validation(_) => 400,
            ApiError::Authorization(_) => 401,
            ApiError::Configuration(_) => 400,
            ApiError::Persistence => 500,
            ApiError::Dispatch(_) => 500,
        }
    }
}

} // verus!
