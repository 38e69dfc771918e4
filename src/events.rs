//! Domain events: immutable records of the changes made to a user, buffered
//! on the aggregate until the caller takes them.
use vstd::prelude::*;

use crate::email::Email;
use crate::external_id::ExternalId;
use crate::ids::{OccurredAt, UserId};
use crate::phone::Phone;
use crate::status::UserStatus;
use crate::username::Username;

verus! {

/// A user became active.
#[derive(Debug, Clone, PartialEq, Eq)]
pub struct UserActivated {
    pub user_id: UserId,
    pub user_status: UserStatus,
    pub occurred_at: OccurredAt,
}

impl UserActivated {
    /// The event stamped with the current time.
    pub fn new(user_id: UserId, user_status: UserStatus) -> (r: UserActivated)
        ensures
            r.user_id == user_id,
            r.user_status == user_status,
    {
        UserActivated::new_at(user_id, user_status, OccurredAt::now())
    }

    /// The event stamped with `occurred_at`.
    pub fn new_at(user_id: UserId, user_status: UserStatus, occurred_at: OccurredAt) -> (r: UserActivated)
        ensures
            r == (UserActivated { user_id, user_status, occurred_at }),
    {
        UserActivated { user_id, user_status, occurred_at }
    }
}

/// A user was soft-deleted.
#[derive(Debug, Clone, PartialEq, Eq)]
pub struct UserDeleted {
    pub user_id: UserId,
    pub user_status: UserStatus,
    pub occurred_at: OccurredAt,
}

impl UserDeleted {
    /// The event stamped with the current time.
    pub fn new(user_id: UserId, user_status: UserStatus) -> (r: UserDeleted)
        ensures
            r.user_id == user_id,
            r.user_status == user_status,
    {
        UserDeleted::new_at(user_id, user_status, OccurredAt::now())
    }

    /// The event stamped with `occurred_at`.
    pub fn new_at(user_id: UserId, user_status: UserStatus, occurred_at: OccurredAt) -> (r: UserDeleted)
        ensures
            r == (UserDeleted { user_id, user_status, occurred_at }),
    {
        UserDeleted { user_id, user_status, occurred_at }
    }
}

/// A user's e-mail address was verified.
#[derive(Debug, Clone, PartialEq, Eq)]
pub struct UserEmailVerified {
    pub user_id: UserId,
    pub email: Email,
    pub occurred_at: OccurredAt,
}

impl UserEmailVerified {
    /// The event stamped with the current time.
    pub fn new(user_id: UserId, email: Email) -> (r: UserEmailVerified)
        ensures
            r.user_id == user_id,
            r.email == email,
    {
        UserEmailVerified::new_at(user_id, email, OccurredAt::now())
    }

    /// The event stamped with `occurred_at`.
    pub fn new_at(user_id: UserId, email: Email, occurred_at: OccurredAt) -> (r: UserEmailVerified)
        ensures
            r == (UserEmailVerified { user_id, email, occurred_at }),
    {
        UserEmailVerified { user_id, email, occurred_at }
    }
}

/// An outside identifier was linked to a user.
#[derive(Debug, Clone, PartialEq, Eq)]
pub struct UserExternalIdLinked {
    pub user_id: UserId,
    pub external_id: ExternalId,
    pub occurred_at: OccurredAt,
}

impl UserExternalIdLinked {
    /// The event stamped with the current time.
    pub fn new(user_id: UserId, external_id: ExternalId) -> (r: UserExternalIdLinked)
        ensures
            r.user_id == user_id,
            r.external_id == external_id,
    {
        UserExternalIdLinked::new_at(user_id, external_id, OccurredAt::now())
    }

    /// The event stamped with `occurred_at`.
    pub fn new_at(user_id: UserId, external_id: ExternalId, occurred_at: OccurredAt) -> (r: UserExternalIdLinked)
        ensures
            r == (UserExternalIdLinked { user_id, external_id, occurred_at }),
    {
        UserExternalIdLinked { user_id, external_id, occurred_at }
    }
}

/// A phone number was assigned to a user.
#[derive(Debug, Clone, PartialEq, Eq)]
pub struct UserPhoneAssigned {
    pub user_id: UserId,
    pub phone: Phone,
    pub occurred_at: OccurredAt,
}

impl UserPhoneAssigned {
    /// The event stamped with the current time.
    pub fn new(user_id: UserId, phone: Phone) -> (r: UserPhoneAssigned)
        ensures
            r.user_id == user_id,
            r.phone == phone,
    {
        UserPhoneAssigned::new_at(user_id, phone, OccurredAt::now())
    }

    /// The event stamped with `occurred_at`.
    pub fn new_at(user_id: UserId, phone: Phone, occurred_at: OccurredAt) -> (r: UserPhoneAssigned)
        ensures
            r == (UserPhoneAssigned { user_id, phone, occurred_at }),
    {
        UserPhoneAssigned { user_id, phone, occurred_at }
    }
}

/// A user's phone number was verified.
#[derive(Debug, Clone, PartialEq, Eq)]
pub struct UserPhoneVerified {
    pub user_id: UserId,
    pub phone: Phone,
    pub occurred_at: OccurredAt,
}

impl UserPhoneVerified {
    /// The event stamped with the current time.
    pub fn new(user_id: UserId, phone: Phone) -> (r: UserPhoneVerified)
        ensures
            r.user_id == user_id,
            r.phone == phone,
    {
        UserPhoneVerified::new_at(user_id, phone, OccurredAt::now())
    }

    /// The event stamped with `occurred_at`.
    pub fn new_at(user_id: UserId, phone: Phone, occurred_at: OccurredAt) -> (r: UserPhoneVerified)
        ensures
            r == (UserPhoneVerified { user_id, phone, occurred_at }),
    {
        UserPhoneVerified { user_id, phone, occurred_at }
    }
}

/// A user registered.
#[derive(Debug, Clone, PartialEq, Eq)]
pub struct UserRegistered {
    pub user_id: UserId,
    pub email: Email,
    pub occurred_at: OccurredAt,
}

impl UserRegistered {
    /// The event stamped with the current time.
    pub fn new(user_id: UserId, email: Email) -> (r: UserRegistered)
        ensures
            r.user_id == user_id,
            r.email == email,
    {
        UserRegistered::new_at(user_id, email, OccurredAt::now())
    }

    /// The event stamped with `occurred_at`.
    pub fn new_at(user_id: UserId, email: Email, occurred_at: OccurredAt) -> (r: UserRegistered)
        ensures
            r == (UserRegistered { user_id, email, occurred_at }),
    {
        UserRegistered { user_id, email, occurred_at }
    }
}

/// A user was suspended.
#[derive(Debug, Clone, PartialEq, Eq)]
pub struct UserSuspended {
    pub user_id: UserId,
    pub user_status: UserStatus,
    pub occurred_at: OccurredAt,
}

impl UserSuspended {
    /// The event stamped with the current time.
    pub fn new(user_id: UserId, user_status: UserStatus) -> (r: UserSuspended)
        ensures
            r.user_id == user_id,
            r.user_status == user_status,
    {
        UserSuspended::new_at(user_id, user_status, OccurredAt::now())
    }

    /// The event stamped with `occurred_at`.
    pub fn new_at(user_id: UserId, user_status: UserStatus, occurred_at: OccurredAt) -> (r: UserSuspended)
        ensures
            r == (UserSuspended { user_id, user_status, occurred_at }),
    {
        UserSuspended { user_id, user_status, occurred_at }
    }
}

/// A username was assigned to a user.
#[derive(Debug, Clone, PartialEq, Eq)]
pub struct UserUsernameAssigned {
    pub user_id: UserId,
    pub username: Username,
    pub occurred_at: OccurredAt,
}

impl UserUsernameAssigned {
    /// The event stamped with the current time.
    pub fn new(user_id: UserId, username: Username) -> (r: UserUsernameAssigned)
        ensures
            r.user_id == user_id,
            r.username == username,
    {
        UserUsernameAssigned::new_at(user_id, username, OccurredAt::now())
    }

    /// The event stamped with `occurred_at`.
    pub fn new_at(user_id: UserId, username: Username, occurred_at: OccurredAt) -> (r: UserUsernameAssigned)
        ensures
            r == (UserUsernameAssigned { user_id, username, occurred_at }),
    {
        UserUsernameAssigned { user_id, username, occurred_at }
    }
}

/// A user's e-mail address was replaced.
#[derive(Debug, Clone, PartialEq, Eq)]
pub struct UserEmailUpdated {
    pub user_id: UserId,
    pub old_email: Email,
    pub new_email: Email,
    pub occurred_at: OccurredAt,
}

impl UserEmailUpdated {
    /// The event stamped with the current time.
    pub fn new(user_id: UserId, old_email: Email, new_email: Email) -> (r: UserEmailUpdated)
        ensures
            r.user_id == user_id,
            r.old_email == old_email,
            r.new_email == new_email,
    {
        UserEmailUpdated::new_at(user_id, old_email, new_email, OccurredAt::now())
    }

    /// The event stamped with `occurred_at`.
    pub fn new_at(user_id: UserId, old_email: Email, new_email: Email, occurred_at: OccurredAt) -> (r: UserEmailUpdated)
        ensures
            r == (UserEmailUpdated { user_id, old_email, new_email, occurred_at }),
    {
        UserEmailUpdated { user_id, old_email, new_email, occurred_at }
    }
}

/// Every change that the `User` aggregate records.
#[derive(Debug, Clone, PartialEq, Eq)]
pub enum UserDomainEvent {
    Activated(UserActivated),
    Deleted(UserDeleted),
    EmailUpdated(UserEmailUpdated),
    EmailVerified(UserEmailVerified),
    ExternalIdLinked(UserExternalIdLinked),
    PhoneAssigned(UserPhoneAssigned),
    PhoneVerified(UserPhoneVerified),
    Registered(UserRegistered),
    Suspended(UserSuspended),
    UsernameAssigned(UserUsernameAssigned),
}

impl UserDomainEvent {
    /// The stable name of the kind of event.
    pub open spec fn name(self) -> Seq<char> {
        match self {
            UserDomainEvent::Activated(_) => "user_activated"@,
            UserDomainEvent::Deleted(_) => "user_deleted"@,
            UserDomainEvent::EmailUpdated(_) => "user_email_updated"@,
            UserDomainEvent::EmailVerified(_) => "user_email_verified"@,
            UserDomainEvent::ExternalIdLinked(_) => "user_external_id_linked"@,
            UserDomainEvent::PhoneAssigned(_) => "user_phone_assigned"@,
            UserDomainEvent::PhoneVerified(_) => "user_phone_verified"@,
            UserDomainEvent::Registered(_) => "user_registered"@,
            UserDomainEvent::Suspended(_) => "user_suspended"@,
            UserDomainEvent::UsernameAssigned(_) => "username_assigned"@,
        }
    }

    /// When the event happened.
    pub open spec fn instant(self) -> OccurredAt {
        match self {
            UserDomainEvent::Activated(e) => e.occurred_at,
            UserDomainEvent::Deleted(e) => e.occurred_at,
            UserDomainEvent::EmailUpdated(e) => e.occurred_at,
            UserDomainEvent::EmailVerified(e) => e.occurred_at,
            UserDomainEvent::ExternalIdLinked(e) => e.occurred_at,
            UserDomainEvent::PhoneAssigned(e) => e.occurred_at,
            UserDomainEvent::PhoneVerified(e) => e.occurred_at,
            UserDomainEvent::Registered(e) => e.occurred_at,
            UserDomainEvent::Suspended(e) => e.occurred_at,
            UserDomainEvent::UsernameAssigned(e) => e.occurred_at,
        }
    }

    pub fn event_name(&self) -> (r: &'static str)
        ensures
            r@ == self.name(),
    {
        match self {
            UserDomainEvent::Activated(_) => "user_activated",
            UserDomainEvent::Deleted(_) => "user_deleted",
            UserDomainEvent::EmailUpdated(_) => "user_email_updated",
            UserDomainEvent::EmailVerified(_) => "user_email_verified",
            UserDomainEvent::ExternalIdLinked(_) => "user_external_id_linked",
            UserDomainEvent::PhoneAssigned(_) => "user_phone_assigned",
            UserDomainEvent::PhoneVerified(_) => "user_phone_verified",
            UserDomainEvent::Registered(_) => "user_registered",
            UserDomainEvent::Suspended(_) => "user_suspended",
            UserDomainEvent::UsernameAssigned(_) => "username_assigned",
        }
    }

    pub fn occurred_at(&self) -> (r: OccurredAt)
        ensures
            r == self.instant(),
    {
        match self {
            UserDomainEvent::Activated(e) => e.occurred_at,
            UserDomainEvent::Deleted(e) => e.occurred_at,
            UserDomainEvent::EmailUpdated(e) => e.occurred_at,
            UserDomainEvent::EmailVerified(e) => e.occurred_at,
            UserDomainEvent::ExternalIdLinked(e) => e.occurred_at,
            UserDomainEvent::PhoneAssigned(e) => e.occurred_at,
            UserDomainEvent::PhoneVerified(e) => e.occurred_at,
            UserDomainEvent::Registered(e) => e.occurred_at,
            UserDomainEvent::Suspended(e) => e.occurred_at,
            UserDomainEvent::UsernameAssigned(e) => e.occurred_at,
        }
    }

    /// The user the event is about.
    pub fn user_id(&self) -> (r: UserId)
        ensures
            r == self.subject(),
    {
        match self {
            UserDomainEvent::Activated(e) => e.user_id,
            UserDomainEvent::Deleted(e) => e.user_id,
            UserDomainEvent::EmailUpdated(e) => e.user_id,
            UserDomainEvent::EmailVerified(e) => e.user_id,
            UserDomainEvent::ExternalIdLinked(e) => e.user_id,
            UserDomainEvent::PhoneAssigned(e) => e.user_id,
            UserDomainEvent::PhoneVerified(e) => e.user_id,
            UserDomainEvent::Registered(e) => e.user_id,
            UserDomainEvent::Suspended(e) => e.user_id,
            UserDomainEvent::UsernameAssigned(e) => e.user_id,
        }
    }

    pub open spec fn subject(self) -> UserId {
        match self {
            UserDomainEvent::Activated(e) => e.user_id,
            UserDomainEvent::Deleted(e) => e.user_id,
            UserDomainEvent::EmailUpdated(e) => e.user_id,
            UserDomainEvent::EmailVerified(e) => e.user_id,
            UserDomainEvent::ExternalIdLinked(e) => e.user_id,
            UserDomainEvent::PhoneAssigned(e) => e.user_id,
            UserDomainEvent::PhoneVerified(e) => e.user_id,
            UserDomainEvent::Registered(e) => e.user_id,
            UserDomainEvent::Suspended(e) => e.user_id,
            UserDomainEvent::UsernameAssigned(e) => e.user_id,
        }
    }
}

/// A subscription was renewed.
#[derive(Debug, Clone, PartialEq, Eq)]
pub struct SubscriptionRenewed {
    pub user_id: uuid::Uuid,
    pub subscription_id: uuid::Uuid,
    pub renewed_at: OccurredAt,
    pub new_expiration_date: OccurredAt,
}

impl SubscriptionRenewed {
    pub fn new(
        user_id: uuid::Uuid,
        subscription_id: uuid::Uuid,
        renewed_at: OccurredAt,
        new_expiration_date: OccurredAt,
    ) -> (r: SubscriptionRenewed)
        ensures
            r == (SubscriptionRenewed { user_id, subscription_id, renewed_at, new_expiration_date }),
    {
        SubscriptionRenewed { user_id, subscription_id, renewed_at, new_expiration_date }
    }
}

/// A user signed in.
#[derive(Debug, Clone, PartialEq, Eq)]
pub struct UserLoggedIn {
    pub user_id: uuid::Uuid,
    pub session_id: uuid::Uuid,
    /// The client's address, as text.
    pub ip_address: Option<String>,
    pub user_agent: Option<String>,
    pub logged_in_at: OccurredAt,
}

impl UserLoggedIn {
    pub fn new(
        user_id: uuid::Uuid,
        session_id: uuid::Uuid,
        ip_address: Option<String>,
        user_agent: Option<String>,
        logged_in_at: OccurredAt,
    ) -> (r: UserLoggedIn)
        ensures
            r == (UserLoggedIn { user_id, session_id, ip_address, user_agent, logged_in_at }),
    {
        UserLoggedIn { user_id, session_id, ip_address, user_agent, logged_in_at }
    }
}

/// The events handed to a publisher outside the domain.
#[derive(Debug, Clone, PartialEq, Eq)]
pub enum DomainEvent {
    UserRegistered(UserRegistered),
    UserEmailVerified(UserEmailVerified),
    UserPhoneVerified(UserPhoneVerified),
    UserLoggedIn(UserLoggedIn),
    SubscriptionRenewed(SubscriptionRenewed),
}

} // verus!
