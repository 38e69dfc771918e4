//! The `User` aggregate: its lifecycle state machine, the rules tying its
//! fields together, and the buffer of events its operations record.
use vstd::prelude::*;

use crate::email::Email;
use crate::errors::{CategoryError, TypeError, UserDomainError};
use crate::events::{
    UserActivated, UserDeleted, UserDomainEvent, UserEmailUpdated, UserEmailVerified,
    UserExternalIdLinked, UserPhoneAssigned, UserPhoneVerified, UserRegistered, UserSuspended,
    UserUsernameAssigned,
};
use crate::external_id::ExternalId;
use crate::ids::{OccurredAt, UserId};
use crate::phone::Phone;
use crate::status::UserStatus;
use crate::username::Username;

verus! {

/// Everything a user holds, as seen by the contracts.
pub struct UserView {
    pub id: UserId,
    pub external_id: Option<ExternalId>,
    pub username: Option<Username>,
    pub email: Email,
    pub email_verified: bool,
    pub phone: Option<Phone>,
    pub phone_verified: bool,
    pub status: UserStatus,
    pub created_at: OccurredAt,
    pub updated_at: OccurredAt,
    pub deleted_at: Option<OccurredAt>,
    pub events: Seq<UserDomainEvent>,
}

/// The error of a status change that the lifecycle does not allow.
pub open spec fn transition_error(from: UserStatus, to: UserStatus) -> UserDomainError {
    UserDomainError { category: CategoryError::Status, detail: TypeError::Transition { from, to } }
}

impl UserView {
    /// A deleted user, and only a deleted one, carries its deletion time; a
    /// verified phone is an assigned one.
    pub open spec fn wf(self) -> bool {
        &&& (self.status == UserStatus::Deleted <==> self.deleted_at is Some)
        &&& (self.phone_verified ==> self.phone is Some)
    }

    /// A new user: pending, nothing verified, one `Registered` event.
    pub open spec fn registered(id: UserId, email: Email, now: OccurredAt) -> UserView {
        UserView {
            id,
            external_id: None,
            username: None,
            email,
            email_verified: false,
            phone: None,
            phone_verified: false,
            status: UserStatus::Pending,
            created_at: now,
            updated_at: now,
            deleted_at: None,
            events: seq![
                UserDomainEvent::Registered(UserRegistered { user_id: id, email, occurred_at: now }),
            ],
        }
    }

    /// `self` stamped at `now` with `e` recorded.
    pub open spec fn touched(self, now: OccurredAt, e: UserDomainEvent) -> UserView {
        UserView { updated_at: now, events: self.events.push(e), ..self }
    }

    /// Why activation is refused, if it is: only a pending or suspended user may become active.
    pub open spec fn activation_error(self) -> Option<UserDomainError> {
        if self.status == UserStatus::Pending || self.status == UserStatus::Suspended {
            None
        } else {
            Some(transition_error(self.status, UserStatus::Active))
        }
    }

    pub open spec fn activated(self, now: OccurredAt) -> UserView {
        UserView { status: UserStatus::Active, ..self }.touched(
            now,
            UserDomainEvent::Activated(
                UserActivated {
                    user_id: self.id,
                    user_status: UserStatus::Active,
                    occurred_at: now,
                },
            ),
        )
    }

    /// Why suspension is refused, if it is: only an active user may be suspended.
    pub open spec fn suspension_error(self) -> Option<UserDomainError> {
        if self.status == UserStatus::Active {
            None
        } else {
            Some(transition_error(self.status, UserStatus::Suspended))
        }
    }

    pub open spec fn suspended(self, now: OccurredAt) -> UserView {
        UserView { status: UserStatus::Suspended, ..self }.touched(
            now,
            UserDomainEvent::Suspended(
                UserSuspended {
                    user_id: self.id,
                    user_status: UserStatus::Suspended,
                    occurred_at: now,
                },
            ),
        )
    }

    /// Why deletion is refused, if it is: a deleted user cannot be deleted again.
    pub open spec fn deletion_error(self) -> Option<UserDomainError> {
        if self.status != UserStatus::Deleted {
            None
        } else {
            Some(transition_error(self.status, UserStatus::Deleted))
        }
    }

    pub open spec fn deleted(self, now: OccurredAt) -> UserView {
        UserView { status: UserStatus::Deleted, deleted_at: Some(now), ..self }.touched(
            now,
            UserDomainEvent::Deleted(
                UserDeleted { user_id: self.id, user_status: UserStatus::Deleted, occurred_at: now },
            ),
        )
    }

    /// Why an e-mail verification is refused, if it is: a verified address
    /// cannot be verified again, and a suspended or deleted user verifies nothing.
    pub open spec fn email_verification_error(self) -> Option<UserDomainError> {
        if self.email_verified {
            Some(UserDomainError { category: CategoryError::Email, detail: TypeError::AlreadyVerified })
        } else if self.status == UserStatus::Suspended || self.status == UserStatus::Deleted {
            Some(
                UserDomainError {
                    category: CategoryError::Email,
                    detail: TypeError::InvalidStatus { status: self.status },
                },
            )
        } else {
            None
        }
    }

    pub open spec fn email_verified(self, now: OccurredAt) -> UserView {
        UserView { email_verified: true, ..self }.touched(
            now,
            UserDomainEvent::EmailVerified(
                UserEmailVerified { user_id: self.id, email: self.email, occurred_at: now },
            ),
        )
    }

    /// Why a phone verification is refused, if it is: there must be a phone,
    /// and it must not be verified yet.
    pub open spec fn phone_verification_error(self) -> Option<UserDomainError> {
        if self.phone is None {
            Some(UserDomainError { category: CategoryError::Phone, detail: TypeError::Missing })
        } else if self.phone_verified {
            Some(UserDomainError { category: CategoryError::Phone, detail: TypeError::AlreadyVerified })
        } else {
            None
        }
    }

    pub open spec fn phone_verified(self, now: OccurredAt) -> UserView {
        UserView { phone_verified: true, ..self }.touched(
            now,
            UserDomainEvent::PhoneVerified(
                UserPhoneVerified { user_id: self.id, phone: self.phone->0, occurred_at: now },
            ),
        )
    }

    /// Whether an e-mail change to `email` is refused because it is the current address.
    pub open spec fn email_unchanged(self, email: Email) -> bool {
        self.email@ == email@
    }

    /// Whether an e-mail change is refused because the user is deleted, and so
    /// can no longer change status.
    pub open spec fn email_change_blocked(self, email: Email) -> bool {
        !self.email_unchanged(email) && self.status == UserStatus::Deleted
    }

    /// The new address in place, unverified, and the user pending again.
    pub open spec fn email_updated(self, email: Email, now: OccurredAt) -> UserView {
        UserView { email, email_verified: false, status: UserStatus::Pending, ..self }.touched(
            now,
            UserDomainEvent::EmailUpdated(
                UserEmailUpdated {
                    user_id: self.id,
                    old_email: self.email,
                    new_email: email,
                    occurred_at: now,
                },
            ),
        )
    }

    pub open spec fn phone_assigned(self, phone: Phone, now: OccurredAt) -> UserView {
        UserView { phone: Some(phone), phone_verified: false, ..self }.touched(
            now,
            UserDomainEvent::PhoneAssigned(
                UserPhoneAssigned { user_id: self.id, phone, occurred_at: now },
            ),
        )
    }

    pub open spec fn username_assigned(self, username: Username, now: OccurredAt) -> UserView {
        UserView { username: Some(username), ..self }.touched(
            now,
            UserDomainEvent::UsernameAssigned(
                UserUsernameAssigned { user_id: self.id, username, occurred_at: now },
            ),
        )
    }

    pub open spec fn external_id_linked(self, external_id: ExternalId, now: OccurredAt) -> UserView {
        UserView { external_id: Some(external_id), ..self }.touched(
            now,
            UserDomainEvent::ExternalIdLinked(
                UserExternalIdLinked { user_id: self.id, external_id, occurred_at: now },
            ),
        )
    }

    /// `self` with its event buffer emptied.
    pub open spec fn drained(self) -> UserView {
        UserView { events: Seq::empty(), ..self }
    }
}

/// A user of the system. Built only by [`User::register`] and changed only
/// through its methods.
pub struct User {
    id: UserId,
    external_id: Option<ExternalId>,
    username: Option<Username>,
    email: Email,
    email_verified: bool,
    phone: Option<Phone>,
    phone_verified: bool,
    status: UserStatus,
    created_at: OccurredAt,
    updated_at: OccurredAt,
    deleted_at: Option<OccurredAt>,
    pending_events: Vec<UserDomainEvent>,
}

impl View for User {
    type V = UserView;

    closed spec fn view(&self) -> UserView {
        UserView {
            id: self.id,
            external_id: self.external_id,
            username: self.username,
            email: self.email,
            email_verified: self.email_verified,
            phone: self.phone,
            phone_verified: self.phone_verified,
            status: self.status,
            created_at: self.created_at,
            updated_at: self.updated_at,
            deleted_at: self.deleted_at,
            events: self.pending_events@,
        }
    }
}

impl User {
    /// Registers a user with a fresh identifier, stamped with the current time.
    pub fn register(email: Email) -> (r: User)
        ensures
            r@ == UserView::registered(r@.id, email, r@.created_at),
            r@.wf(),
    {
        User::register_with(UserId::new(), email, OccurredAt::now())
    }

    /// Registers a user with the given identifier at `now`.
    pub fn register_with(id: UserId, email: Email, now: OccurredAt) -> (r: User)
        ensures
            r@ == UserView::registered(id, email, now),
            r@.wf(),
    {
        let event = UserRegistered::new_at(id, email.duplicate(), now);
        let mut pending_events: Vec<UserDomainEvent> = Vec::new();
        pending_events.push(UserDomainEvent::Registered(event));
        let r = User {
            id,
            external_id: None,
            username: None,
            email,
            email_verified: false,
            phone: None,
            phone_verified: false,
            status: UserStatus::Pending,
            created_at: now,
            updated_at: now,
            deleted_at: None,
            pending_events,
        };
        assert(r@.events =~= UserView::registered(id, email, now).events);
        r
    }

    fn record_event(&mut self, now: OccurredAt, event: UserDomainEvent)
        ensures
            final(self)@ == old(self)@.touched(now, event),
    {
        self.updated_at = now;
        self.pending_events.push(event);
    }

    /// Hands over the recorded events, oldest first, and empties the buffer.
    pub fn take_events(&mut self) -> (r: Vec<UserDomainEvent>)
        ensures
            r@ == old(self)@.events,
            final(self)@ == old(self)@.drained(),
    {
        let mut taken: Vec<UserDomainEvent> = Vec::new();
        std::mem::swap(&mut taken, &mut self.pending_events);
        assert(self@ =~= old(self)@.drained());
        taken
    }

    pub fn id(&self) -> (r: &UserId)
        ensures
            *r == self@.id,
    {
        &self.id
    }

    pub fn email(&self) -> (r: &Email)
        ensures
            *r == self@.email,
    {
        &self.email
    }

    pub fn email_verified(&self) -> (r: bool)
        ensures
            r == self@.email_verified,
    {
        self.email_verified
    }

    pub fn phone(&self) -> (r: Option<&Phone>)
        ensures
            r == match self@.phone {
                Some(p) => Some(&p),
                None => None::<&Phone>,
            },
    {
        match &self.phone {
            Some(p) => Some(p),
            None => None,
        }
    }

    pub fn phone_verified(&self) -> (r: bool)
        ensures
            r == self@.phone_verified,
    {
        self.phone_verified
    }

    pub fn status(&self) -> (r: &UserStatus)
        ensures
            *r == self@.status,
    {
        &self.status
    }

    pub fn username(&self) -> (r: Option<&Username>)
        ensures
            r == match self@.username {
                Some(u) => Some(&u),
                None => None::<&Username>,
            },
    {
        match &self.username {
            Some(u) => Some(u),
            None => None,
        }
    }

    pub fn external_id(&self) -> (r: Option<&ExternalId>)
        ensures
            r == match self@.external_id {
                Some(x) => Some(&x),
                None => None::<&ExternalId>,
            },
    {
        match &self.external_id {
            Some(x) => Some(x),
            None => None,
        }
    }

    pub fn created_at(&self) -> (r: &OccurredAt)
        ensures
            *r == self@.created_at,
    {
        &self.created_at
    }

    pub fn updated_at(&self) -> (r: &OccurredAt)
        ensures
            *r == self@.updated_at,
    {
        &self.updated_at
    }

    pub fn deleted_at(&self) -> (r: Option<&OccurredAt>)
        ensures
            r == match self@.deleted_at {
                Some(t) => Some(&t),
                None => None::<&OccurredAt>,
            },
    {
        match &self.deleted_at {
            Some(t) => Some(t),
            None => None,
        }
    }

    /// Activates the user at `now`; only a pending or suspended user may become active.
    pub fn activate_at(&mut self, now: OccurredAt) -> (r: Result<(), UserDomainError>)
        requires
            old(self)@.wf(),
        ensures
            final(self)@.wf(),
            match old(self)@.activation_error() {
                None => r is Ok && final(self)@ == old(self)@.activated(now),
                Some(e) => r == Err::<(), UserDomainError>(e) && final(self)@ == old(self)@,
            },
    {
        match self.status {
            UserStatus::Pending | UserStatus::Suspended => {
                self.status = UserStatus::Active;
                let event = UserActivated::new_at(self.id, UserStatus::Active, now);
                self.record_event(now, UserDomainEvent::Activated(event));
                Ok(())
            },
            _ => Err(
                UserDomainError::new(
                    CategoryError::Status,
                    TypeError::Transition { from: self.status, to: UserStatus::Active },
                ),
            ),
        }
    }

    /// Activates the user, stamped with the current time.
    pub fn activate(&mut self) -> (r: Result<(), UserDomainError>)
        requires
            old(self)@.wf(),
        ensures
            final(self)@.wf(),
            match old(self)@.activation_error() {
                None => r is Ok && final(self)@ == old(self)@.activated(final(self)@.updated_at),
                Some(e) => r == Err::<(), UserDomainError>(e) && final(self)@ == old(self)@,
            },
    {
        self.activate_at(OccurredAt::now())
    }

    /// Suspends the user at `now`; only an active user may be suspended.
    pub fn suspend_at(&mut self, now: OccurredAt) -> (r: Result<(), UserDomainError>)
        requires
            old(self)@.wf(),
        ensures
            final(self)@.wf(),
            match old(self)@.suspension_error() {
                None => r is Ok && final(self)@ == old(self)@.suspended(now),
                Some(e) => r == Err::<(), UserDomainError>(e) && final(self)@ == old(self)@,
            },
    {
        match self.status {
            UserStatus::Active => {
                self.status = UserStatus::Suspended;
                let event = UserSuspended::new_at(self.id, UserStatus::Suspended, now);
                self.record_event(now, UserDomainEvent::Suspended(event));
                Ok(())
            },
            _ => Err(
                UserDomainError::new(
                    CategoryError::Status,
                    TypeError::Transition { from: self.status, to: UserStatus::Suspended },
                ),
            ),
        }
    }

    /// Suspends the user, stamped with the current time.
    pub fn suspend(&mut self) -> (r: Result<(), UserDomainError>)
        requires
            old(self)@.wf(),
        ensures
            final(self)@.wf(),
            match old(self)@.suspension_error() {
                None => r is Ok && final(self)@ == old(self)@.suspended(final(self)@.updated_at),
                Some(e) => r == Err::<(), UserDomainError>(e) && final(self)@ == old(self)@,
            },
    {
        self.suspend_at(OccurredAt::now())
    }

    /// Soft-deletes the user at `now`; deletion is final.
    pub fn delete_at(&mut self, now: OccurredAt) -> (r: Result<(), UserDomainError>)
        requires
            old(self)@.wf(),
        ensures
            final(self)@.wf(),
            match old(self)@.deletion_error() {
                None => r is Ok && final(self)@ == old(self)@.deleted(now),
                Some(e) => r == Err::<(), UserDomainError>(e) && final(self)@ == old(self)@,
            },
    {
        match self.status {
            UserStatus::Active | UserStatus::Pending | UserStatus::Suspended => {
                self.status = UserStatus::Deleted;
                self.deleted_at = Some(now);
                let event = UserDeleted::new_at(self.id, UserStatus::Deleted, now);
                self.record_event(now, UserDomainEvent::Deleted(event));
                Ok(())
            },
            _ => Err(
                UserDomainError::new(
                    CategoryError::Status,
                    TypeError::Transition { from: self.status, to: UserStatus::Deleted },
                ),
            ),
        }
    }

    /// Soft-deletes the user, stamped with the current time.
    pub fn delete(&mut self) -> (r: Result<(), UserDomainError>)
        requires
            old(self)@.wf(),
        ensures
            final(self)@.wf(),
            match old(self)@.deletion_error() {
                None => r is Ok && final(self)@ == old(self)@.deleted(final(self)@.updated_at),
                Some(e) => r == Err::<(), UserDomainError>(e) && final(self)@ == old(self)@,
            },
    {
        self.delete_at(OccurredAt::now())
    }

    /// Marks the e-mail address verified at `now`.
    pub fn verify_email_at(&mut self, now: OccurredAt) -> (r: Result<(), UserDomainError>)
        requires
            old(self)@.wf(),
        ensures
            final(self)@.wf(),
            match old(self)@.email_verification_error() {
                None => r is Ok && final(self)@ == old(self)@.email_verified(now),
                Some(e) => r == Err::<(), UserDomainError>(e) && final(self)@ == old(self)@,
            },
    {
        if self.email_verified {
            return Err(UserDomainError::new(CategoryError::Email, TypeError::AlreadyVerified));
        }
        if self.status.is_suspended() || self.status.is_deleted() {
            return Err(
                UserDomainError::new(
                    CategoryError::Email,
                    TypeError::InvalidStatus { status: self.status },
                ),
            );
        }
        self.email_verified = true;
        let event = UserEmailVerified::new_at(self.id, self.email.duplicate(), now);
        self.record_event(now, UserDomainEvent::EmailVerified(event));
        Ok(())
    }

    /// Marks the e-mail address verified, stamped with the current time.
    pub fn verify_email(&mut self) -> (r: Result<(), UserDomainError>)
        requires
            old(self)@.wf(),
        ensures
            final(self)@.wf(),
            match old(self)@.email_verification_error() {
                None => r is Ok && final(self)@ == old(self)@.email_verified(final(self)@.updated_at),
                Some(e) => r == Err::<(), UserDomainError>(e) && final(self)@ == old(self)@,
            },
    {
        self.verify_email_at(OccurredAt::now())
    }

    /// Marks the phone number verified at `now`.
    pub fn verify_phone_at(&mut self, now: OccurredAt) -> (r: Result<(), UserDomainError>)
        requires
            old(self)@.wf(),
        ensures
            final(self)@.wf(),
            match old(self)@.phone_verification_error() {
                None => r is Ok && final(self)@ == old(self)@.phone_verified(now),
                Some(e) => r == Err::<(), UserDomainError>(e) && final(self)@ == old(self)@,
            },
    {
        let phone = match &self.phone {
            Some(p) => p.duplicate(),
            None => {
                return Err(UserDomainError::new(CategoryError::Phone, TypeError::Missing));
            },
        };
        if self.phone_verified {
            return Err(UserDomainError::new(CategoryError::Phone, TypeError::AlreadyVerified));
        }
        self.phone_verified = true;
        let event = UserPhoneVerified::new_at(self.id, phone, now);
        self.record_event(now, UserDomainEvent::PhoneVerified(event));
        Ok(())
    }

    /// Marks the phone number verified, stamped with the current time.
    pub fn verify_phone(&mut self) -> (r: Result<(), UserDomainError>)
        requires
            old(self)@.wf(),
        ensures
            final(self)@.wf(),
            match old(self)@.phone_verification_error() {
                None => r is Ok && final(self)@ == old(self)@.phone_verified(final(self)@.updated_at),
                Some(e) => r == Err::<(), UserDomainError>(e) && final(self)@ == old(self)@,
            },
    {
        self.verify_phone_at(OccurredAt::now())
    }

    /// Replaces the e-mail address at `now`: the new address is unverified and
    /// the user is pending again. The current address is refused as `Unchanged`;
    /// a deleted user, whose status is final, is refused as `InvalidStatus`.
    pub fn update_email_at(&mut self, new_email: Email, now: OccurredAt) -> (r: Result<
        (),
        UserDomainError,
    >)
        requires
            old(self)@.wf(),
        ensures
            final(self)@.wf(),
            old(self)@.email_unchanged(new_email) ==> r is Err && final(self)@ == old(self)@
                && r->Err_0.category == CategoryError::Email && (r->Err_0.detail matches TypeError::Unchanged { value }
                && value@ == "new email '"@ + new_email@ + "' is equal to old email '"@
                + old(self)@.email@ + "'"@),
            old(self)@.email_change_blocked(new_email) ==> r == Err::<(), UserDomainError>(
                UserDomainError {
                    category: CategoryError::Email,
                    detail: TypeError::InvalidStatus { status: UserStatus::Deleted },
                },
            ) && final(self)@ == old(self)@,
            !old(self)@.email_unchanged(new_email) && !old(self)@.email_change_blocked(new_email)
                ==> r is Ok && final(self)@ == old(self)@.email_updated(new_email, now),
    {
        if self.email == new_email {
            let value = String::from_str("new email '").concat(new_email.as_str()).concat(
                "' is equal to old email '",
            ).concat(self.email.as_str()).concat("'");
            return Err(UserDomainError::new(CategoryError::Email, TypeError::Unchanged { value }));
        }
        if self.status.is_deleted() {
            return Err(
                UserDomainError::new(
                    CategoryError::Email,
                    TypeError::InvalidStatus { status: UserStatus::Deleted },
                ),
            );
        }
        let old_email = self.email.duplicate();
        self.email = new_email;
        self.email_verified = false;
        self.status = UserStatus::Pending;
        let event = UserEmailUpdated::new_at(self.id, old_email, self.email.duplicate(), now);
        self.record_event(now, UserDomainEvent::EmailUpdated(event));
        Ok(())
    }

    /// Replaces the e-mail address, stamped with the current time.
    pub fn update_email(&mut self, new_email: Email) -> (r: Result<(), UserDomainError>)
        requires
            old(self)@.wf(),
        ensures
            final(self)@.wf(),
            old(self)@.email_unchanged(new_email) ==> r is Err && final(self)@ == old(self)@
                && r->Err_0.category == CategoryError::Email && (r->Err_0.detail matches TypeError::Unchanged { value }
                && value@ == "new email '"@ + new_email@ + "' is equal to old email '"@
                + old(self)@.email@ + "'"@),
            old(self)@.email_change_blocked(new_email) ==> r == Err::<(), UserDomainError>(
                UserDomainError {
                    category: CategoryError::Email,
                    detail: TypeError::InvalidStatus { status: UserStatus::Deleted },
                },
            ) && final(self)@ == old(self)@,
            !old(self)@.email_unchanged(new_email) && !old(self)@.email_change_blocked(new_email)
                ==> r is Ok && final(self)@ == old(self)@.email_updated(
                new_email,
                final(self)@.updated_at,
            ),
    {
        self.update_email_at(new_email, OccurredAt::now())
    }

    /// Assigns a phone number at `now`; it starts unverified.
    pub fn assign_phone_at(&mut self, phone: Phone, now: OccurredAt) -> (r: Result<(), UserDomainError>)
        requires
            old(self)@.wf(),
        ensures
            final(self)@.wf(),
            r is Ok,
            final(self)@ == old(self)@.phone_assigned(phone, now),
    {
        let event = UserPhoneAssigned::new_at(self.id, phone.duplicate(), now);
        self.phone = Some(phone);
        self.phone_verified = false;
        self.record_event(now, UserDomainEvent::PhoneAssigned(event));
        Ok(())
    }

    /// Assigns a phone number, stamped with the current time.
    pub fn assign_phone(&mut self, phone: Phone) -> (r: Result<(), UserDomainError>)
        requires
            old(self)@.wf(),
        ensures
            final(self)@.wf(),
            r is Ok,
            final(self)@ == old(self)@.phone_assigned(phone, final(self)@.updated_at),
    {
        self.assign_phone_at(phone, OccurredAt::now())
    }

    /// Assigns a username at `now`.
    pub fn assign_username_at(&mut self, username: Username, now: OccurredAt) -> (r: Result<
        (),
        UserDomainError,
    >)
        requires
            old(self)@.wf(),
        ensures
            final(self)@.wf(),
            r is Ok,
            final(self)@ == old(self)@.username_assigned(username, now),
    {
        let event = UserUsernameAssigned::new_at(self.id, username.duplicate(), now);
        self.username = Some(username);
        self.record_event(now, UserDomainEvent::UsernameAssigned(event));
        Ok(())
    }

    /// Assigns a username, stamped with the current time.
    pub fn assign_username(&mut self, username: Username) -> (r: Result<(), UserDomainError>)
        requires
            old(self)@.wf(),
        ensures
            final(self)@.wf(),
            r is Ok,
            final(self)@ == old(self)@.username_assigned(username, final(self)@.updated_at),
    {
        self.assign_username_at(username, OccurredAt::now())
    }

    /// Links an outside identifier at `now`.
    pub fn link_external_id_at(&mut self, external_id: ExternalId, now: OccurredAt) -> (r: Result<
        (),
        UserDomainError,
    >)
        requires
            old(self)@.wf(),
        ensures
            final(self)@.wf(),
            r is Ok,
            final(self)@ == old(self)@.external_id_linked(external_id, now),
    {
        let event = UserExternalIdLinked::new_at(self.id, external_id.duplicate(), now);
        self.external_id = Some(external_id);
        self.record_event(now, UserDomainEvent::ExternalIdLinked(event));
        Ok(())
    }

    /// Links an outside identifier, stamped with the current time.
    pub fn link_external_id(&mut self, external_id: ExternalId) -> (r: Result<(), UserDomainError>)
        requires
            old(self)@.wf(),
        ensures
            final(self)@.wf(),
            r is Ok,
            final(self)@ == old(self)@.external_id_linked(external_id, final(self)@.updated_at),
    {
        self.link_external_id_at(external_id, OccurredAt::now())
    }
}

/// Once a deletion has succeeded, activating, suspending and deleting again all fail.
pub proof fn lemma_delete_is_terminal(u: UserView, now: OccurredAt)
    requires
        u.deletion_error() is None,
    ensures
        u.deleted(now).status == UserStatus::Deleted,
        u.deleted(now).activation_error() is Some,
        u.deleted(now).suspension_error() is Some,
        u.deleted(now).deletion_error() is Some,
{
}

/// Changing to the current address always fails as `Unchanged`; changing a
/// user who is not deleted to another address always leaves the address
/// unverified and the user pending.
pub proof fn lemma_update_email_resets(u: UserView, email: Email, now: OccurredAt)
    ensures
        email@ == u.email@ ==> u.email_unchanged(email) && !u.email_change_blocked(email),
        email@ != u.email@ && u.status != UserStatus::Deleted ==> {
            &&& !u.email_unchanged(email)
            &&& !u.email_change_blocked(email)
            &&& !u.email_updated(email, now).email_verified
            &&& u.email_updated(email, now).status == UserStatus::Pending
            &&& u.email_updated(email, now).email == email
        },
{
}

/// Without a phone, verification fails as `Missing`; after a phone is
/// assigned, verification succeeds once and then fails as `AlreadyVerified`.
pub proof fn lemma_phone_verified_once(
    u: UserView,
    phone: Phone,
    assigned_at: OccurredAt,
    verified_at: OccurredAt,
)
    ensures
        u.phone is None ==> u.phone_verification_error() == Some(
            UserDomainError { category: CategoryError::Phone, detail: TypeError::Missing },
        ),
        u.phone_assigned(phone, assigned_at).phone_verification_error() is None,
        u.phone_assigned(phone, assigned_at).phone_verified(verified_at).phone_verified,
        u.phone_assigned(phone, assigned_at).phone_verified(verified_at).phone_verification_error()
            == Some(
            UserDomainError { category: CategoryError::Phone, detail: TypeError::AlreadyVerified },
        ),
{
}

/// Taking the events of a user that has some gives them all; taking again
/// right after gives none.
pub proof fn lemma_take_events_drains(u: UserView)
    requires
        u.events.len() > 0,
    ensures
        u.events.len() > 0,
        u.drained().events.len() == 0,
        u.drained().drained().events.len() == 0,
{
}

/// Every operation keeps a well-formed user well-formed.
pub proof fn lemma_operations_keep_wf(
    u: UserView,
    now: OccurredAt,
    email: Email,
    phone: Phone,
    username: Username,
    external_id: ExternalId,
)
    requires
        u.wf(),
    ensures
        u.activation_error() is None ==> u.activated(now).wf(),
        u.suspension_error() is None ==> u.suspended(now).wf(),
        u.deletion_error() is None ==> u.deleted(now).wf(),
        u.email_verification_error() is None ==> u.email_verified(now).wf(),
        u.phone_verification_error() is None ==> u.phone_verified(now).wf(),
        !u.email_unchanged(email) && !u.email_change_blocked(email) ==> u.email_updated(
            email,
            now,
        ).wf(),
        u.phone_assigned(phone, now).wf(),
        u.username_assigned(username, now).wf(),
        u.external_id_linked(external_id, now).wf(),
        u.drained().wf(),
{
}

} // verus!
