//! Registering a new user whose address and username are not taken yet.
use vstd::prelude::*;

use crate::email::{email_accepts, email_canonical, Email};
use crate::factory::username_code;
use crate::ids::{OccurredAt, UserId};
use crate::repositories::UserRepository;
use crate::status::UserStatus;
use crate::user::User;
use crate::username::{username_accepts, username_canonical, Username};
use crate::validation_error::ValidationError;

verus! {

pub struct UserRegistrationService<R: UserRepository> {
    repository: R,
}

impl<R: UserRepository> UserRegistrationService<R> {
    pub fn new(repository: R) -> (r: Self)
        ensures
            r.repository() == repository,
    {
        UserRegistrationService { repository }
    }

    pub closed spec fn repository(&self) -> R {
        self.repository
    }

    /// Gives the repository back.
    pub fn into_repository(self) -> (r: R)
        ensures
            r == self.repository(),
    {
        self.repository
    }

    /// Validates the address and the username, refuses either when the
    /// repository already holds it, then registers, stores and returns the
    /// user, stamped with the current time and a fresh identifier.
    pub fn register_user(&mut self, email_raw: &str, username_raw: &str) -> (r: Result<
        User,
        ValidationError,
    >)
        ensures
            !email_accepts(email_raw@) ==> r == Err::<User, ValidationError>(
                ValidationError::InvalidEmail,
            ),
            email_accepts(email_raw@) && !username_accepts(username_raw@) ==> r == Err::<
                User,
                ValidationError,
            >(username_code(username_raw@)),
            r matches Ok(u) ==> {
                &&& email_accepts(email_raw@)
                &&& username_accepts(username_raw@)
                &&& u@.wf()
                &&& u@.email@ == email_canonical(email_raw@)
                &&& u@.username is Some
                &&& u@.username->0@ == username_canonical(username_raw@)
                &&& u@.status == UserStatus::Pending
                &&& !u@.email_verified
            },
    {
        let email = match Email::try_from(email_raw) {
            Ok(e) => e,
            Err(_) => {
                return Err(ValidationError::InvalidEmail);
            },
        };
        let username = match Username::try_from(username_raw) {
            Ok(u) => u,
            Err(e) => {
                return Err(ValidationError::code(&e));
            },
        };
        match self.repository.exists_by_email(email.as_str()) {
            Ok(true) => {
                return Err(ValidationError::InvalidEmail);
            },
            Ok(false) => {},
            Err(e) => {
                return Err(e);
            },
        }
        match self.repository.exists_by_username(username.as_str()) {
            Ok(true) => {
                return Err(ValidationError::InvalidUsernameFormat);
            },
            Ok(false) => {},
            Err(e) => {
                return Err(e);
            },
        }
        let now = OccurredAt::now();
        let mut user = User::register_with(UserId::new(), email, now);
        let _ = user.assign_username_at(username, now);
        match self.repository.save(&user) {
            Ok(()) => Ok(user),
            Err(e) => Err(e),
        }
    }
}

} // verus!
