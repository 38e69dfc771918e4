//! The stored credentials of a user: a password hash and its bookkeeping.
use vstd::prelude::*;

use crate::ids::OccurredAt;
use crate::text::{trim_text, trimmed};
use crate::validation_error::ValidationError;

verus! {

#[derive(Debug, Clone, PartialEq)]
pub struct UserPassword {
    pub password_id: uuid::Uuid,
    pub user_id: uuid::Uuid,
    pub password_hash: String,
    pub password_salt: Option<String>,
    pub reset_token: Option<String>,
    pub reset_token_expires: Option<OccurredAt>,
    pub failed_attempts: i32,
    pub locked_until: Option<OccurredAt>,
    pub created_at: OccurredAt,
    pub updated_at: OccurredAt,
}

impl UserPassword {
    /// Credentials with a non-blank hash; missing counters start at zero and
    /// missing times default to the current time.
    pub fn new(
        password_id: uuid::Uuid,
        user_id: uuid::Uuid,
        password_hash: String,
        password_salt: Option<String>,
        reset_token: Option<String>,
        reset_token_expires: Option<OccurredAt>,
        failed_attempts: Option<i32>,
        locked_until: Option<OccurredAt>,
        created_at: Option<OccurredAt>,
        updated_at: Option<OccurredAt>,
    ) -> (r: Result<UserPassword, ValidationError>)
        ensures
            trimmed(password_hash@).len() == 0 ==> r == Err::<UserPassword, ValidationError>(
                ValidationError::InvalidPassword,
            ),
            trimmed(password_hash@).len() > 0 ==> r is Ok && {
                let p = r->Ok_0;
                &&& p.password_id == password_id
                &&& p.user_id == user_id
                &&& p.password_hash == password_hash
                &&& p.password_salt == password_salt
                &&& p.reset_token == reset_token
                &&& p.reset_token_expires == reset_token_expires
                &&& p.failed_attempts == match failed_attempts {
                    Some(n) => n,
                    None => 0,
                }
                &&& p.locked_until == locked_until
                &&& (created_at matches Some(t) ==> p.created_at == t)
                &&& (updated_at matches Some(t) ==> p.updated_at == t)
            },
    {
        if trim_text(password_hash.as_str()).is_empty() {
            return Err(ValidationError::InvalidPassword);
        }
        let failed_attempts = match failed_attempts {
            Some(n) => n,
            None => 0,
        };
        let created_at = match created_at {
            Some(t) => t,
            None => OccurredAt::now(),
        };
        let updated_at = match updated_at {
            Some(t) => t,
            None => OccurredAt::now(),
        };
        Ok(
            UserPassword {
                password_id,
                user_id,
                password_hash,
                password_salt,
                reset_token,
                reset_token_expires,
                failed_attempts,
                locked_until,
                created_at,
                updated_at,
            },
        )
    }

    pub fn register_failed_attempt(&mut self)
        requires
            old(self).failed_attempts < i32::MAX,
        ensures
            *final(self) == (UserPassword {
                failed_attempts: (old(self).failed_attempts + 1) as i32,
                ..*old(self)
            }),
    {
        self.failed_attempts = self.failed_attempts + 1;
    }

    pub fn reset_failed_attempts(&mut self)
        ensures
            *final(self) == (UserPassword { failed_attempts: 0, ..*old(self) }),
    {
        self.failed_attempts = 0;
    }

    pub fn lock_until(&mut self, until: OccurredAt)
        ensures
            *final(self) == (UserPassword { locked_until: Some(until), ..*old(self) }),
    {
        self.locked_until = Some(until);
    }

    pub fn set_reset_token(&mut self, token: String, expires_at: OccurredAt)
        ensures
            *final(self) == (UserPassword {
                reset_token: Some(token),
                reset_token_expires: Some(expires_at),
                ..*old(self)
            }),
    {
        self.reset_token = Some(token);
        self.reset_token_expires = Some(expires_at);
    }

    pub fn clear_reset_token(&mut self)
        ensures
            *final(self) == (UserPassword {
                reset_token: None,
                reset_token_expires: None,
                ..*old(self)
            }),
    {
        self.reset_token = None;
        self.reset_token_expires = None;
    }

    /// Replaces the hash and salt at `now`; the new hash must not be blank.
    pub fn update_password_at(
        &mut self,
        new_hash: String,
        new_salt: Option<String>,
        now: OccurredAt,
    ) -> (r: Result<(), ValidationError>)
        ensures
            trimmed(new_hash@).len() == 0 ==> r == Err::<(), ValidationError>(
                ValidationError::InvalidPassword,
            ) && *final(self) == *old(self),
            trimmed(new_hash@).len() > 0 ==> r is Ok && *final(self) == (UserPassword {
                password_hash: new_hash,
                password_salt: new_salt,
                updated_at: now,
                ..*old(self)
            }),
    {
        if trim_text(new_hash.as_str()).is_empty() {
            return Err(ValidationError::InvalidPassword);
        }
        self.password_hash = new_hash;
        self.password_salt = new_salt;
        self.updated_at = now;
        Ok(())
    }

    /// Replaces the hash and salt now; the new hash must not be blank.
    pub fn update_password(&mut self, new_hash: String, new_salt: Option<String>) -> (r: Result<
        (),
        ValidationError,
    >)
        ensures
            trimmed(new_hash@).len() == 0 ==> r == Err::<(), ValidationError>(
                ValidationError::InvalidPassword,
            ) && *final(self) == *old(self),
            trimmed(new_hash@).len() > 0 ==> r is Ok && *final(self) == (UserPassword {
                password_hash: new_hash,
                password_salt: new_salt,
                updated_at: final(self).updated_at,
                ..*old(self)
            }),
    {
        self.update_password_at(new_hash, new_salt, OccurredAt::now())
    }
}

} // verus!
