//! The grant of a role to a user.
use vstd::prelude::*;

use crate::ids::OccurredAt;
use crate::validation_error::ValidationError;

verus! {

#[derive(Debug, Clone, PartialEq)]
pub struct UserRole {
    pub user_role_id: uuid::Uuid,
    pub user_id: uuid::Uuid,
    pub role_id: uuid::Uuid,
    pub granted_by: Option<uuid::Uuid>,
    pub granted_at: OccurredAt,
    pub expires_at: Option<OccurredAt>,
    pub is_active: bool,
}

impl UserRole {
    /// A grant made at `now`; an expiry, when given, must not lie before `now`.
    /// The grant time defaults to `now` and the grant is active unless told otherwise.
    pub fn new_at(
        user_role_id: uuid::Uuid,
        user_id: uuid::Uuid,
        role_id: uuid::Uuid,
        granted_by: Option<uuid::Uuid>,
        expires_at: Option<OccurredAt>,
        granted_at: Option<OccurredAt>,
        is_active: Option<bool>,
        now: OccurredAt,
    ) -> (r: Result<UserRole, ValidationError>)
        ensures
            (expires_at matches Some(exp) && exp.precedes(now)) ==> r == Err::<
                UserRole,
                ValidationError,
            >(ValidationError::InvalidUserStatus),
            !(expires_at matches Some(exp) && exp.precedes(now)) ==> r == Ok::<
                UserRole,
                ValidationError,
            >(
                UserRole {
                    user_role_id,
                    user_id,
                    role_id,
                    granted_by,
                    granted_at: match granted_at {
                        Some(t) => t,
                        None => now,
                    },
                    expires_at,
                    is_active: match is_active {
                        Some(b) => b,
                        None => true,
                    },
                },
            ),
    {
        match expires_at {
            Some(exp) => {
                if exp.is_before(&now) {
                    return Err(ValidationError::InvalidUserStatus);
                }
            },
            None => {},
        }
        let granted_at = match granted_at {
            Some(t) => t,
            None => now,
        };
        let is_active = match is_active {
            Some(b) => b,
            None => true,
        };
        Ok(UserRole { user_role_id, user_id, role_id, granted_by, granted_at, expires_at, is_active })
    }

    /// A grant made now.
    pub fn new(
        user_role_id: uuid::Uuid,
        user_id: uuid::Uuid,
        role_id: uuid::Uuid,
        granted_by: Option<uuid::Uuid>,
        expires_at: Option<OccurredAt>,
        granted_at: Option<OccurredAt>,
        is_active: Option<bool>,
    ) -> (r: Result<UserRole, ValidationError>)
        ensures
            r matches Err(e) ==> e == ValidationError::InvalidUserStatus,
            r matches Ok(g) ==> {
                &&& g.user_role_id == user_role_id
                &&& g.user_id == user_id
                &&& g.role_id == role_id
                &&& g.granted_by == granted_by
                &&& g.expires_at == expires_at
                &&& (granted_at matches Some(t) ==> g.granted_at == t)
                &&& g.is_active == match is_active {
                    Some(b) => b,
                    None => true,
                }
            },
    {
        UserRole::new_at(
            user_role_id,
            user_id,
            role_id,
            granted_by,
            expires_at,
            granted_at,
            is_active,
            OccurredAt::now(),
        )
    }

    pub fn revoke(&mut self)
        ensures
            *final(self) == (UserRole { is_active: false, ..*old(self) }),
    {
        self.is_active = false;
    }

    pub fn reactivate(&mut self)
        ensures
            *final(self) == (UserRole { is_active: true, ..*old(self) }),
    {
        self.is_active = true;
    }

    /// Whether the grant is active and unexpired at `now`.
    pub fn is_valid_at(&self, now: OccurredAt) -> (r: bool)
        ensures
            r == (self.is_active && match self.expires_at {
                Some(exp) => now.precedes(exp),
                None => true,
            }),
    {
        if !self.is_active {
            return false;
        }
        match self.expires_at {
            Some(exp) => now.is_before(&exp),
            None => true,
        }
    }

    /// Whether the grant is active and unexpired now.
    pub fn is_valid(&self) -> (r: bool)
        ensures
            !self.is_active ==> !r,
            self.is_active && self.expires_at is None ==> r,
    {
        self.is_valid_at(OccurredAt::now())
    }
}

} // verus!
