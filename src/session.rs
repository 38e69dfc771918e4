//! A signed-in session of a user.
use vstd::prelude::*;

use crate::ids::OccurredAt;
use crate::validation_error::ValidationError;

verus! {

#[derive(Debug, Clone, PartialEq)]
pub struct UserSession {
    pub session_id: uuid::Uuid,
    pub user_id: uuid::Uuid,
    pub refresh_token: Option<String>,
    pub access_token_version: i32,
    pub expires_at: OccurredAt,
    pub ip_address: Option<String>,
    pub user_agent: Option<String>,
    /// Details of the device, as JSON text.
    pub device_info: Option<String>,
    pub is_active: bool,
    pub created_at: OccurredAt,
    pub last_activity_at: Option<OccurredAt>,
}

impl UserSession {
    /// A session opened at `now`; it must expire after `now`.
    pub fn new_at(
        session_id: uuid::Uuid,
        user_id: uuid::Uuid,
        refresh_token: Option<String>,
        expires_at: OccurredAt,
        ip_address: Option<String>,
        user_agent: Option<String>,
        device_info: Option<String>,
        now: OccurredAt,
    ) -> (r: Result<UserSession, ValidationError>)
        ensures
            !now.precedes(expires_at) ==> r == Err::<UserSession, ValidationError>(
                ValidationError::InvalidUserStatus,
            ),
            now.precedes(expires_at) ==> r == Ok::<UserSession, ValidationError>(
                UserSession {
                    session_id,
                    user_id,
                    refresh_token,
                    access_token_version: 1,
                    expires_at,
                    ip_address,
                    user_agent,
                    device_info,
                    is_active: true,
                    created_at: now,
                    last_activity_at: None,
                },
            ),
    {
        if !now.is_before(&expires_at) {
            return Err(ValidationError::InvalidUserStatus);
        }
        Ok(
            UserSession {
                session_id,
                user_id,
                refresh_token,
                access_token_version: 1,
                expires_at,
                ip_address,
                user_agent,
                device_info,
                is_active: true,
                created_at: now,
                last_activity_at: None,
            },
        )
    }

    /// A session opened now; it must expire in the future.
    pub fn new(
        session_id: uuid::Uuid,
        user_id: uuid::Uuid,
        refresh_token: Option<String>,
        expires_at: OccurredAt,
        ip_address: Option<String>,
        user_agent: Option<String>,
        device_info: Option<String>,
    ) -> (r: Result<UserSession, ValidationError>)
        ensures
            r matches Err(e) ==> e == ValidationError::InvalidUserStatus,
            r matches Ok(s) ==> s == (UserSession {
                session_id,
                user_id,
                refresh_token,
                access_token_version: 1,
                expires_at,
                ip_address,
                user_agent,
                device_info,
                is_active: true,
                created_at: s.created_at,
                last_activity_at: None,
            }) && s.created_at.precedes(expires_at),
    {
        UserSession::new_at(
            session_id,
            user_id,
            refresh_token,
            expires_at,
            ip_address,
            user_agent,
            device_info,
            OccurredAt::now(),
        )
    }

    /// Ends the session (sign-out).
    pub fn terminate(&mut self)
        ensures
            *final(self) == (UserSession { is_active: false, ..*old(self) }),
    {
        self.is_active = false;
    }

    /// Whether the session is open and unexpired at `now`.
    pub fn is_valid_at(&self, now: OccurredAt) -> (r: bool)
        ensures
            r == (self.is_active && now.precedes(self.expires_at)),
    {
        self.is_active && now.is_before(&self.expires_at)
    }

    /// Whether the session is open and unexpired now.
    pub fn is_valid(&self) -> (r: bool)
        ensures
            !self.is_active ==> !r,
    {
        self.is_valid_at(OccurredAt::now())
    }

    /// Records activity at `now`.
    pub fn touch_at(&mut self, now: OccurredAt)
        ensures
            *final(self) == (UserSession { last_activity_at: Some(now), ..*old(self) }),
    {
        self.last_activity_at = Some(now);
    }

    /// Records activity now.
    pub fn touch(&mut self)
        ensures
            final(self).last_activity_at is Some,
            *final(self) == (UserSession { last_activity_at: final(self).last_activity_at, ..*old(self) }),
    {
        self.touch_at(OccurredAt::now())
    }

    /// Invalidates every access token issued so far by moving to the next version.
    pub fn invalidate_tokens(&mut self)
        requires
            old(self).access_token_version < i32::MAX,
        ensures
            *final(self) == (UserSession {
                access_token_version: (old(self).access_token_version + 1) as i32,
                ..*old(self)
            }),
    {
        self.access_token_version = self.access_token_version + 1;
    }
}

} // verus!
