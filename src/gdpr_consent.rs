//! A consent a user gave, or refused, under the GDPR.
use vstd::prelude::*;

use crate::consent_type::ConsentType;
use crate::ids::OccurredAt;
use crate::text::{chars_of, string_from_chars};
use crate::validation_error::ValidationError;

verus! {

#[derive(Debug, Clone, PartialEq)]
pub struct UserGdprConsent {
    pub consent_id: uuid::Uuid,
    pub user_id: uuid::Uuid,
    pub consent_type: ConsentType,
    pub consent_given: bool,
    /// Further details, as JSON text.
    pub consent_details: Option<String>,
    pub ip_address: Option<String>,
    pub user_agent: Option<String>,
    pub expires_at: Option<OccurredAt>,
    pub created_at: OccurredAt,
}

impl UserGdprConsent {
    /// A consent record; a refusal is recorded too. The creation time defaults to now.
    pub fn new(
        consent_id: uuid::Uuid,
        user_id: uuid::Uuid,
        consent_type: ConsentType,
        consent_given: bool,
        consent_details: Option<String>,
        ip_address: Option<String>,
        user_agent: Option<&str>,
        expires_at: Option<OccurredAt>,
        created_at: Option<OccurredAt>,
    ) -> (r: Result<UserGdprConsent, ValidationError>)
        ensures
            r is Ok,
            r matches Ok(c) ==> {
                &&& c.consent_id == consent_id
                &&& c.user_id == user_id
                &&& c.consent_type == consent_type
                &&& c.consent_given == consent_given
                &&& c.consent_details == consent_details
                &&& c.ip_address == ip_address
                &&& (user_agent is None <==> c.user_agent is None)
                &&& (user_agent matches Some(a) ==> c.user_agent->0@ == a@)
                &&& c.expires_at == expires_at
                &&& (created_at matches Some(t) ==> c.created_at == t)
            },
    {
        let user_agent = match user_agent {
            Some(a) => Some(string_from_chars(&chars_of(a))),
            None => None,
        };
        let created_at = match created_at {
            Some(t) => t,
            None => OccurredAt::now(),
        };
        Ok(
            UserGdprConsent {
                consent_id,
                user_id,
                consent_type,
                consent_given,
                consent_details,
                ip_address,
                user_agent,
                expires_at,
                created_at,
            },
        )
    }

    /// Whether the consent has not expired at `now`.
    pub fn is_valid_at(&self, now: OccurredAt) -> (r: bool)
        ensures
            r == match self.expires_at {
                Some(exp) => now.precedes(exp),
                None => true,
            },
    {
        match self.expires_at {
            Some(exp) => now.is_before(&exp),
            None => true,
        }
    }

    /// Whether the consent has not expired now.
    pub fn is_valid(&self) -> (r: bool)
        ensures
            self.expires_at is None ==> r,
    {
        self.is_valid_at(OccurredAt::now())
    }

    pub fn revoke(&mut self)
        ensures
            *final(self) == (UserGdprConsent { consent_given: false, ..*old(self) }),
    {
        self.consent_given = false;
    }
}

} // verus!
