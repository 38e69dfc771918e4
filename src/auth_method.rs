//! A way a user signs in: a password, or an outside identity provider.
use vstd::prelude::*;

use crate::auth_type::AuthType;
use crate::ids::OccurredAt;
use crate::text::string_from_chars;
use crate::text::chars_of;
use crate::validation_error::ValidationError;

verus! {

#[derive(Debug, Clone, PartialEq)]
pub struct UserAuthMethod {
    pub auth_method_id: uuid::Uuid,
    pub user_id: uuid::Uuid,
    pub auth_type: AuthType,
    pub provider: Option<String>,
    pub provider_user_id: Option<String>,
    pub is_primary: bool,
    pub is_verified: bool,
    pub created_at: OccurredAt,
    pub last_used_at: Option<OccurredAt>,
}

/// Whether the kind of credential is held by an outside provider.
pub open spec fn is_provider_type(t: AuthType) -> bool {
    t == AuthType::Oidc || t == AuthType::Saml
}

/// The owned text of an optional borrowed one.
fn owned(s: Option<&str>) -> (r: Option<String>)
    ensures
        s is None ==> r is None,
        s matches Some(t) ==> r is Some && r->0@ == t@,
{
    match s {
        Some(t) => Some(string_from_chars(&chars_of(t))),
        None => None,
    }
}

impl UserAuthMethod {
    /// A sign-in method; one of an outside provider needs both the provider
    /// and the user's identifier there. The creation time defaults to now.
    pub fn new(
        auth_method_id: uuid::Uuid,
        user_id: uuid::Uuid,
        auth_type: AuthType,
        provider: Option<&str>,
        provider_user_id: Option<&str>,
        is_primary: bool,
        is_verified: bool,
        created_at: Option<OccurredAt>,
        last_used_at: Option<OccurredAt>,
    ) -> (r: Result<UserAuthMethod, ValidationError>)
        ensures
            is_provider_type(auth_type) && (provider is None || provider_user_id is None) ==> r
                == Err::<UserAuthMethod, ValidationError>(ValidationError::InvalidExternalIdEmpty),
            !(is_provider_type(auth_type) && (provider is None || provider_user_id is None)) ==> r is Ok
                && {
                let m = r->Ok_0;
                &&& m.auth_method_id == auth_method_id
                &&& m.user_id == user_id
                &&& m.auth_type == auth_type
                &&& (provider is None <==> m.provider is None)
                &&& (provider matches Some(p) ==> m.provider->0@ == p@)
                &&& (provider_user_id is None <==> m.provider_user_id is None)
                &&& (provider_user_id matches Some(p) ==> m.provider_user_id->0@ == p@)
                &&& m.is_primary == is_primary
                &&& m.is_verified == is_verified
                &&& (created_at matches Some(t) ==> m.created_at == t)
                &&& m.last_used_at == last_used_at
            },
    {
        if (auth_type == AuthType::Oidc || auth_type == AuthType::Saml) && (provider.is_none()
            || provider_user_id.is_none()) {
            return Err(ValidationError::InvalidExternalIdEmpty);
        }
        let created_at = match created_at {
            Some(t) => t,
            None => OccurredAt::now(),
        };
        Ok(
            UserAuthMethod {
                auth_method_id,
                user_id,
                auth_type,
                provider: owned(provider),
                provider_user_id: owned(provider_user_id),
                is_primary,
                is_verified,
                created_at,
                last_used_at,
            },
        )
    }

    /// Records a use at `now`.
    pub fn mark_as_used_at(&mut self, now: OccurredAt)
        ensures
            *final(self) == (UserAuthMethod { last_used_at: Some(now), ..*old(self) }),
    {
        self.last_used_at = Some(now);
    }

    /// Records a use now.
    pub fn mark_as_used(&mut self)
        ensures
            final(self).last_used_at is Some,
            *final(self) == (UserAuthMethod { last_used_at: final(self).last_used_at, ..*old(self) }),
    {
        self.mark_as_used_at(OccurredAt::now())
    }

    /// Whether an outside provider holds this credential.
    pub fn is_external(&self) -> (r: bool)
        ensures
            r == self.provider is Some,
    {
        self.provider.is_some()
    }
}

} // verus!
