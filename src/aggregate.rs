//! A user together with everything that hangs off it.
use vstd::prelude::*;

use crate::activity_log::UserActivityLog;
use crate::auth_method::UserAuthMethod;
use crate::gdpr_consent::UserGdprConsent;
use crate::mfa::UserMfa;
use crate::password::UserPassword;
use crate::profile::UserProfile;
use crate::session::UserSession;
use crate::subscription::UserSubscription;
use crate::user::User;
use crate::user_role::UserRole;

verus! {

pub struct UserAggregate {
    pub user: User,
    pub profile: Option<UserProfile>,
    pub auth_methods: Vec<UserAuthMethod>,
    pub password: Option<UserPassword>,
    pub mfa: Vec<UserMfa>,
    pub sessions: Vec<UserSession>,
    pub roles: Vec<UserRole>,
    pub subscriptions: Vec<UserSubscription>,
    pub gdpr_consents: Vec<UserGdprConsent>,
    pub activity_logs: Vec<UserActivityLog>,
}

impl UserAggregate {
    /// The user with nothing attached yet.
    pub fn new(user: User) -> (r: UserAggregate)
        ensures
            r.user == user,
            r.profile is None,
            r.auth_methods@.len() == 0,
            r.password is None,
            r.mfa@.len() == 0,
            r.sessions@.len() == 0,
            r.roles@.len() == 0,
            r.subscriptions@.len() == 0,
            r.gdpr_consents@.len() == 0,
            r.activity_logs@.len() == 0,
    {
        UserAggregate {
            user,
            profile: None,
            auth_methods: Vec::new(),
            password: None,
            mfa: Vec::new(),
            sessions: Vec::new(),
            roles: Vec::new(),
            subscriptions: Vec::new(),
            gdpr_consents: Vec::new(),
            activity_logs: Vec::new(),
        }
    }

    /// The user's identifier as a UUID.
    pub fn id(&self) -> (r: uuid::Uuid) {
        self.user.id().as_uuid()
    }

    pub fn add_auth_method(&mut self, method: UserAuthMethod)
        ensures
            final(self).auth_methods@ == old(self).auth_methods@.push(method),
            final(self).user == old(self).user,
            final(self).roles == old(self).roles,
            final(self).gdpr_consents == old(self).gdpr_consents,
            final(self).activity_logs == old(self).activity_logs,
            final(self).profile == old(self).profile,
    {
        self.auth_methods.push(method);
    }

    pub fn set_profile(&mut self, profile: UserProfile)
        ensures
            final(self).profile == Some(profile),
            final(self).user == old(self).user,
            final(self).auth_methods == old(self).auth_methods,
            final(self).roles == old(self).roles,
            final(self).gdpr_consents == old(self).gdpr_consents,
            final(self).activity_logs == old(self).activity_logs,
    {
        self.profile = Some(profile);
    }

    pub fn add_role(&mut self, role: UserRole)
        ensures
            final(self).roles@ == old(self).roles@.push(role),
            final(self).user == old(self).user,
            final(self).auth_methods == old(self).auth_methods,
            final(self).gdpr_consents == old(self).gdpr_consents,
            final(self).activity_logs == old(self).activity_logs,
            final(self).profile == old(self).profile,
    {
        self.roles.push(role);
    }

    pub fn add_gdpr_consent(&mut self, consent: UserGdprConsent)
        ensures
            final(self).gdpr_consents@ == old(self).gdpr_consents@.push(consent),
            final(self).user == old(self).user,
            final(self).auth_methods == old(self).auth_methods,
            final(self).roles == old(self).roles,
            final(self).activity_logs == old(self).activity_logs,
            final(self).profile == old(self).profile,
    {
        self.gdpr_consents.push(consent);
    }

    pub fn log_activity(&mut self, log: UserActivityLog)
        ensures
            final(self).activity_logs@ == old(self).activity_logs@.push(log),
            final(self).user == old(self).user,
            final(self).auth_methods == old(self).auth_methods,
            final(self).roles == old(self).roles,
            final(self).gdpr_consents == old(self).gdpr_consents,
            final(self).profile == old(self).profile,
    {
        self.activity_logs.push(log);
    }
}

} // verus!
