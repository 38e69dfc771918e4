use argon2::{Argon2, PasswordHash, PasswordHasher};
use uuid::Uuid;
use vendly_core::aggregate::UserAggregate;
use vendly_core::auth_method::UserAuthMethod;
use vendly_core::auth_type::AuthType;
use vendly_core::authentication::AuthenticationService;
use vendly_core::consent_type::ConsentType;
use vendly_core::email::Email;
use vendly_core::events::{DomainEvent, SubscriptionRenewed, UserLoggedIn};
use vendly_core::activity_log::UserActivityLog;
use vendly_core::gdpr_consent::UserGdprConsent;
use vendly_core::ids::{CalendarDate, OccurredAt, UserId};
use vendly_core::locale::Locale;
use vendly_core::mfa::{MfaType, UserMfa};
use vendly_core::password::UserPassword;
use vendly_core::profile::UserProfile;
use vendly_core::registration::UserRegistrationService;
use vendly_core::repositories::UserRepository;
use vendly_core::role::Role;
use vendly_core::session::UserSession;
use vendly_core::status::UserStatus;
use vendly_core::subscription::{SubscriptionService, UserSubscription};
use vendly_core::subscription_status::SubscriptionStatus;
use vendly_core::subscription_tier::SubscriptionTier;
use vendly_core::timezone::Timezone;
use vendly_core::user::User;
use vendly_core::user_role::UserRole;
use vendly_core::validation_error::ValidationError;

fn at(seconds: i64) -> OccurredAt {
    OccurredAt::from_timestamp(seconds, 0)
}

fn some_user() -> User {
    User::register_with(UserId::from_bits(1), Email::new("carol@example.com").unwrap(), at(10))
}

#[test]
fn profile_display_name_rules() {
    let id = Uuid::new_v4();
    let p = UserProfile::new(id, id, None, None, Some("Carol D".to_string()), None, None, None, None, None, None, Some(at(5)))
        .unwrap();
    assert_eq!(p.locale.as_str(), "es-ES");
    assert_eq!(p.timezone.as_str(), "America/Bogota");
    assert_eq!(p.created_at, at(5));
    let err = UserProfile::new(id, id, None, None, Some("     ".to_string()), None, None, None, None, None, None, None);
    assert_eq!(err.err(), Some(ValidationError::InvalidUsernameLength));
    let mut p = p;
    assert_eq!(p.update_display_name("abc".to_string()), Err(ValidationError::InvalidUsernameLength));
    assert!(p.update_display_name("Carol Danvers".to_string()).is_ok());
    assert_eq!(p.display_name.as_deref(), Some("Carol Danvers"));
    p.update_locale_timezone(Locale::new("en-US").unwrap(), Timezone::new("UTC").unwrap());
    assert_eq!(p.locale.as_str(), "en-US");
    p.update_bio("bio".to_string());
    p.update_avatar("https://example.com/a.png".to_string());
    assert_eq!(p.bio.as_deref(), Some("bio"));
}

#[test]
fn calendar_dates_must_exist() {
    assert!(CalendarDate::new(2024, 2, 29).is_some());
    assert!(CalendarDate::new(2023, 2, 29).is_none());
    assert!(CalendarDate::new(2024, 13, 1).is_none());
    assert_eq!(CalendarDate::new(1990, 7, 4).unwrap().month(), 7);
}

#[test]
fn subscription_lifecycle() {
    let id = Uuid::new_v4();
    let err = UserSubscription::new_at(id, id, SubscriptionTier::Basic, SubscriptionStatus::Active, at(100), Some(at(100)), true, None, at(50));
    assert_eq!(err.err(), Some(ValidationError::InvalidSubscriptionStatus));
    let mut s = UserSubscription::new_at(id, id, SubscriptionTier::Basic, SubscriptionStatus::Active, at(100), Some(at(200)), true, None, at(50))
        .unwrap();
    assert!(s.is_active_at(at(150)));
    assert!(!s.is_active_at(at(200)));
    assert_eq!(s.renew_at(at(300), at(300)), Err(ValidationError::InvalidSubscriptionStatus));
    assert!(s.renew_at(at(400), at(300)).is_ok());
    assert_eq!(s.expires_at, Some(at(400)));
    s.inactive_at(at(310));
    assert_eq!(s.status, SubscriptionStatus::Inactive);
    assert_eq!(SubscriptionService::change_tier_at(&mut s, SubscriptionTier::Premium, at(311)), Err(ValidationError::InvalidSubscriptionStatus));
    s.cancel_at(at(320));
    assert_eq!(s.status, SubscriptionStatus::Canceled);
    assert!(!s.auto_renew);
    assert_eq!(s.updated_at, at(320));
}

#[test]
fn subscription_service_durations() {
    let id = Uuid::new_v4();
    let mut s = SubscriptionService::create_subscription_at(id, SubscriptionTier::Free, 30, at(0)).unwrap();
    assert_eq!(s.expires_at, Some(at(30 * 86400)));
    assert!(SubscriptionService::is_active_at(&s, at(86400)));
    assert!(SubscriptionService::change_tier_at(&mut s, SubscriptionTier::Enterprise, at(5)).is_ok());
    assert_eq!(s.tier, SubscriptionTier::Enterprise);
    assert!(SubscriptionService::renew_subscription_at(&mut s, 10, at(1000)).is_ok());
    assert_eq!(s.starts_at, at(1000));
    assert_eq!(s.expires_at, Some(at(1000 + 10 * 86400)));
    SubscriptionService::cancel_subscription(&mut s);
    assert_eq!(SubscriptionService::renew_subscription_at(&mut s, 10, at(2000)), Err(ValidationError::InvalidSubscriptionStatus));
    let overflow = SubscriptionService::create_subscription_at(id, SubscriptionTier::Free, i64::MAX, at(0));
    assert_eq!(overflow.err(), Some(ValidationError::InvalidSubscriptionStatus));
    let fresh = SubscriptionService::create_subscription(SubscriptionTier::Basic, 7).unwrap();
    assert!(SubscriptionService::is_active(&fresh));
}

#[test]
fn session_rules() {
    let id = Uuid::new_v4();
    assert_eq!(UserSession::new_at(id, id, None, at(10), None, None, None, at(10)).err(), Some(ValidationError::InvalidUserStatus));
    let mut s = UserSession::new_at(id, id, Some("tok".to_string()), at(100), None, None, None, at(10)).unwrap();
    assert_eq!(s.access_token_version, 1);
    assert!(s.is_valid_at(at(99)));
    assert!(!s.is_valid_at(at(100)));
    s.invalidate_tokens();
    assert_eq!(s.access_token_version, 2);
    s.touch_at(at(20));
    assert_eq!(s.last_activity_at, Some(at(20)));
    s.terminate();
    assert!(!s.is_valid_at(at(50)));
}

#[test]
fn role_grants() {
    let id = Uuid::new_v4();
    assert_eq!(UserRole::new_at(id, id, id, None, Some(at(5)), None, None, at(10)).err(), Some(ValidationError::InvalidUserStatus));
    let mut g = UserRole::new_at(id, id, id, None, Some(at(20)), None, None, at(10)).unwrap();
    assert_eq!(g.granted_at, at(10));
    assert!(g.is_active);
    assert!(g.is_valid_at(at(19)));
    assert!(!g.is_valid_at(at(20)));
    g.revoke();
    assert!(!g.is_valid_at(at(11)));
    g.reactivate();
    assert!(g.is_valid_at(at(11)));
}

#[test]
fn password_bookkeeping() {
    let id = Uuid::new_v4();
    assert_eq!(
        UserPassword::new(id, id, "  ".to_string(), None, None, None, None, None, None, None).err(),
        Some(ValidationError::InvalidPassword)
    );
    let mut p = UserPassword::new(id, id, "hash".to_string(), None, None, None, Some(2), None, Some(at(1)), Some(at(1))).unwrap();
    p.register_failed_attempt();
    assert_eq!(p.failed_attempts, 3);
    p.reset_failed_attempts();
    assert_eq!(p.failed_attempts, 0);
    p.lock_until(at(99));
    assert_eq!(p.locked_until, Some(at(99)));
    p.set_reset_token("t".to_string(), at(50));
    p.clear_reset_token();
    assert!(p.reset_token.is_none() && p.reset_token_expires.is_none());
    assert_eq!(p.update_password_at(" ".to_string(), None, at(2)), Err(ValidationError::InvalidPassword));
    assert!(p.update_password_at("new".to_string(), Some("salt".to_string()), at(2)).is_ok());
    assert_eq!(p.updated_at, at(2));
}

#[test]
fn password_authentication() {
    let salt = b"a-fixed-salt-value";
    let hash: PasswordHash = Argon2::default().hash_password_with_salt(b"correct horse", salt).unwrap();
    let id = Uuid::new_v4();
    let stored = UserPassword::new(id, id, hash.to_string(), None, None, None, None, None, None, None).unwrap();
    let user = some_user();
    assert!(AuthenticationService::authenticate_with_password(&user, "correct horse", &stored).is_ok());
    assert_eq!(
        AuthenticationService::authenticate_with_password(&user, "wrong", &stored),
        Err(ValidationError::InvalidPassword)
    );
}

#[test]
fn provider_authentication() {
    let id = Uuid::new_v4();
    let user = some_user();
    assert_eq!(
        UserAuthMethod::new(id, id, AuthType::Oidc, Some("google"), None, true, true, None, None).err(),
        Some(ValidationError::InvalidExternalIdEmpty)
    );
    let password = UserAuthMethod::new(id, id, AuthType::Password, None, None, true, true, Some(at(1)), None).unwrap();
    assert!(!password.is_external());
    let mut oidc = UserAuthMethod::new(id, id, AuthType::Oidc, Some("google"), Some("g-42"), false, true, None, None).unwrap();
    assert!(oidc.is_external());
    oidc.mark_as_used_at(at(3));
    assert_eq!(oidc.last_used_at, Some(at(3)));
    let methods = vec![password, oidc];
    assert!(AuthenticationService::authenticate_with_provider(&user, &methods, AuthType::Oidc, "g-42").is_ok());
    assert_eq!(
        AuthenticationService::authenticate_with_provider(&user, &methods, AuthType::Oidc, "g-43"),
        Err(ValidationError::InvalidAuthType)
    );
    assert_eq!(
        AuthenticationService::authenticate_with_provider(&user, &methods, AuthType::Saml, "g-42"),
        Err(ValidationError::InvalidAuthType)
    );
    assert!(AuthenticationService::supports_auth_type(&user, &methods, AuthType::Password));
    assert!(!AuthenticationService::supports_auth_type(&user, &methods, AuthType::Saml));
}

#[test]
fn mfa_rules() {
    let id = Uuid::new_v4();
    assert_eq!(
        UserMfa::new(id, id, MfaType::Totp, None, None, None, true, false, None, None).err(),
        Some(ValidationError::InvalidAuthType)
    );
    let mut m = UserMfa::new(id, id, MfaType::Sms, None, None, None, true, false, None, None).unwrap();
    assert_eq!(m.recovery_codes_used, 0);
    m.use_recovery_code();
    m.verify();
    m.disable();
    assert_eq!(m.recovery_codes_used, 1);
    assert!(m.is_verified && !m.is_enabled);
}

#[test]
fn activity_logs_and_consents() {
    let id = Uuid::new_v4();
    assert_eq!(
        UserActivityLog::new(id, id, "  ", None, None, None, true, None, None).err(),
        Some(ValidationError::InvalidConsentType)
    );
    let log = UserActivityLog::new(id, id, "login", None, None, None, false, None, Some(at(4))).unwrap();
    assert!(log.is_failure());
    assert_eq!(log.action_type, "login");

    let mut c = UserGdprConsent::new(id, id, ConsentType::MarketingEmails, true, None, None, Some("ua"), Some(at(10)), None).unwrap();
    assert_eq!(c.user_agent.as_deref(), Some("ua"));
    assert!(c.is_valid_at(at(9)));
    assert!(!c.is_valid_at(at(10)));
    c.revoke();
    assert!(!c.consent_given);

    let mut agg = UserAggregate::new(some_user());
    agg.log_activity(log);
    agg.add_gdpr_consent(c);
    assert_eq!(agg.activity_logs.len(), 1);
    assert_eq!(agg.gdpr_consents.len(), 1);
    assert_eq!(agg.id(), UserId::from_bits(1).as_uuid());
}

#[test]
fn role_permissions() {
    let id = Uuid::new_v4();
    assert_eq!(Role::new(id, "x", None, None, vec![], false, None).err(), Some(ValidationError::InvalidRole));
    let mut role = Role::new(id, " Editor ", None, None, vec!["read".to_string()], false, Some(at(1))).unwrap();
    assert_eq!(role.name.as_str(), "editor");
    assert!(role.has_permission("read"));
    role.add_permission("write".to_string());
    role.add_permission("read".to_string());
    assert_eq!(role.permissions, vec!["read".to_string(), "write".to_string()]);
    role.remove_permission("read");
    assert_eq!(role.permissions, vec!["write".to_string()]);
    assert!(!role.has_permission("read"));
}

struct MemoryUsers {
    emails: Vec<String>,
    usernames: Vec<String>,
    saved: usize,
}

impl UserRepository for MemoryUsers {
    fn get_by_id(&self, _id: Uuid) -> Result<Option<User>, ValidationError> {
        Ok(None)
    }
    fn get_by_email(&self, _email: &str) -> Result<Option<User>, ValidationError> {
        Ok(None)
    }
    fn get_by_username(&self, _username: &str) -> Result<Option<User>, ValidationError> {
        Ok(None)
    }
    fn exists_by_email(&self, email: &str) -> Result<bool, ValidationError> {
        Ok(self.emails.iter().any(|e| e == email))
    }
    fn exists_by_username(&self, username: &str) -> Result<bool, ValidationError> {
        Ok(self.usernames.iter().any(|u| u == username))
    }
    fn save(&mut self, user: &User) -> Result<(), ValidationError> {
        self.emails.push(user.email().as_str().to_string());
        self.saved += 1;
        Ok(())
    }
    fn soft_delete(&mut self, _id: Uuid) -> Result<(), ValidationError> {
        Ok(())
    }
}

#[test]
fn registration_service_checks_uniqueness() {
    let repo = MemoryUsers { emails: vec!["taken@example.com".to_string()], usernames: vec!["taken_name".to_string()], saved: 0 };
    let mut service = UserRegistrationService::new(repo);
    assert_eq!(service.register_user("TAKEN@example.com", "fresh_name").err(), Some(ValidationError::InvalidEmail));
    assert_eq!(service.register_user("new@example.com", "taken_name").err(), Some(ValidationError::InvalidUsernameFormat));
    assert_eq!(service.register_user("new@example.com", "abc").err(), Some(ValidationError::InvalidUsernameLength));
    let user = service.register_user("new@example.com", "Fresh_Name").unwrap();
    assert_eq!(user.username().unwrap().as_str(), "fresh_name");
    assert_eq!(user.status(), &UserStatus::Pending);
    assert_eq!(service.into_repository().saved, 1);
}

#[test]
fn publisher_events_are_plain_values() {
    let id = Uuid::new_v4();
    let renewed = SubscriptionRenewed::new(id, id, at(1), at(2));
    let logged = UserLoggedIn::new(id, id, Some("10.0.0.1".to_string()), None, at(3));
    let events = vec![DomainEvent::SubscriptionRenewed(renewed.clone()), DomainEvent::UserLoggedIn(logged)];
    assert_eq!(events[0], DomainEvent::SubscriptionRenewed(renewed));
}
