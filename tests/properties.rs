use vendly_core::email::Email;
use vendly_core::errors::{CategoryError, TypeError, UserDomainError};
use vendly_core::events::UserDomainEvent;
use vendly_core::ids::{OccurredAt, UserId};
use vendly_core::mfa::MfaType;
use vendly_core::phone::Phone;
use vendly_core::role_name::RoleName;
use vendly_core::status::UserStatus;
use vendly_core::timezone::Timezone;
use vendly_core::user::User;
use vendly_core::username::Username;
use vendly_core::validation_error::ValidationError;

fn at(seconds: i64) -> OccurredAt {
    OccurredAt::from_timestamp(seconds, 0)
}

fn registered(address: &str) -> User {
    User::register_with(UserId::from_bits(7), Email::new(address).unwrap(), at(100))
}

#[test]
fn email_is_idempotent() {
    for raw in ["  Mixed.Case@Example.ORG ", "a@example.io", "first-last_1@sub.domain-x.com"] {
        let e = Email::new(raw).unwrap();
        assert_eq!(Email::new(e.as_str()), Ok(e.clone()));
    }
}

#[test]
fn email_local_part_lengths() {
    assert!(Email::new("a@example.com").is_ok());
    assert!(Email::new("abcd@example.com").is_ok());
    assert!(Email::new("ab@example.com").is_ok());
    assert!(Email::new("bob@example.com").is_ok());
    assert!(matches!(Email::new("ab.@example.com").unwrap_err().detail, TypeError::Format { .. }));
    assert!(matches!(Email::new(".abc@example.com").unwrap_err().detail, TypeError::Format { .. }));
    assert!(matches!(Email::new("user@exa_mple.com").unwrap_err().detail, TypeError::Format { .. }));
    let long_tld = format!("user@example.{}", "a".repeat(25));
    assert!(matches!(Email::new(&long_tld).unwrap_err().detail, TypeError::Format { .. }));
}

#[test]
fn activation_only_from_pending_or_suspended() {
    let mut user = registered("alice@example.com");
    assert!(user.activate_at(at(101)).is_ok());
    let err = user.activate_at(at(102)).unwrap_err();
    assert_eq!(
        err,
        UserDomainError::new(
            CategoryError::Status,
            TypeError::Transition { from: UserStatus::Active, to: UserStatus::Active }
        )
    );
    assert_eq!(user.status(), &UserStatus::Active);
    assert!(user.suspend_at(at(103)).is_ok());
    assert!(user.activate_at(at(104)).is_ok());
    assert_eq!(user.updated_at(), &at(104));
}

#[test]
fn deletion_is_terminal() {
    let mut user = registered("alice@example.com");
    assert!(user.delete_at(at(200)).is_ok());
    assert_eq!(user.deleted_at(), Some(&at(200)));
    assert!(user.activate_at(at(201)).is_err());
    assert!(user.suspend_at(at(202)).is_err());
    assert!(user.delete_at(at(203)).is_err());
    assert_eq!(user.deleted_at(), Some(&at(200)));
    let err = user.update_email_at(Email::new("other@example.com").unwrap(), at(204)).unwrap_err();
    assert_eq!(err.detail, TypeError::InvalidStatus { status: UserStatus::Deleted });
}

#[test]
fn updating_to_the_same_email_is_unchanged() {
    let mut user = registered("alice@example.com");
    user.verify_email_at(at(101)).unwrap();
    user.activate_at(at(102)).unwrap();
    let err = user.update_email_at(Email::new(" ALICE@example.com").unwrap(), at(103)).unwrap_err();
    assert_eq!(err.category, CategoryError::Email);
    assert_eq!(
        err.detail,
        TypeError::Unchanged {
            value: "new email 'alice@example.com' is equal to old email 'alice@example.com'".to_string()
        }
    );
    assert!(user.email_verified());
    assert_eq!(user.status(), &UserStatus::Active);

    user.update_email_at(Email::new("bob@example.com").unwrap(), at(104)).unwrap();
    assert!(!user.email_verified());
    assert_eq!(user.status(), &UserStatus::Pending);
}

#[test]
fn email_verification_blocked_when_suspended() {
    let mut user = registered("alice@example.com");
    user.activate_at(at(101)).unwrap();
    user.suspend_at(at(102)).unwrap();
    let err = user.verify_email_at(at(103)).unwrap_err();
    assert_eq!(err.detail, TypeError::InvalidStatus { status: UserStatus::Suspended });
}

#[test]
fn phone_verifies_exactly_once() {
    let mut user = registered("alice@example.com");
    assert_eq!(user.verify_phone_at(at(101)).unwrap_err().detail, TypeError::Missing);
    user.assign_phone_at(Phone::new("+57", "3001234567").unwrap(), at(102)).unwrap();
    assert!(user.verify_phone_at(at(103)).is_ok());
    assert_eq!(user.verify_phone_at(at(104)).unwrap_err().detail, TypeError::AlreadyVerified);
    user.assign_phone_at(Phone::from_full("+4915123456789").unwrap(), at(105)).unwrap();
    assert!(!user.phone_verified());
}

#[test]
fn take_events_drains() {
    let mut user = registered("alice@example.com");
    user.assign_username_at(Username::new("alice_01").unwrap(), at(101)).unwrap();
    let first = user.take_events();
    assert_eq!(first.len(), 2);
    assert!(matches!(first[1], UserDomainEvent::UsernameAssigned(_)));
    assert_eq!(first[1].occurred_at(), at(101));
    assert_eq!(first[1].user_id(), UserId::from_bits(7));
    assert!(user.take_events().is_empty());
    assert_eq!(user.username().unwrap().as_str(), "alice_01");
}

#[test]
fn username_lengths() {
    let err = Username::new("ab").unwrap_err();
    assert_eq!(err, UserDomainError::new(CategoryError::Username, TypeError::TooShort { short: 6 }));
    assert_eq!(Username::new("abcdef").unwrap().as_str(), "abcdef");
    assert_eq!(Username::new(&"a".repeat(31)).unwrap_err().detail, TypeError::TooLong { long: 30 });
    assert!(Username::new(&"a".repeat(30)).is_ok());
    assert!(matches!(Username::new("a__bcdef").unwrap_err().detail, TypeError::Format { .. }));
    assert!(matches!(Username::new("abcdef_").unwrap_err().detail, TypeError::Format { .. }));
    assert!(matches!(Username::new("1abcdef").unwrap_err().detail, TypeError::Format { .. }));
    assert_eq!(Username::new("Abc.Def").unwrap().len(), 7);
}

#[test]
fn role_name_normalized_capitalises() {
    assert_eq!(RoleName::new("super_admin").unwrap().normalized(), "Super_admin");
}

#[test]
fn mfa_type_parses_in_any_case() {
    assert_eq!(MfaType::from_str("TOTP"), Ok(MfaType::Totp));
    assert_eq!(MfaType::from_str("WebAuthn").unwrap().as_str(), "webauthn");
    assert_eq!(MfaType::from_str("push"), Err(ValidationError::InvalidAuthType));
}

#[test]
fn timezone_resolution() {
    assert_eq!(Timezone::resolve("  Europe/Berlin ", true).unwrap().as_str(), "Europe/Berlin");
    assert_eq!(Timezone::resolve("Europe/Berlin", false).unwrap_err().detail, TypeError::NotSupported);
    assert_eq!(Timezone::resolve("   ", true).unwrap_err().detail, TypeError::Empty);
    let all = Timezone::all();
    assert!(all.contains(&"America/Bogota"));
    for name in all.iter().take(20) {
        assert!(Timezone::new(name).is_ok());
    }
}

#[test]
fn occurred_at_parsing() {
    let t = OccurredAt::try_from("2024-05-10T12:30:00Z").unwrap();
    assert_eq!(t.seconds(), 1715344200);
    assert_eq!(OccurredAt::try_from("").unwrap_err().detail, TypeError::Empty);
    assert!(matches!(OccurredAt::try_from("2024/05/10 12:30").unwrap_err().detail, TypeError::Format { .. }));
    assert!(OccurredAt::try_from("2024-05-10T12:30:00").is_err());
}

#[test]
fn user_status_names() {
    assert_eq!(UserStatus::variants(), vec!["pending", "active", "suspended", "deleted"]);
    assert!(UserStatus::Deleted.is_deleted());
    assert!(!UserStatus::Active.is_pending());
}

#[test]
fn locale_parts() {
    let l = vendly_core::locale::Locale::new("pt_BR").unwrap();
    assert_eq!(l.language(), "pt");
    assert_eq!(l.region(), Some("BR"));
    assert_eq!(l.script(), None);
    let l = vendly_core::locale::Locale::new("es").unwrap();
    assert_eq!(l.region(), None);
    assert!(vendly_core::locale::Locale::new("es-co").is_err());
}

#[test]
fn phone_renderings() {
    let p = Phone::new(" + 44 ", "7700 901 234").unwrap();
    assert_eq!(p.as_e164(), "+447700901234");
    assert_eq!(p.to_string(), "+44 7700901234");
    let q = Phone::from_full("+447700901234").unwrap();
    assert_eq!(q.country_code(), "");
    assert_eq!(q.to_string(), "+447700901234");
}

#[test]
fn event_names_and_times() {
    let mut user = registered("dave@example.com");
    user.activate_at(at(101)).unwrap();
    user.suspend_at(at(102)).unwrap();
    user.delete_at(at(103)).unwrap();
    let names: Vec<&str> = user.take_events().iter().map(|e| e.event_name()).collect();
    assert_eq!(names, vec!["user_registered", "user_activated", "user_suspended", "user_deleted"]);
    assert_eq!(user.created_at(), &at(100));
    assert_eq!(user.updated_at(), &at(103));
}
