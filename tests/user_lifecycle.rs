use vendly_core::email::Email;
use vendly_core::errors::{CategoryError, TypeError, UserDomainError};
use vendly_core::events::UserDomainEvent;
use vendly_core::external_id::ExternalId;
use vendly_core::phone::Phone;
use vendly_core::status::UserStatus;
use vendly_core::user::User;
use vendly_core::username::Username;

fn new_email(value: &str) -> Result<Email, UserDomainError> {
    Email::new(value)
}

fn new_phone(cc: &str, num: &str) -> Result<Phone, UserDomainError> {
    Phone::new(cc, num)
}

fn new_username(value: &str) -> Result<Username, UserDomainError> {
    Username::new(value)
}

fn new_external_id(value: &str) -> Result<ExternalId, UserDomainError> {
    ExternalId::new(value)
}

#[test]
fn full_user_lifecycle_serialized_flow() {
    let email = new_email("john.doe@example.co").expect("a valid address");
    let mut user = User::register(email.clone());
    assert_eq!(user.email(), &email);
    assert_eq!(user.status(), &UserStatus::Pending);
    assert!(!user.email_verified());
    assert_eq!(user.take_events().len(), 1);

    assert!(new_email("").is_err());

    let same_email = new_email("john.doe@example.co").unwrap();
    let result = user.update_email(same_email);
    assert!(result.is_err());

    let v_new_email = new_email("john.doe.new@example.co").unwrap();
    let result = user.update_email(v_new_email.clone());
    assert!(result.is_ok());
    assert_eq!(user.email(), &v_new_email);
    assert_eq!(user.status(), &UserStatus::Pending);

    let result = user.verify_email();
    assert!(result.is_ok());
    assert!(user.email_verified());

    let result = user.verify_email();
    assert!(result.is_err());

    let result = user.activate();
    assert!(result.is_ok());
    assert_eq!(user.status(), &UserStatus::Active);

    let result = user.suspend();
    assert!(result.is_ok());
    assert_eq!(user.status(), &UserStatus::Suspended);

    let result = user.suspend();
    assert!(result.is_err());

    let result = user.activate();
    assert!(result.is_ok());
    assert_eq!(user.status(), &UserStatus::Active);

    let phone = new_phone("+57", "3001234567").unwrap();
    let result = user.assign_phone(phone.clone());
    assert!(result.is_ok());
    assert!(!user.phone_verified());

    // The phone was assigned, so verifying it succeeds and marks it verified.
    let result = user.verify_phone();
    assert!(result.is_ok());
    assert!(user.phone_verified());

    let mut user_no_phone = User::register(new_email("new.user@example.co").unwrap());
    let result = user_no_phone.verify_phone();
    assert!(result.is_err());

    let username = new_username("john_dev").unwrap();
    let external_id = new_external_id("EXTERNAL-ABC-123456789").unwrap();
    assert!(user.assign_username(username).is_ok());
    assert!(user.link_external_id(external_id).is_ok());

    let result = user.delete();
    assert!(result.is_ok());
    assert_eq!(user.status(), &UserStatus::Deleted);
    assert!(user.deleted_at().is_some());

    let result = user.activate();
    assert!(result.is_err());
}

#[test]
fn user_creation_and_event_sequence() {
    let email = new_email("demo.user@example.co").unwrap();
    let mut user = User::register(email);
    let events = user.take_events();
    assert_eq!(events.len(), 1);

    let new_email = new_email("new.user@example.co").unwrap();
    let _ = user.update_email(new_email);
    let events = user.take_events();
    assert!(events.iter().any(|e| matches!(*e, UserDomainEvent::EmailUpdated(_))));

    let result = user.verify_email();
    assert!(result.is_ok());
    let events = user.take_events();
    assert!(events.iter().any(|e| matches!(*e, UserDomainEvent::EmailVerified(_))));
}

#[test]
fn registration_then_lifecycle_scenario() {
    let mut user = User::register(Email::new("alice@example.com").unwrap());
    let events = user.take_events();
    assert_eq!(events.len(), 1);
    assert!(matches!(events[0], UserDomainEvent::Registered(_)));
    assert_eq!(events[0].event_name(), "user_registered");

    user.update_email(Email::new("alice2@example.com").unwrap()).unwrap();
    assert_eq!(user.status(), &UserStatus::Pending);
    assert!(!user.email_verified());
    let events = user.take_events();
    assert_eq!(events.len(), 1);
    assert!(matches!(events[0], UserDomainEvent::EmailUpdated(_)));

    assert!(user.verify_email().is_ok());
    assert!(user.email_verified());
    assert!(user.activate().is_ok());
    assert_eq!(user.status(), &UserStatus::Active);
    assert!(user.suspend().is_ok());
    assert_eq!(user.status(), &UserStatus::Suspended);
    assert!(user.activate().is_ok());
    assert_eq!(user.status(), &UserStatus::Active);
    assert!(user.delete().is_ok());
    assert_eq!(user.status(), &UserStatus::Deleted);
    assert!(user.deleted_at().is_some());
    let err = user.activate().unwrap_err();
    assert_eq!(
        err,
        UserDomainError::new(
            CategoryError::Status,
            TypeError::Transition { from: UserStatus::Deleted, to: UserStatus::Active }
        )
    );
    assert_eq!(user.status(), &UserStatus::Deleted);
}
