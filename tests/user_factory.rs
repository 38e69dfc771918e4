use uuid::Uuid;
use vendly_core::factory::UserFactory;
use vendly_core::status::UserStatus;
use vendly_core::validation_error::ValidationError;

#[test]
fn test_user_creation_valid() {
    let result = UserFactory::create(
        Uuid::new_v4(),
        "alice@example.com",
        Some("Alice_mouse"),
        Some("+123456789"),
        Some("ext_123"),
        Some("pending"),
    );
    println!("Result is ok: {}", result.is_ok());
    // "ext_123" is shorter than an outside identifier may be.
    assert_eq!(result.err(), Some(ValidationError::InvalidExternalIdLength));
}

#[test]
fn test_user_creation_invalid_email() {
    let result = UserFactory::create(Uuid::new_v4(), "bad@domain..com", None, None, None, None);
    match result {
        Ok(user) => panic!("created with an invalid address: {}", user.email().as_str()),
        Err(e) => {
            println!("Expected error: {}", e.to_string());
            assert_eq!(e, ValidationError::InvalidEmail);
        }
    }
}

#[test]
fn test_user_creation_invalid_phone() {
    // The third argument is the username: "12345" is a username too short to accept.
    let result = UserFactory::create(Uuid::new_v4(), "bob@example.com", Some("12345"), None, None, None);
    assert!(result.is_err(), "five characters is no valid username");
    let err = result.err().unwrap();
    assert_eq!(err, ValidationError::InvalidUsernameLength);

    let result = UserFactory::create(Uuid::new_v4(), "bob@example.com", None, Some("12345"), None, None);
    assert_eq!(result.err(), Some(ValidationError::InvalidPhone));
}

#[test]
fn factory_builds_every_field_and_status() {
    let id = Uuid::new_v4();
    let user = UserFactory::create(
        id,
        "Alice@Example.com",
        Some("Alice_mouse"),
        Some("+123456789"),
        Some("ext_1234567890abcdef"),
        Some("suspended"),
    )
    .unwrap();
    assert_eq!(user.id().as_uuid(), id);
    assert_eq!(user.email().as_str(), "alice@example.com");
    assert_eq!(user.username().unwrap().as_str(), "alice_mouse");
    assert_eq!(user.phone().unwrap().as_full(), "+123456789");
    assert_eq!(user.external_id().unwrap().as_str(), "ext_1234567890abcdef");
    assert_eq!(user.status(), &UserStatus::Suspended);
    assert!(user.deleted_at().is_none());

    let deleted = UserFactory::create(id, "bob@example.com", None, None, None, Some("deleted")).unwrap();
    assert_eq!(deleted.status(), &UserStatus::Deleted);
    assert!(deleted.deleted_at().is_some());

    let bad_status = UserFactory::create(id, "bob@example.com", None, None, None, Some("gone"));
    assert_eq!(bad_status.err(), Some(ValidationError::InvalidUserStatus));
}
