use vendly_core::auth_type::AuthType;
use vendly_core::consent_type::ConsentType;
use vendly_core::email::Email;
use vendly_core::errors::{CategoryError, TypeError};
use vendly_core::external_id::ExternalId;
use vendly_core::gender::Gender;
use vendly_core::ids::UserId;
use vendly_core::locale::Locale;
use vendly_core::phone::Phone;
use vendly_core::role_name::RoleName;
use vendly_core::status::UserStatus;
use vendly_core::subscription_status::SubscriptionStatus;
use vendly_core::subscription_tier::SubscriptionTier;
use vendly_core::timezone::Timezone;
use vendly_core::username::Username;

#[test]
fn test_auth_type_creation() {
    let inputs = vec![
        "password", "oidc", "saml", "  OIDC  ", "", "   ", "api_key", "PaSsWoRd", "OAuth2", "SAML!",
    ];
    for input in inputs {
        match AuthType::new(input) {
            Ok(auth_type) => println!("'{input}' -> {}", auth_type.to_string()),
            Err(err) => println!("'{input}' -> error: {:?}", err),
        }
    }
    assert_eq!(AuthType::new("  OIDC  "), Ok(AuthType::Oidc));
    assert_eq!(AuthType::new("PaSsWoRd"), Ok(AuthType::Password));
    assert_eq!(AuthType::new("   ").unwrap_err().detail, TypeError::Empty);
    assert_eq!(AuthType::new("api_key").unwrap_err().detail, TypeError::NotSupported);
}

#[test]
fn test_consent_type_creation() {
    let inputs = vec![
        "terms_of_service",
        "privacy_policy",
        "marketing_emails",
        "data_retention",
        "  TERMS_OF_SERVICE  ",
        "",
        "   ",
        "newsletter",
        "tos",
        "privacy-policy",
    ];
    for input in inputs {
        match ConsentType::new(input) {
            Ok(consent) => println!("'{input}' -> {}", consent.to_string()),
            Err(err) => println!("'{input}' -> error: {:?}", err),
        }
    }
    assert_eq!(ConsentType::new("  TERMS_OF_SERVICE  "), Ok(ConsentType::TermsOfService));
    assert_eq!(ConsentType::new("privacy-policy").unwrap_err().detail, TypeError::NotSupported);
}

#[test]
fn test_email_creation() {
    let temp_max_email = "verylongemail".repeat(30);
    let max_email = temp_max_email.as_str();
    let inputs = vec![
        "user@example.com",
        " USER@Example.COM  ",
        "a@b.c",
        "",
        "   ",
        "no-at-symbol.com",
        "user@domain",
        "user@domain.",
        "user@@domain.com",
        max_email,
        "valid_user+tag@gmail.com",
        "user@-cast.sub.domain.co",
        "user@domain.c",
    ];
    for input in inputs {
        match Email::new(input) {
            Ok(email) => println!("'{input}' -> {}", email.to_string()),
            Err(err) => println!("'{input}' -> error: {:?}", err),
        }
    }
    assert_eq!(Email::new("user@example.com").unwrap().as_str(), "user@example.com");
    assert_eq!(Email::new(" USER@Example.COM  ").unwrap().as_str(), "user@example.com");
    assert_eq!(Email::new("a@b.c").unwrap_err().detail, TypeError::TooShort { short: 6 });
    assert_eq!(Email::new("").unwrap_err().detail, TypeError::Empty);
    assert_eq!(Email::new("   ").unwrap_err().detail, TypeError::Empty);
    assert_eq!(Email::new(max_email).unwrap_err().detail, TypeError::TooLong { long: 254 });
    for bad in ["no-at-symbol.com", "user@domain", "user@domain.", "user@@domain.com", "user@domain.c"] {
        let err = Email::new(bad).unwrap_err();
        assert_eq!(err.category, CategoryError::Email);
        assert!(matches!(err.detail, TypeError::Format { .. }), "{bad}");
    }
}

#[test]
fn test_external_id_creation() {
    let external_string = "x".repeat(255);
    let external: &str = &external_string;
    let inputs = vec![
        "1234567890abcdef",
        "   1234567890abcdef   ",
        "abcdef1234567890abcdef1234567890",
        "",
        "   ",
        "short-id",
        external,
        "external_id_1234567890",
    ];
    for input in inputs {
        match ExternalId::new(input) {
            Ok(ext_id) => println!("'{input}' -> {}", ext_id.to_string()),
            Err(err) => println!("'{input}' -> error: {:?}", err),
        }
    }
    assert_eq!(ExternalId::new("   1234567890abcdef   ").unwrap().as_str(), "1234567890abcdef");
    assert_eq!(ExternalId::new("short-id").unwrap_err().detail, TypeError::TooShort { short: 16 });
    assert!(ExternalId::new(external).is_ok());
    assert_eq!(ExternalId::new(&"x".repeat(256)).unwrap_err().detail, TypeError::TooLong { long: 255 });
}

#[test]
fn test_gender_creation() {
    let inputs = vec![
        "male",
        "female",
        "non_binary",
        "non-binary",
        "other",
        "prefer_not_to_say",
        "prefer-not-to-say",
        "   Female   ",
        "",
        "   ",
        "unknown",
        "robot",
    ];
    for input in inputs {
        match Gender::new(input) {
            Ok(gender) => println!("'{input}' -> {}", gender.to_string()),
            Err(err) => println!("'{input}' -> error: {:?}", err),
        }
    }
    assert_eq!(Gender::new("   Female   "), Ok(Gender::Female));
    assert_eq!(Gender::new("prefer_not_to_say"), Ok(Gender::PreferNotToSay));
    assert_eq!(Gender::new("robot").unwrap_err().detail, TypeError::NotSupported);
}

#[test]
fn test_locale_creation() {
    let inputs = vec![
        "es", "en", "fr", "en-US", "es-ES", "pt-BR", "ES", "   es-CO   ", "", "  ", "e", "english",
        "123", "es_CO", "es-",
    ];
    for input in inputs {
        match Locale::new(input) {
            Ok(locale) => println!("'{input}' -> {}", locale.to_string()),
            Err(err) => println!("'{input}' -> error: {:?}", err),
        }
    }
    assert_eq!(Locale::new("   es-CO   ").unwrap().as_str(), "es-CO");
    assert_eq!(Locale::new("es_CO").unwrap().as_str(), "es-CO");
    assert_eq!(Locale::new("e").unwrap_err().detail, TypeError::TooShort { short: 2 });
    assert!(matches!(Locale::new("english").unwrap_err().detail, TypeError::Format { .. }));
    assert!(matches!(Locale::new("es-").unwrap_err().detail, TypeError::Format { .. }));
}

#[test]
fn test_locale_default() {
    let default_locale = Locale::default();
    println!("Default: {}", default_locale.to_string());
    assert_eq!(default_locale.as_str(), "es-ES");
}

#[test]
fn test_phone_creation_with_parts() {
    let cases = vec![
        ("+57", "3201234567"),
        ("+1", "2025550147"),
        ("+44", "7700901234"),
        ("57", "3201234567"),
        ("+49", "15123456789"),
        ("+", "1234567"),
        ("+1234", "9876543210"),
        ("+57", "123"),
        ("+57", "123456789012345"),
        ("+57", "12A45678"),
        ("", ""),
        ("  ", "  "),
    ];
    for (cc, num) in cases {
        match Phone::new(cc, num) {
            Ok(phone) => println!("'{}' '{}' -> {}", cc, num, phone.to_string()),
            Err(err) => println!("'{}' '{}' -> error: {:?}", cc, num, err),
        }
    }
    assert_eq!(Phone::new("57", "3201234567").unwrap().as_full(), "+573201234567");
    assert_eq!(Phone::new("+", "1234567").unwrap_err().detail, TypeError::Empty);
    assert_eq!(Phone::new("+1234", "9876543210").unwrap_err().detail, TypeError::TooLong { long: 3 });
    assert_eq!(Phone::new("+57", "123").unwrap_err().detail, TypeError::TooShort { short: 6 });
    assert_eq!(Phone::new("+57", "123456789012345").unwrap_err().detail, TypeError::TooLong { long: 14 });
    assert!(matches!(Phone::new("+57", "12A45678").unwrap_err().detail, TypeError::Format { .. }));
}

#[test]
fn test_phone_creation_from_full() {
    let inputs = vec![
        "+573201234567",
        "+12025550147",
        "+447700901234",
        " +57 320 123 4567 ",
        "+123456",
        "573201234567",
        "+57320",
        "+5732012345678901",
        "+57ABC1234",
        "",
    ];
    for input in inputs {
        match Phone::from_full(input) {
            Ok(phone) => println!("'{input}' -> {}", phone.as_full()),
            Err(err) => println!("'{input}' -> error: {:?}", err),
        }
    }
    assert_eq!(Phone::from_full(" +57 320 123 4567 ").unwrap().as_full(), "+573201234567");
    assert!(matches!(Phone::from_full("573201234567").unwrap_err().detail, TypeError::Format { .. }));
    assert_eq!(Phone::from_full("+57320").unwrap_err().detail, TypeError::TooShort { short: 7 });
    assert!(matches!(Phone::from_full("+57ABC1234").unwrap_err().detail, TypeError::Format { .. }));
    assert_eq!(Phone::from_full("").unwrap_err().detail, TypeError::Empty);
}

#[test]
fn test_phone_display_and_accessors() {
    let phone = Phone::new("+57", "3201234567").unwrap();
    assert_eq!(phone.country_code(), "+57");
    assert_eq!(phone.number(), "3201234567");
    assert_eq!(phone.as_full(), "+573201234567");
    println!("Display: {}", phone.to_string());
}

#[test]
fn test_role_name_creation() {
    let inputs = vec![
        "admin",
        "user",
        "super_admin",
        "manager",
        "  Editor  ",
        "guest",
        "viewer",
        "",
        "  ",
        "ad",
        "a",
        "thisisaverylongrolenamethatiswaytoolongtobeacceptedbythesystem",
        "Admin!",
        "user role",
        "root@",
    ];
    for input in inputs {
        match RoleName::new(input) {
            Ok(role) => println!("'{input}' -> {}", role.to_string()),
            Err(err) => println!("'{input}' -> error: {:?}", err),
        }
    }
    assert_eq!(RoleName::new("  Editor  ").unwrap().as_str(), "editor");
    assert_eq!(RoleName::new("ad").unwrap_err().detail, TypeError::TooShort { short: 3 });
    assert_eq!(
        RoleName::new("thisisaverylongrolenamethatiswaytoolongtobeacceptedbythesystem")
            .unwrap_err()
            .detail,
        TypeError::TooLong { long: 50 }
    );
    assert!(matches!(RoleName::new("user role").unwrap_err().detail, TypeError::Format { .. }));
}

#[test]
fn test_role_name_display_and_as_ref() {
    let role = RoleName::new("Administrator").unwrap();
    assert_eq!(role.as_str(), "administrator");
    assert_eq!(role.as_ref(), "administrator");
    println!("Display: {}", role.to_string());
}

#[test]
fn test_subscription_status_creation() {
    let inputs = vec![
        "active", "inactive", "pending", "canceled", "cancelled", "expired", "  Active  ", "PENDING",
        "", "   ", "paused", "terminated", "unknown",
    ];
    for input in inputs {
        match SubscriptionStatus::new(input) {
            Ok(status) => println!("'{input}' -> {}", status.to_string()),
            Err(err) => println!("'{input}' -> error: {:?}", err),
        }
    }
    assert_eq!(SubscriptionStatus::new("PENDING"), Ok(SubscriptionStatus::Pending));
    assert_eq!(SubscriptionStatus::new("paused").unwrap_err().detail, TypeError::NotSupported);
}

#[test]
fn test_subscription_status_display_and_as_str() {
    let status = SubscriptionStatus::new("Canceled").unwrap();
    assert_eq!(status.as_str(), "canceled");
    println!("Display: {}", status.to_string());
}

#[test]
fn test_subscription_tier_creation() {
    let inputs =
        vec!["free", "basic", "premium", "enterprise", "  Free  ", "PREMIUM", "", " ", "vip", "pro", "trial"];
    for input in inputs {
        match SubscriptionTier::new(input) {
            Ok(tier) => println!("'{input}' -> {}", tier.to_string()),
            Err(err) => println!("'{input}' -> error: {:?}", err),
        }
    }
    assert_eq!(SubscriptionTier::new("  Free  "), Ok(SubscriptionTier::Free));
    assert_eq!(SubscriptionTier::new(" ").unwrap_err().detail, TypeError::Empty);
}

#[test]
fn test_subscription_tier_display_and_as_str() {
    let tier = SubscriptionTier::new("Premium").unwrap();
    assert_eq!(tier.as_str(), "premium");
    println!("Display: {}", tier.to_string());
}

#[test]
fn test_timezone_creation() {
    let inputs = vec![
        "America/Bogota",
        "Europe/London",
        "Asia/Tokyo",
        "UTC",
        "  America/New_York ",
        "invalid/timezone",
        "",
        " ",
        "Mars/Crater",
    ];
    for input in inputs {
        match Timezone::new(input) {
            Ok(tz) => println!("'{input}' -> {}", tz.to_string()),
            Err(err) => println!("'{input}' -> error: {:?}", err),
        }
    }
    assert_eq!(Timezone::new("  America/New_York ").unwrap().as_str(), "America/New_York");
    assert_eq!(Timezone::new("UTC").unwrap().as_str(), "UTC");
    assert_eq!(Timezone::new("Mars/Crater").unwrap_err().detail, TypeError::NotSupported);
    assert_eq!(Timezone::new(" ").unwrap_err().detail, TypeError::Empty);
}

#[test]
fn test_timezone_default() {
    let default_tz = Timezone::default();
    assert_eq!(default_tz.as_str(), "America/Bogota");
    println!("Default timezone: {}", default_tz.to_string());
}

#[test]
fn test_user_status_creation() {
    let inputs = vec![
        "pending", "active", "suspended", "deleted", "  Active  ", "PENDING", "", "  ", "unknown",
        "actived", "disable",
    ];
    for input in inputs {
        match UserStatus::new(input) {
            Ok(status) => println!("'{input}' -> {}", status.to_string()),
            Err(err) => println!("'{input}' -> error: {:?}", err),
        }
    }
    assert_eq!(UserStatus::new("  Active  "), Ok(UserStatus::Active));
    assert_eq!(UserStatus::new("actived").unwrap_err().detail, TypeError::NotSupported);
}

#[test]
fn test_user_status_display_and_as_str() {
    let status = UserStatus::new("Active").unwrap();
    assert_eq!(status.as_str(), "active");
    println!("Display: {}", status.to_string());
}

#[test]
fn test_username_creation() {
    let inputs = vec![
        "john_doe",
        "Alice123",
        "  user_name  ",
        "UPPERCASE",
        "user.name",
        "ab",
        "user@domain",
        "user name",
        "",
        " ",
    ];
    for input in inputs {
        match Username::new(input) {
            Ok(username) => println!("'{input}' -> '{}'", username.to_string()),
            Err(err) => println!("'{input}' -> error: {:?}", err),
        }
    }
    assert_eq!(Username::new("Alice123").unwrap().as_str(), "alice123");
    assert_eq!(Username::new("UPPERCASE").unwrap().as_str(), "uppercase");
    assert_eq!(Username::new("ab").unwrap_err().detail, TypeError::TooShort { short: 6 });
    assert!(matches!(Username::new("user@domain").unwrap_err().detail, TypeError::Format { .. }));
    assert!(matches!(Username::new("user name").unwrap_err().detail, TypeError::Format { .. }));
    assert_eq!(Username::new(" ").unwrap_err().detail, TypeError::Empty);
}

#[test]
fn test_username_display_and_as_ref() {
    let username = Username::new("RustDev").unwrap();
    assert_eq!(username.as_str(), "rustdev");
    assert_eq!(username.as_ref(), "rustdev");
    println!("Display username: {}", username.to_string());
}

#[test]
fn test_username_try_from_trait() {
    let username = Username::try_from("   example_user   ").unwrap();
    assert_eq!(username.as_str(), "example_user");
    println!("TryFrom conversion: {}", username.to_string());
}

#[test]
fn test_user_id_creation_and_parsing() {
    let user_id = UserId::new();
    assert_ne!(user_id.as_uuid(), uuid::Uuid::nil(), "a generated UUID is not nil");

    let uuid = uuid::Uuid::new_v4();
    let from_uuid = UserId::from_uuid(uuid);
    assert_eq!(from_uuid.as_uuid(), uuid);

    let valid_uuid_str = "550e8400-e29b-41d4-a716-446655440000";
    let parsed = UserId::try_from(valid_uuid_str);
    assert!(parsed.is_ok(), "'{}' is a valid UUID", valid_uuid_str);
    assert_eq!(parsed.unwrap().as_string(), valid_uuid_str);

    let parsed = UserId::try_from("not-a-valid-uuid");
    assert!(parsed.is_err());
    assert!(matches!(parsed.unwrap_err().detail, TypeError::Format { .. }));

    let parsed = UserId::try_from("");
    assert!(parsed.is_err());
    assert_eq!(parsed.unwrap_err().detail, TypeError::Empty);

    let parsed = UserId::try_from("550e8400");
    assert!(parsed.is_err());
}
