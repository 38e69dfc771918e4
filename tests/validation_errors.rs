use vendly_core::errors::{CategoryError, TypeError, UserDomainError};
use vendly_core::validation_error::{EmailErrorKind, UsernameErrorKind, ValidationError};

#[test]
fn test_validation_error_display_messages() {
    let cases = vec![
        (ValidationError::InvalidEmail, "El email proporcionado no es válido o supera los 320 caracteres."),
        (ValidationError::InvalidPhone, "El número de teléfono no es válido. Debe comenzar con '+' y contener solo dígitos, máximo 20 caracteres."),
        (ValidationError::InvalidUsernameLength, "El nombre de usuario no es válido. Debe tener entre 6 y 30 caracteres."),
        (ValidationError::InvalidUsernameFormat, "El nombre de usuario no es válido. Tiene un Formato inválido"),
        (ValidationError::InvalidExternalIdEmpty, "El identificador externo no puede estar vacío."),
        (ValidationError::InvalidExternalIdLength, "El identificador externo excede la longitud máxima permitida (255 caracteres)."),
        (ValidationError::InvalidExternalIdFormat, "El identificador externo contiene caracteres inválidos o de control."),
        (ValidationError::InvalidRole, "El rol proporcionado no es válido."),
        (ValidationError::InvalidUserStatus, "El estado de usuario proporcionado no es válido."),
        (ValidationError::InvalidLocale, "El locale proporcionado no es válido (ej: es-ES)."),
        (ValidationError::InvalidTimezone, "La zona horaria proporcionada no es válida."),
        (ValidationError::InvalidGender, "El género proporcionado no es válido."),
        (ValidationError::InvalidAuthType, "El tipo de autenticación proporcionado no es válido."),
        (ValidationError::InvalidSubscriptionTier, "El nivel de suscripción proporcionado no es válido."),
        (ValidationError::InvalidSubscriptionStatus, "El estado de suscripción proporcionado no es válido."),
        (ValidationError::InvalidConsentType, "El tipo de consentimiento proporcionado no es válido."),
    ];

    for (error, expected_msg) in cases {
        let msg = error.to_string();
        println!("{:?} -> '{}'", error, msg);
        assert_eq!(msg, expected_msg);
    }
}

#[test]
fn test_validation_error_implements_std_error() {
    let err = ValidationError::InvalidEmail;
    println!("Error: {}", err.to_string());
    assert_eq!(err.to_string(), "El email proporcionado no es válido o supera los 320 caracteres.");
}

#[test]
fn structured_messages_join_the_field_and_the_reason() {
    let err = ValidationError::from(EmailErrorKind::TooLong);
    assert_eq!(err, ValidationError::EmailError { reason: EmailErrorKind::TooLong });
    assert_eq!(
        err.to_string(),
        "Error en el email: Excede la longitud máxima permitida (254 caracteres)."
    );
    let err = ValidationError::from(UsernameErrorKind::Empty);
    assert_eq!(err.to_string(), "Error en el username: El username es obligatorio.");
}

#[test]
fn domain_errors_map_to_flat_codes() {
    let code = |category: CategoryError, detail: TypeError| {
        ValidationError::from(UserDomainError::new(category, detail))
    };
    assert_eq!(code(CategoryError::Email, TypeError::Empty), ValidationError::InvalidEmail);
    assert_eq!(
        code(CategoryError::Username, TypeError::TooShort { short: 6 }),
        ValidationError::InvalidUsernameLength
    );
    assert_eq!(
        code(CategoryError::Username, TypeError::Format { format: "USERNAME_REGEX".to_string() }),
        ValidationError::InvalidUsernameFormat
    );
    assert_eq!(code(CategoryError::ExternalId, TypeError::Empty), ValidationError::InvalidExternalIdEmpty);
    assert_eq!(
        code(CategoryError::ExternalId, TypeError::TooLong { long: 255 }),
        ValidationError::InvalidExternalIdLength
    );
    assert_eq!(code(CategoryError::Status, TypeError::NotSupported), ValidationError::InvalidUserStatus);
    assert_eq!(code(CategoryError::Phone, TypeError::Missing), ValidationError::InvalidPhone);
}
