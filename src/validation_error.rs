//! Field-level validation failures with their user-facing messages.
use vstd::prelude::*;

use crate::errors::{CategoryError, TypeError, UserDomainError};

verus! {

#[derive(Debug, Clone, Copy, PartialEq, Eq, Structural, Hash)]
pub enum EmailErrorKind {
    Empty,
    Format,
    TooLong,
}

impl EmailErrorKind {
    /// The message shown for this reason.
    pub open spec fn text(self) -> Seq<char> {
        match self {
            EmailErrorKind::Empty => "El email es obligatorio."@,
            EmailErrorKind::Format => "El formato no es válido."@,
            EmailErrorKind::TooLong => "Excede la longitud máxima permitida (254 caracteres)."@,
        }
    }

    pub fn message(&self) -> (r: &'static str)
        ensures
            r@ == self.text(),
    {
        match self {
            EmailErrorKind::Empty => "El email es obligatorio.",
            EmailErrorKind::Format => "El formato no es válido.",
            EmailErrorKind::TooLong => "Excede la longitud máxima permitida (254 caracteres).",
        }
    }
}

impl From<EmailErrorKind> for ValidationError {
    fn from(reason: EmailErrorKind) -> (r: ValidationError) {
        ValidationError::EmailError { reason }
    }
}

impl vstd::std_specs::convert::FromSpecImpl<EmailErrorKind> for ValidationError {
    open spec fn obeys_from_spec() -> bool {
        true
    }

    open spec fn from_spec(reason: EmailErrorKind) -> ValidationError {
        ValidationError::EmailError { reason }
    }
}

#[derive(Debug, Clone, Copy, PartialEq, Eq, Structural, Hash)]
pub enum PhoneErrorKind {
    Empty,
    Missing,
    Format,
    TooShort,
    TooLong,
}

impl PhoneErrorKind {
    /// The message shown for this reason.
    pub open spec fn text(self) -> Seq<char> {
        match self {
            PhoneErrorKind::Empty => "El número de teléfono es obligatorio."@,
            PhoneErrorKind::Missing => "Se requiere un número de teléfono."@,
            PhoneErrorKind::Format => "El número de teléfono no es válido."@,
            PhoneErrorKind::TooShort => "El número de teléfono es demasiado corto."@,
            PhoneErrorKind::TooLong => "El número de teléfono es demasiado largo."@,
        }
    }

    pub fn message(&self) -> (r: &'static str)
        ensures
            r@ == self.text(),
    {
        match self {
            PhoneErrorKind::Empty => "El número de teléfono es obligatorio.",
            PhoneErrorKind::Missing => "Se requiere un número de teléfono.",
            PhoneErrorKind::Format => "El número de teléfono no es válido.",
            PhoneErrorKind::TooShort => "El número de teléfono es demasiado corto.",
            PhoneErrorKind::TooLong => "El número de teléfono es demasiado largo.",
        }
    }
}

impl From<PhoneErrorKind> for ValidationError {
    fn from(reason: PhoneErrorKind) -> (r: ValidationError) {
        ValidationError::PhoneError { reason }
    }
}

impl vstd::std_specs::convert::FromSpecImpl<PhoneErrorKind> for ValidationError {
    open spec fn obeys_from_spec() -> bool {
        true
    }

    open spec fn from_spec(reason: PhoneErrorKind) -> ValidationError {
        ValidationError::PhoneError { reason }
    }
}

#[derive(Debug, Clone, Copy, PartialEq, Eq, Structural, Hash)]
pub enum UsernameErrorKind {
    Empty,
    TooShort,
    TooLong,
    Characters,
    StartsWithChar,
    EndsWithChar,
}

impl UsernameErrorKind {
    /// The message shown for this reason.
    pub open spec fn text(self) -> Seq<char> {
        match self {
            UsernameErrorKind::Empty => "El username es obligatorio."@,
            UsernameErrorKind::TooShort => "El username es demasiado corto."@,
            UsernameErrorKind::TooLong => "El username es demasiado largo."@,
            UsernameErrorKind::Characters => "El username contiene caracteres no permitidos."@,
            UsernameErrorKind::StartsWithChar => "El username no puede comenzar con un carácter no permitido."@,
            UsernameErrorKind::EndsWithChar => "El username no puede terminar con un carácter no permitido."@,
        }
    }

    pub fn message(&self) -> (r: &'static str)
        ensures
            r@ == self.text(),
    {
        match self {
            UsernameErrorKind::Empty => "El username es obligatorio.",
            UsernameErrorKind::TooShort => "El username es demasiado corto.",
            UsernameErrorKind::TooLong => "El username es demasiado largo.",
            UsernameErrorKind::Characters => "El username contiene caracteres no permitidos.",
            UsernameErrorKind::StartsWithChar => "El username no puede comenzar con un carácter no permitido.",
            UsernameErrorKind::EndsWithChar => "El username no puede terminar con un carácter no permitido.",
        }
    }
}

impl From<UsernameErrorKind> for ValidationError {
    fn from(reason: UsernameErrorKind) -> (r: ValidationError) {
        ValidationError::UsernameError { reason }
    }
}

impl vstd::std_specs::convert::FromSpecImpl<UsernameErrorKind> for ValidationError {
    open spec fn obeys_from_spec() -> bool {
        true
    }

    open spec fn from_spec(reason: UsernameErrorKind) -> ValidationError {
        ValidationError::UsernameError { reason }
    }
}

#[derive(Debug, Clone, Copy, PartialEq, Eq, Structural, Hash)]
pub enum ExternalIdErrorKind {
    Empty,
    TooLong,
}

impl ExternalIdErrorKind {
    /// The message shown for this reason.
    pub open spec fn text(self) -> Seq<char> {
        match self {
            ExternalIdErrorKind::Empty => "El identificador externo es obligatorio."@,
            ExternalIdErrorKind::TooLong => "El identificador externo es demasiado largo."@,
        }
    }

    pub fn message(&self) -> (r: &'static str)
        ensures
            r@ == self.text(),
    {
        match self {
            ExternalIdErrorKind::Empty => "El identificador externo es obligatorio.",
            ExternalIdErrorKind::TooLong => "El identificador externo es demasiado largo.",
        }
    }
}

impl From<ExternalIdErrorKind> for ValidationError {
    fn from(reason: ExternalIdErrorKind) -> (r: ValidationError) {
        ValidationError::ExternalIdError { reason }
    }
}

impl vstd::std_specs::convert::FromSpecImpl<ExternalIdErrorKind> for ValidationError {
    open spec fn obeys_from_spec() -> bool {
        true
    }

    open spec fn from_spec(reason: ExternalIdErrorKind) -> ValidationError {
        ValidationError::ExternalIdError { reason }
    }
}

#[derive(Debug, Clone, Copy, PartialEq, Eq, Structural, Hash)]
pub enum UserStatusErrorKind {
    Empty,
    Value,
}

impl UserStatusErrorKind {
    /// The message shown for this reason.
    pub open spec fn text(self) -> Seq<char> {
        match self {
            UserStatusErrorKind::Empty => "El estado del usuario es obligatorio."@,
            UserStatusErrorKind::Value => "El estado del usuario proporcionado no es válido."@,
        }
    }

    pub fn message(&self) -> (r: &'static str)
        ensures
            r@ == self.text(),
    {
        match self {
            UserStatusErrorKind::Empty => "El estado del usuario es obligatorio.",
            UserStatusErrorKind::Value => "El estado del usuario proporcionado no es válido.",
        }
    }
}

impl From<UserStatusErrorKind> for ValidationError {
    fn from(reason: UserStatusErrorKind) -> (r: ValidationError) {
        ValidationError::UserStatusError { reason }
    }
}

impl vstd::std_specs::convert::FromSpecImpl<UserStatusErrorKind> for ValidationError {
    open spec fn obeys_from_spec() -> bool {
        true
    }

    open spec fn from_spec(reason: UserStatusErrorKind) -> ValidationError {
        ValidationError::UserStatusError { reason }
    }
}

#[derive(Debug, Clone, Copy, PartialEq, Eq, Structural, Hash)]
pub enum RoleErrorKind {
    Empty,
    Value,
}

impl RoleErrorKind {
    /// The message shown for this reason.
    pub open spec fn text(self) -> Seq<char> {
        match self {
            RoleErrorKind::Empty => "El rol es obligatorio."@,
            RoleErrorKind::Value => "El rol proporcionado no es válido o no está soportado."@,
        }
    }

    pub fn message(&self) -> (r: &'static str)
        ensures
            r@ == self.text(),
    {
        match self {
            RoleErrorKind::Empty => "El rol es obligatorio.",
            RoleErrorKind::Value => "El rol proporcionado no es válido o no está soportado.",
        }
    }
}

impl From<RoleErrorKind> for ValidationError {
    fn from(reason: RoleErrorKind) -> (r: ValidationError) {
        ValidationError::RoleError { reason }
    }
}

impl vstd::std_specs::convert::FromSpecImpl<RoleErrorKind> for ValidationError {
    open spec fn obeys_from_spec() -> bool {
        true
    }

    open spec fn from_spec(reason: RoleErrorKind) -> ValidationError {
        ValidationError::RoleError { reason }
    }
}

#[derive(Debug, Clone, Copy, PartialEq, Eq, Structural, Hash)]
pub enum LocaleErrorKind {
    Empty,
    Format,
}

impl LocaleErrorKind {
    /// The message shown for this reason.
    pub open spec fn text(self) -> Seq<char> {
        match self {
            LocaleErrorKind::Empty => "El locale es obligatorio."@,
            LocaleErrorKind::Format => "El locale proporcionado no es válido (ej: es-ES)."@,
        }
    }

    pub fn message(&self) -> (r: &'static str)
        ensures
            r@ == self.text(),
    {
        match self {
            LocaleErrorKind::Empty => "El locale es obligatorio.",
            LocaleErrorKind::Format => "El locale proporcionado no es válido (ej: es-ES).",
        }
    }
}

impl From<LocaleErrorKind> for ValidationError {
    fn from(reason: LocaleErrorKind) -> (r: ValidationError) {
        ValidationError::LocaleError { reason }
    }
}

impl vstd::std_specs::convert::FromSpecImpl<LocaleErrorKind> for ValidationError {
    open spec fn obeys_from_spec() -> bool {
        true
    }

    open spec fn from_spec(reason: LocaleErrorKind) -> ValidationError {
        ValidationError::LocaleError { reason }
    }
}

#[derive(Debug, Clone, Copy, PartialEq, Eq, Structural, Hash)]
pub enum TimezoneErrorKind {
    Empty,
    Value,
}

impl TimezoneErrorKind {
    /// The message shown for this reason.
    pub open spec fn text(self) -> Seq<char> {
        match self {
            TimezoneErrorKind::Empty => "La zona horaria es obligatoria."@,
            TimezoneErrorKind::Value => "La zona horaria proporcionada no es válida."@,
        }
    }

    pub fn message(&self) -> (r: &'static str)
        ensures
            r@ == self.text(),
    {
        match self {
            TimezoneErrorKind::Empty => "La zona horaria es obligatoria.",
            TimezoneErrorKind::Value => "La zona horaria proporcionada no es válida.",
        }
    }
}

impl From<TimezoneErrorKind> for ValidationError {
    fn from(reason: TimezoneErrorKind) -> (r: ValidationError) {
        ValidationError::TimezoneError { reason }
    }
}

impl vstd::std_specs::convert::FromSpecImpl<TimezoneErrorKind> for ValidationError {
    open spec fn obeys_from_spec() -> bool {
        true
    }

    open spec fn from_spec(reason: TimezoneErrorKind) -> ValidationError {
        ValidationError::TimezoneError { reason }
    }
}

#[derive(Debug, Clone, Copy, PartialEq, Eq, Structural, Hash)]
pub enum GenderErrorKind {
    Empty,
    Value,
}

impl GenderErrorKind {
    /// The message shown for this reason.
    pub open spec fn text(self) -> Seq<char> {
        match self {
            GenderErrorKind::Empty => "El género es obligatorio."@,
            GenderErrorKind::Value => "El género proporcionado no es válido o no esta soportado."@,
        }
    }

    pub fn message(&self) -> (r: &'static str)
        ensures
            r@ == self.text(),
    {
        match self {
            GenderErrorKind::Empty => "El género es obligatorio.",
            GenderErrorKind::Value => "El género proporcionado no es válido o no esta soportado.",
        }
    }
}

impl From<GenderErrorKind> for ValidationError {
    fn from(reason: GenderErrorKind) -> (r: ValidationError) {
        ValidationError::GenderError { reason }
    }
}

impl vstd::std_specs::convert::FromSpecImpl<GenderErrorKind> for ValidationError {
    open spec fn obeys_from_spec() -> bool {
        true
    }

    open spec fn from_spec(reason: GenderErrorKind) -> ValidationError {
        ValidationError::GenderError { reason }
    }
}

#[derive(Debug, Clone, Copy, PartialEq, Eq, Structural, Hash)]
pub enum AuthTypeErrorKind {
    Empty,
    Value,
}

impl AuthTypeErrorKind {
    /// The message shown for this reason.
    pub open spec fn text(self) -> Seq<char> {
        match self {
            AuthTypeErrorKind::Empty => "El tipo de autenticación es obligatorio."@,
            AuthTypeErrorKind::Value => "El tipo de autenticación proporcionado no es válido o no esta soportado."@,
        }
    }

    pub fn message(&self) -> (r: &'static str)
        ensures
            r@ == self.text(),
    {
        match self {
            AuthTypeErrorKind::Empty => "El tipo de autenticación es obligatorio.",
            AuthTypeErrorKind::Value => "El tipo de autenticación proporcionado no es válido o no esta soportado.",
        }
    }
}

impl From<AuthTypeErrorKind> for ValidationError {
    fn from(reason: AuthTypeErrorKind) -> (r: ValidationError) {
        ValidationError::AuthTypeError { reason }
    }
}

impl vstd::std_specs::convert::FromSpecImpl<AuthTypeErrorKind> for ValidationError {
    open spec fn obeys_from_spec() -> bool {
        true
    }

    open spec fn from_spec(reason: AuthTypeErrorKind) -> ValidationError {
        ValidationError::AuthTypeError { reason }
    }
}

#[derive(Debug, Clone, Copy, PartialEq, Eq, Structural, Hash)]
pub enum SubscriptionTierErrorKind {
    Empty,
    Value,
}

impl SubscriptionTierErrorKind {
    /// The message shown for this reason.
    pub open spec fn text(self) -> Seq<char> {
        match self {
            SubscriptionTierErrorKind::Empty => "El nivel de suscripción es obligatorio."@,
            SubscriptionTierErrorKind::Value => "El nivel de suscripción proporcionado no es válido o no esta soportado."@,
        }
    }

    pub fn message(&self) -> (r: &'static str)
        ensures
            r@ == self.text(),
    {
        match self {
            SubscriptionTierErrorKind::Empty => "El nivel de suscripción es obligatorio.",
            SubscriptionTierErrorKind::Value => "El nivel de suscripción proporcionado no es válido o no esta soportado.",
        }
    }
}

impl From<SubscriptionTierErrorKind> for ValidationError {
    fn from(reason: SubscriptionTierErrorKind) -> (r: ValidationError) {
        ValidationError::SubscriptionTierError { reason }
    }
}

impl vstd::std_specs::convert::FromSpecImpl<SubscriptionTierErrorKind> for ValidationError {
    open spec fn obeys_from_spec() -> bool {
        true
    }

    open spec fn from_spec(reason: SubscriptionTierErrorKind) -> ValidationError {
        ValidationError::SubscriptionTierError { reason }
    }
}

#[derive(Debug, Clone, Copy, PartialEq, Eq, Structural, Hash)]
pub enum SubscriptionStatusErrorKind {
    Empty,
    Value,
}

impl SubscriptionStatusErrorKind {
    /// The message shown for this reason.
    pub open spec fn text(self) -> Seq<char> {
        match self {
            SubscriptionStatusErrorKind::Empty => "El estado de suscripción es obligatorio."@,
            SubscriptionStatusErrorKind::Value => "El estado de suscripción proporcionado no es válido o no esta soportado."@,
        }
    }

    pub fn message(&self) -> (r: &'static str)
        ensures
            r@ == self.text(),
    {
        match self {
            SubscriptionStatusErrorKind::Empty => "El estado de suscripción es obligatorio.",
            SubscriptionStatusErrorKind::Value => "El estado de suscripción proporcionado no es válido o no esta soportado.",
        }
    }
}

impl From<SubscriptionStatusErrorKind> for ValidationError {
    fn from(reason: SubscriptionStatusErrorKind) -> (r: ValidationError) {
        ValidationError::SubscriptionStatusError { reason }
    }
}

impl vstd::std_specs::convert::FromSpecImpl<SubscriptionStatusErrorKind> for ValidationError {
    open spec fn obeys_from_spec() -> bool {
        true
    }

    open spec fn from_spec(reason: SubscriptionStatusErrorKind) -> ValidationError {
        ValidationError::SubscriptionStatusError { reason }
    }
}

#[derive(Debug, Clone, Copy, PartialEq, Eq, Structural, Hash)]
pub enum ConsentTypeErrorKind {
    Empty,
    Value,
}

impl ConsentTypeErrorKind {
    /// The message shown for this reason.
    pub open spec fn text(self) -> Seq<char> {
        match self {
            ConsentTypeErrorKind::Empty => "El tipo de consentimiento es obligatorio."@,
            ConsentTypeErrorKind::Value => "El tipo de consentimiento proporcionado no es válido o no esta soportado."@,
        }
    }

    pub fn message(&self) -> (r: &'static str)
        ensures
            r@ == self.text(),
    {
        match self {
            ConsentTypeErrorKind::Empty => "El tipo de consentimiento es obligatorio.",
            ConsentTypeErrorKind::Value => "El tipo de consentimiento proporcionado no es válido o no esta soportado.",
        }
    }
}

impl From<ConsentTypeErrorKind> for ValidationError {
    fn from(reason: ConsentTypeErrorKind) -> (r: ValidationError) {
        ValidationError::ConsentTypeError { reason }
    }
}

impl vstd::std_specs::convert::FromSpecImpl<ConsentTypeErrorKind> for ValidationError {
    open spec fn obeys_from_spec() -> bool {
        true
    }

    open spec fn from_spec(reason: ConsentTypeErrorKind) -> ValidationError {
        ValidationError::ConsentTypeError { reason }
    }
}

/// A validation failure. The structured variants carry the reason for one
/// field; the `Invalid*` codes are the flat form that callers outside the
/// aggregate report.
#[derive(Debug, Clone, Copy, PartialEq, Eq, Structural, Hash)]
pub enum ValidationError {
    EmailError { reason: EmailErrorKind },
    PhoneError { reason: PhoneErrorKind },
    UsernameError { reason: UsernameErrorKind },
    ExternalIdError { reason: ExternalIdErrorKind },
    UserStatusError { reason: UserStatusErrorKind },
    RoleError { reason: RoleErrorKind },
    LocaleError { reason: LocaleErrorKind },
    TimezoneError { reason: TimezoneErrorKind },
    GenderError { reason: GenderErrorKind },
    AuthTypeError { reason: AuthTypeErrorKind },
    SubscriptionTierError { reason: SubscriptionTierErrorKind },
    SubscriptionStatusError { reason: SubscriptionStatusErrorKind },
    ConsentTypeError { reason: ConsentTypeErrorKind },
    InvalidEmail,
    InvalidPhone,
    InvalidUsernameLength,
    InvalidUsernameFormat,
    InvalidExternalIdEmpty,
    InvalidExternalIdLength,
    InvalidExternalIdFormat,
    InvalidRole,
    InvalidUserStatus,
    InvalidLocale,
    InvalidTimezone,
    InvalidGender,
    InvalidAuthType,
    InvalidSubscriptionTier,
    InvalidSubscriptionStatus,
    InvalidConsentType,
    InvalidId,
    InvalidOccurredAt,
    InvalidPassword,
}

impl ValidationError {
    /// The message shown for this failure.
    pub open spec fn text(self) -> Seq<char> {
        match self {
            ValidationError::EmailError { reason } => "Error en el email: "@ + reason.text(),
            ValidationError::PhoneError { reason } => "Error en el teléfono: "@ + reason.text(),
            ValidationError::UsernameError { reason } => "Error en el username: "@ + reason.text(),
            ValidationError::ExternalIdError { reason } => "Error en el identificador externo: "@ + reason.text(),
            ValidationError::UserStatusError { reason } => "El estado del usuario proporcionado no es válido: "@ + reason.text(),
            ValidationError::RoleError { reason } => "El rol proporcionado no es válido o no está soportado: "@ + reason.text(),
            ValidationError::LocaleError { reason } => "El locale proporcionado no es válido (ej: es-ES): "@ + reason.text(),
            ValidationError::TimezoneError { reason } => "La zona horaria proporcionada no es válida: "@ + reason.text(),
            ValidationError::GenderError { reason } => "El género proporcionado no es válido o no esta soportado: "@ + reason.text(),
            ValidationError::AuthTypeError { reason } => "El tipo de autenticación proporcionado no es válido o no esta soportado: "@ + reason.text(),
            ValidationError::SubscriptionTierError { reason } => "El nivel de suscripción proporcionado no es válido o no esta soportado: "@ + reason.text(),
            ValidationError::SubscriptionStatusError { reason } => "El estado de suscripción proporcionado no es válido o no esta soportado: "@ + reason.text(),
            ValidationError::ConsentTypeError { reason } => "El tipo de consentimiento proporcionado no es válido o no esta soportado: "@ + reason.text(),
            ValidationError::InvalidEmail => "El email proporcionado no es válido o supera los 320 caracteres."@,
            ValidationError::InvalidPhone => "El número de teléfono no es válido. Debe comenzar con '+' y contener solo dígitos, máximo 20 caracteres."@,
            ValidationError::InvalidUsernameLength => "El nombre de usuario no es válido. Debe tener entre 6 y 30 caracteres."@,
            ValidationError::InvalidUsernameFormat => "El nombre de usuario no es válido. Tiene un Formato inválido"@,
            ValidationError::InvalidExternalIdEmpty => "El identificador externo no puede estar vacío."@,
            ValidationError::InvalidExternalIdLength => "El identificador externo excede la longitud máxima permitida (255 caracteres)."@,
            ValidationError::InvalidExternalIdFormat => "El identificador externo contiene caracteres inválidos o de control."@,
            ValidationError::InvalidRole => "El rol proporcionado no es válido."@,
            ValidationError::InvalidUserStatus => "El estado de usuario proporcionado no es válido."@,
            ValidationError::InvalidLocale => "El locale proporcionado no es válido (ej: es-ES)."@,
            ValidationError::InvalidTimezone => "La zona horaria proporcionada no es válida."@,
            ValidationError::InvalidGender => "El género proporcionado no es válido."@,
            ValidationError::InvalidAuthType => "El tipo de autenticación proporcionado no es válido."@,
            ValidationError::InvalidSubscriptionTier => "El nivel de suscripción proporcionado no es válido."@,
            ValidationError::InvalidSubscriptionStatus => "El estado de suscripción proporcionado no es válido."@,
            ValidationError::InvalidConsentType => "El tipo de consentimiento proporcionado no es válido."@,
            ValidationError::InvalidId => "El identificador proporcionado no es válido."@,
            ValidationError::InvalidOccurredAt => "La fecha proporcionada no es válida."@,
            ValidationError::InvalidPassword => "La contraseña proporcionada no es válida."@,
        }
    }

    /// The message shown for this failure.
    pub fn to_string(&self) -> (r: String)
        ensures
            r@ == self.text(),
    {
        match self {
            ValidationError::EmailError { reason } => String::from_str("Error en el email: ").concat(reason.message()),
            ValidationError::PhoneError { reason } => String::from_str("Error en el teléfono: ").concat(reason.message()),
            ValidationError::UsernameError { reason } => String::from_str("Error en el username: ").concat(reason.message()),
            ValidationError::ExternalIdError { reason } => String::from_str("Error en el identificador externo: ").concat(reason.message()),
            ValidationError::UserStatusError { reason } => String::from_str("El estado del usuario proporcionado no es válido: ").concat(reason.message()),
            ValidationError::RoleError { reason } => String::from_str("El rol proporcionado no es válido o no está soportado: ").concat(reason.message()),
            ValidationError::LocaleError { reason } => String::from_str("El locale proporcionado no es válido (ej: es-ES): ").concat(reason.message()),
            ValidationError::TimezoneError { reason } => String::from_str("La zona horaria proporcionada no es válida: ").concat(reason.message()),
            ValidationError::GenderError { reason } => String::from_str("El género proporcionado no es válido o no esta soportado: ").concat(reason.message()),
            ValidationError::AuthTypeError { reason } => String::from_str("El tipo de autenticación proporcionado no es válido o no esta soportado: ").concat(reason.message()),
            ValidationError::SubscriptionTierError { reason } => String::from_str("El nivel de suscripción proporcionado no es válido o no esta soportado: ").concat(reason.message()),
            ValidationError::SubscriptionStatusError { reason } => String::from_str("El estado de suscripción proporcionado no es válido o no esta soportado: ").concat(reason.message()),
            ValidationError::ConsentTypeError { reason } => String::from_str("El tipo de consentimiento proporcionado no es válido o no esta soportado: ").concat(reason.message()),
            ValidationError::InvalidEmail => String::from_str("El email proporcionado no es válido o supera los 320 caracteres."),
            ValidationError::InvalidPhone => String::from_str("El número de teléfono no es válido. Debe comenzar con '+' y contener solo dígitos, máximo 20 caracteres."),
            ValidationError::InvalidUsernameLength => String::from_str("El nombre de usuario no es válido. Debe tener entre 6 y 30 caracteres."),
            ValidationError::InvalidUsernameFormat => String::from_str("El nombre de usuario no es válido. Tiene un Formato inválido"),
            ValidationError::InvalidExternalIdEmpty => String::from_str("El identificador externo no puede estar vacío."),
            ValidationError::InvalidExternalIdLength => String::from_str("El identificador externo excede la longitud máxima permitida (255 caracteres)."),
            ValidationError::InvalidExternalIdFormat => String::from_str("El identificador externo contiene caracteres inválidos o de control."),
            ValidationError::InvalidRole => String::from_str("El rol proporcionado no es válido."),
            ValidationError::InvalidUserStatus => String::from_str("El estado de usuario proporcionado no es válido."),
            ValidationError::InvalidLocale => String::from_str("El locale proporcionado no es válido (ej: es-ES)."),
            ValidationError::InvalidTimezone => String::from_str("La zona horaria proporcionada no es válida."),
            ValidationError::InvalidGender => String::from_str("El género proporcionado no es válido."),
            ValidationError::InvalidAuthType => String::from_str("El tipo de autenticación proporcionado no es válido."),
            ValidationError::InvalidSubscriptionTier => String::from_str("El nivel de suscripción proporcionado no es válido."),
            ValidationError::InvalidSubscriptionStatus => String::from_str("El estado de suscripción proporcionado no es válido."),
            ValidationError::InvalidConsentType => String::from_str("El tipo de consentimiento proporcionado no es válido."),
            ValidationError::InvalidId => String::from_str("El identificador proporcionado no es válido."),
            ValidationError::InvalidOccurredAt => String::from_str("La fecha proporcionada no es válida."),
            ValidationError::InvalidPassword => String::from_str("La contraseña proporcionada no es válida."),
        }
    }

    /// The flat code for a domain error: one per category, except that a
    /// username separates length from format and an outside identifier
    /// separates emptiness, length and content.
    pub open spec fn code_of(e: UserDomainError) -> ValidationError {
        match e.category {
            CategoryError::Id => ValidationError::InvalidId,
            CategoryError::ExternalId => match e.detail {
                TypeError::Empty => ValidationError::InvalidExternalIdEmpty,
                TypeError::TooShort { .. } => ValidationError::InvalidExternalIdLength,
                TypeError::TooLong { .. } => ValidationError::InvalidExternalIdLength,
                _ => ValidationError::InvalidExternalIdFormat,
            },
            CategoryError::Username => match e.detail {
                TypeError::Empty => ValidationError::InvalidUsernameLength,
                TypeError::TooShort { .. } => ValidationError::InvalidUsernameLength,
                TypeError::TooLong { .. } => ValidationError::InvalidUsernameLength,
                _ => ValidationError::InvalidUsernameFormat,
            },
            CategoryError::Email => ValidationError::InvalidEmail,
            CategoryError::Phone => ValidationError::InvalidPhone,
            CategoryError::Status => ValidationError::InvalidUserStatus,
            CategoryError::Role => ValidationError::InvalidRole,
            CategoryError::Locale => ValidationError::InvalidLocale,
            CategoryError::Timezone => ValidationError::InvalidTimezone,
            CategoryError::Gender => ValidationError::InvalidGender,
            CategoryError::AuthType => ValidationError::InvalidAuthType,
            CategoryError::SubscriptionTier => ValidationError::InvalidSubscriptionTier,
            CategoryError::SubscriptionStatus => ValidationError::InvalidSubscriptionStatus,
            CategoryError::ConsentType => ValidationError::InvalidConsentType,
            CategoryError::OccurredAt => ValidationError::InvalidOccurredAt,
        }
    }

    /// The flat code for a domain error.
    pub fn code(e: &UserDomainError) -> (r: ValidationError)
        ensures
            r == ValidationError::code_of(*e),
    {
        match e.category {
            CategoryError::Id => ValidationError::InvalidId,
            CategoryError::ExternalId => match e.detail {
                TypeError::Empty => ValidationError::InvalidExternalIdEmpty,
                TypeError::TooShort { .. } => ValidationError::InvalidExternalIdLength,
                TypeError::TooLong { .. } => ValidationError::InvalidExternalIdLength,
                _ => ValidationError::InvalidExternalIdFormat,
            },
            CategoryError::Username => match e.detail {
                TypeError::Empty => ValidationError::InvalidUsernameLength,
                TypeError::TooShort { .. } => ValidationError::InvalidUsernameLength,
                TypeError::TooLong { .. } => ValidationError::InvalidUsernameLength,
                _ => ValidationError::InvalidUsernameFormat,
            },
            CategoryError::Email => ValidationError::InvalidEmail,
            CategoryError::Phone => ValidationError::InvalidPhone,
            CategoryError::Status => ValidationError::InvalidUserStatus,
            CategoryError::Role => ValidationError::InvalidRole,
            CategoryError::Locale => ValidationError::InvalidLocale,
            CategoryError::Timezone => ValidationError::InvalidTimezone,
            CategoryError::Gender => ValidationError::InvalidGender,
            CategoryError::AuthType => ValidationError::InvalidAuthType,
            CategoryError::SubscriptionTier => ValidationError::InvalidSubscriptionTier,
            CategoryError::SubscriptionStatus => ValidationError::InvalidSubscriptionStatus,
            CategoryError::ConsentType => ValidationError::InvalidConsentType,
            CategoryError::OccurredAt => ValidationError::InvalidOccurredAt,
        }
    }
}

impl From<UserDomainError> for ValidationError {
    fn from(e: UserDomainError) -> (r: ValidationError) {
        ValidationError::code(&e)
    }
}

impl vstd::std_specs::convert::FromSpecImpl<UserDomainError> for ValidationError {
    open spec fn obeys_from_spec() -> bool {
        true
    }

    open spec fn from_spec(e: UserDomainError) -> ValidationError {
        ValidationError::code_of(e)
    }
}

} // verus!
