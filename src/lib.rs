//! Domain model of the user context: validated value objects, the error
//! taxonomy, the `User` aggregate with its lifecycle and events, the
//! entities kept beside it (profile, sessions, subscriptions, roles,
//! credentials, consents) and the services and repository contracts around them.
pub mod activity_log;
pub mod aggregate;
pub mod auth_method;
pub mod authentication;
pub mod auth_type;
pub mod consent_type;
pub mod email;
pub mod errors;
pub mod events;
pub mod external_id;
pub mod factory;
pub mod gdpr_consent;
pub mod gender;
pub mod ids;
pub mod locale;
pub mod mfa;
pub mod password;
pub mod phone;
pub mod profile;
pub mod registration;
pub mod repositories;
pub mod role;
pub mod role_name;
pub mod session;
pub mod status;
pub mod subscription;
pub mod subscription_status;
pub mod subscription_tier;
pub mod text;
pub mod timezone;
pub mod user;
pub mod user_role;
pub mod username;
pub mod validation_error;
