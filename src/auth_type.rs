//! The kind of credential a user signs in with.
use vstd::prelude::*;

use crate::errors::{CategoryError, TypeError, UserDomainError};
use crate::text::{ascii_lowercase, chars_of, lower_seq, same_text, trim_text, trimmed};

verus! {

/// The kind of credential a user signs in with.
#[derive(Debug, Clone, Copy, PartialEq, Eq, Structural, Hash)]
pub enum AuthType {
    Password,
    Oidc,
    Saml,
}

impl AuthType {
    /// The accepted names, one per variant.
    pub const VALUES: [&'static str; 3] = ["password", "oidc", "saml"];

    /// The textual name of the value.
    pub open spec fn name(self) -> Seq<char> {
        match self {
            AuthType::Password => "password"@,
            AuthType::Oidc => "oidc"@,
            AuthType::Saml => "saml"@,
        }
    }

    /// The value whose name is `s`, if any.
    pub open spec fn from_name(s: Seq<char>) -> Option<AuthType> {
        if s == "password"@ {
            Some(AuthType::Password)
        } else if s == "oidc"@ {
            Some(AuthType::Oidc)
        } else if s == "saml"@ {
            Some(AuthType::Saml)
        } else {
            None
        }
    }

    /// What [`AuthType::new`] returns for `value`: empty after trimming is
    /// `Empty`; otherwise the name is looked up in ASCII lower case.
    pub open spec fn new_result(value: Seq<char>) -> Result<AuthType, UserDomainError> {
        if trimmed(value).len() == 0 {
            Err(UserDomainError { category: CategoryError::AuthType, detail: TypeError::Empty })
        } else {
            match AuthType::from_name(lower_seq(trimmed(value))) {
                Some(v) => Ok(v),
                None => Err(
                    UserDomainError { category: CategoryError::AuthType, detail: TypeError::NotSupported },
                ),
            }
        }
    }

    pub fn new(value: &str) -> (r: Result<AuthType, UserDomainError>)
        ensures
            r == AuthType::new_result(value@),
    {
        let t = trim_text(value);
        if t.is_empty() {
            return Err(UserDomainError::new(CategoryError::AuthType, TypeError::Empty));
        }
        let lowered = chars_of(ascii_lowercase(t).as_str());
        if same_text(&lowered, "password") {
            Ok(AuthType::Password)
        } else if same_text(&lowered, "oidc") {
            Ok(AuthType::Oidc)
        } else if same_text(&lowered, "saml") {
            Ok(AuthType::Saml)
        } else {
            Err(UserDomainError::new(CategoryError::AuthType, TypeError::NotSupported))
        }
    }

    /// Same as [`AuthType::new`].
    pub fn try_from(value: &str) -> (r: Result<AuthType, UserDomainError>)
        ensures
            r == AuthType::new_result(value@),
    {
        AuthType::new(value)
    }

    /// Same as [`AuthType::new`].
    pub fn from_str(value: &str) -> (r: Result<AuthType, UserDomainError>)
        ensures
            r == AuthType::new_result(value@),
    {
        AuthType::new(value)
    }

    pub fn as_str(&self) -> (r: &'static str)
        ensures
            r@ == self.name(),
    {
        match self {
            AuthType::Password => "password",
            AuthType::Oidc => "oidc",
            AuthType::Saml => "saml",
        }
    }

    /// The textual name, as an owned string.
    pub fn to_string(&self) -> (r: String)
        ensures
            r@ == self.name(),
    {
        String::from_str(self.as_str())
    }
}

} // verus!
