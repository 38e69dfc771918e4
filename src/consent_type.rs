//! The kind of consent a user gives.
use vstd::prelude::*;

use crate::errors::{CategoryError, TypeError, UserDomainError};
use crate::text::{ascii_lowercase, chars_of, lower_seq, same_text, trim_text, trimmed};

verus! {

/// The kind of consent a user gives.
#[derive(Debug, Clone, Copy, PartialEq, Eq, Structural, Hash)]
pub enum ConsentType {
    TermsOfService,
    PrivacyPolicy,
    MarketingEmails,
    DataRetention,
}

impl ConsentType {
    /// The accepted names, one per variant.
    pub const VALUES: [&'static str; 4] = ["terms_of_service", "privacy_policy", "marketing_emails", "data_retention"];

    /// The textual name of the value.
    pub open spec fn name(self) -> Seq<char> {
        match self {
            ConsentType::TermsOfService => "terms_of_service"@,
            ConsentType::PrivacyPolicy => "privacy_policy"@,
            ConsentType::MarketingEmails => "marketing_emails"@,
            ConsentType::DataRetention => "data_retention"@,
        }
    }

    /// The value whose name is `s`, if any.
    pub open spec fn from_name(s: Seq<char>) -> Option<ConsentType> {
        if s == "terms_of_service"@ {
            Some(ConsentType::TermsOfService)
        } else if s == "privacy_policy"@ {
            Some(ConsentType::PrivacyPolicy)
        } else if s == "marketing_emails"@ {
            Some(ConsentType::MarketingEmails)
        } else if s == "data_retention"@ {
            Some(ConsentType::DataRetention)
        } else {
            None
        }
    }

    /// What [`ConsentType::new`] returns for `value`: empty after trimming is
    /// `Empty`; otherwise the name is looked up in ASCII lower case.
    pub open spec fn new_result(value: Seq<char>) -> Result<ConsentType, UserDomainError> {
        if trimmed(value).len() == 0 {
            Err(UserDomainError { category: CategoryError::ConsentType, detail: TypeError::Empty })
        } else {
            match ConsentType::from_name(lower_seq(trimmed(value))) {
                Some(v) => Ok(v),
                None => Err(
                    UserDomainError { category: CategoryError::ConsentType, detail: TypeError::NotSupported },
                ),
            }
        }
    }

    pub fn new(value: &str) -> (r: Result<ConsentType, UserDomainError>)
        ensures
            r == ConsentType::new_result(value@),
    {
        let t = trim_text(value);
        if t.is_empty() {
            return Err(UserDomainError::new(CategoryError::ConsentType, TypeError::Empty));
        }
        let lowered = chars_of(ascii_lowercase(t).as_str());
        if same_text(&lowered, "terms_of_service") {
            Ok(ConsentType::TermsOfService)
        } else if same_text(&lowered, "privacy_policy") {
            Ok(ConsentType::PrivacyPolicy)
        } else if same_text(&lowered, "marketing_emails") {
            Ok(ConsentType::MarketingEmails)
        } else if same_text(&lowered, "data_retention") {
            Ok(ConsentType::DataRetention)
        } else {
            Err(UserDomainError::new(CategoryError::ConsentType, TypeError::NotSupported))
        }
    }

    /// Same as [`ConsentType::new`].
    pub fn try_from(value: &str) -> (r: Result<ConsentType, UserDomainError>)
        ensures
            r == ConsentType::new_result(value@),
    {
        ConsentType::new(value)
    }

    /// Same as [`ConsentType::new`].
    pub fn from_str(value: &str) -> (r: Result<ConsentType, UserDomainError>)
        ensures
            r == ConsentType::new_result(value@),
    {
        ConsentType::new(value)
    }

    pub fn as_str(&self) -> (r: &'static str)
        ensures
            r@ == self.name(),
    {
        match self {
            ConsentType::TermsOfService => "terms_of_service",
            ConsentType::PrivacyPolicy => "privacy_policy",
            ConsentType::MarketingEmails => "marketing_emails",
            ConsentType::DataRetention => "data_retention",
        }
    }

    /// The textual name, as an owned string.
    pub fn to_string(&self) -> (r: String)
        ensures
            r@ == self.name(),
    {
        String::from_str(self.as_str())
    }
}

} // verus!
