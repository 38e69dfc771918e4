//! The state of a subscription.
use vstd::prelude::*;

use crate::errors::{CategoryError, TypeError, UserDomainError};
use crate::text::{ascii_lowercase, chars_of, lower_seq, same_text, trim_text, trimmed};

verus! {

/// The state of a subscription.
#[derive(Debug, Clone, Copy, PartialEq, Eq, Structural, Hash)]
pub enum SubscriptionStatus {
    Active,
    Inactive,
    Pending,
    Canceled,
    Expired,
}

impl SubscriptionStatus {
    /// The accepted names, one per variant.
    pub const VALUES: [&'static str; 5] = ["active", "inactive", "pending", "canceled", "expired"];

    /// The textual name of the value.
    pub open spec fn name(self) -> Seq<char> {
        match self {
            SubscriptionStatus::Active => "active"@,
            SubscriptionStatus::Inactive => "inactive"@,
            SubscriptionStatus::Pending => "pending"@,
            SubscriptionStatus::Canceled => "canceled"@,
            SubscriptionStatus::Expired => "expired"@,
        }
    }

    /// The value whose name is `s`, if any.
    pub open spec fn from_name(s: Seq<char>) -> Option<SubscriptionStatus> {
        if s == "active"@ {
            Some(SubscriptionStatus::Active)
        } else if s == "inactive"@ {
            Some(SubscriptionStatus::Inactive)
        } else if s == "pending"@ {
            Some(SubscriptionStatus::Pending)
        } else if s == "canceled"@ {
            Some(SubscriptionStatus::Canceled)
        } else if s == "expired"@ {
            Some(SubscriptionStatus::Expired)
        } else {
            None
        }
    }

    /// What [`SubscriptionStatus::new`] returns for `value`: empty after trimming is
    /// `Empty`; otherwise the name is looked up in ASCII lower case.
    pub open spec fn new_result(value: Seq<char>) -> Result<SubscriptionStatus, UserDomainError> {
        if trimmed(value).len() == 0 {
            Err(UserDomainError { category: CategoryError::SubscriptionStatus, detail: TypeError::Empty })
        } else {
            match SubscriptionStatus::from_name(lower_seq(trimmed(value))) {
                Some(v) => Ok(v),
                None => Err(
                    UserDomainError { category: CategoryError::SubscriptionStatus, detail: TypeError::NotSupported },
                ),
            }
        }
    }

    pub fn new(value: &str) -> (r: Result<SubscriptionStatus, UserDomainError>)
        ensures
            r == SubscriptionStatus::new_result(value@),
    {
        let t = trim_text(value);
        if t.is_empty() {
            return Err(UserDomainError::new(CategoryError::SubscriptionStatus, TypeError::Empty));
        }
        let lowered = chars_of(ascii_lowercase(t).as_str());
        if same_text(&lowered, "active") {
            Ok(SubscriptionStatus::Active)
        } else if same_text(&lowered, "inactive") {
            Ok(SubscriptionStatus::Inactive)
        } else if same_text(&lowered, "pending") {
            Ok(SubscriptionStatus::Pending)
        } else if same_text(&lowered, "canceled") {
            Ok(SubscriptionStatus::Canceled)
        } else if same_text(&lowered, "expired") {
            Ok(SubscriptionStatus::Expired)
        } else {
            Err(UserDomainError::new(CategoryError::SubscriptionStatus, TypeError::NotSupported))
        }
    }

    /// Same as [`SubscriptionStatus::new`].
    pub fn try_from(value: &str) -> (r: Result<SubscriptionStatus, UserDomainError>)
        ensures
            r == SubscriptionStatus::new_result(value@),
    {
        SubscriptionStatus::new(value)
    }

    /// Same as [`SubscriptionStatus::new`].
    pub fn from_str(value: &str) -> (r: Result<SubscriptionStatus, UserDomainError>)
        ensures
            r == SubscriptionStatus::new_result(value@),
    {
        SubscriptionStatus::new(value)
    }

    pub fn as_str(&self) -> (r: &'static str)
        ensures
            r@ == self.name(),
    {
        match self {
            SubscriptionStatus::Active => "active",
            SubscriptionStatus::Inactive => "inactive",
            SubscriptionStatus::Pending => "pending",
            SubscriptionStatus::Canceled => "canceled",
            SubscriptionStatus::Expired => "expired",
        }
    }

    /// The textual name, as an owned string.
    pub fn to_string(&self) -> (r: String)
        ensures
            r@ == self.name(),
    {
        String::from_str(self.as_str())
    }
}

} // verus!
