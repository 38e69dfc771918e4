//! The plan of a subscription.
use vstd::prelude::*;

use crate::errors::{CategoryError, TypeError, UserDomainError};
use crate::text::{ascii_lowercase, chars_of, lower_seq, same_text, trim_text, trimmed};

verus! {

/// The plan of a subscription.
#[derive(Debug, Clone, Copy, PartialEq, Eq, Structural, Hash)]
pub enum SubscriptionTier {
    Free,
    Basic,
    Premium,
    Enterprise,
}

impl SubscriptionTier {
    /// The accepted names, one per variant.
    pub const VALUES: [&'static str; 4] = ["free", "basic", "premium", "enterprise"];

    /// The textual name of the value.
    pub open spec fn name(self) -> Seq<char> {
        match self {
            SubscriptionTier::Free => "free"@,
            SubscriptionTier::Basic => "basic"@,
            SubscriptionTier::Premium => "premium"@,
            SubscriptionTier::Enterprise => "enterprise"@,
        }
    }

    /// The value whose name is `s`, if any.
    pub open spec fn from_name(s: Seq<char>) -> Option<SubscriptionTier> {
        if s == "free"@ {
            Some(SubscriptionTier::Free)
        } else if s == "basic"@ {
            Some(SubscriptionTier::Basic)
        } else if s == "premium"@ {
            Some(SubscriptionTier::Premium)
        } else if s == "enterprise"@ {
            Some(SubscriptionTier::Enterprise)
        } else {
            None
        }
    }

    /// What [`SubscriptionTier::new`] returns for `value`: empty after trimming is
    /// `Empty`; otherwise the name is looked up in ASCII lower case.
    pub open spec fn new_result(value: Seq<char>) -> Result<SubscriptionTier, UserDomainError> {
        if trimmed(value).len() == 0 {
            Err(UserDomainError { category: CategoryError::SubscriptionTier, detail: TypeError::Empty })
        } else {
            match SubscriptionTier::from_name(lower_seq(trimmed(value))) {
                Some(v) => Ok(v),
                None => Err(
                    UserDomainError { category: CategoryError::SubscriptionTier, detail: TypeError::NotSupported },
                ),
            }
        }
    }

    pub fn new(value: &str) -> (r: Result<SubscriptionTier, UserDomainError>)
        ensures
            r == SubscriptionTier::new_result(value@),
    {
        let t = trim_text(value);
        if t.is_empty() {
            return Err(UserDomainError::new(CategoryError::SubscriptionTier, TypeError::Empty));
        }
        let lowered = chars_of(ascii_lowercase(t).as_str());
        if same_text(&lowered, "free") {
            Ok(SubscriptionTier::Free)
        } else if same_text(&lowered, "basic") {
            Ok(SubscriptionTier::Basic)
        } else if same_text(&lowered, "premium") {
            Ok(SubscriptionTier::Premium)
        } else if same_text(&lowered, "enterprise") {
            Ok(SubscriptionTier::Enterprise)
        } else {
            Err(UserDomainError::new(CategoryError::SubscriptionTier, TypeError::NotSupported))
        }
    }

    /// Same as [`SubscriptionTier::new`].
    pub fn try_from(value: &str) -> (r: Result<SubscriptionTier, UserDomainError>)
        ensures
            r == SubscriptionTier::new_result(value@),
    {
        SubscriptionTier::new(value)
    }

    /// Same as [`SubscriptionTier::new`].
    pub fn from_str(value: &str) -> (r: Result<SubscriptionTier, UserDomainError>)
        ensures
            r == SubscriptionTier::new_result(value@),
    {
        SubscriptionTier::new(value)
    }

    pub fn as_str(&self) -> (r: &'static str)
        ensures
            r@ == self.name(),
    {
        match self {
            SubscriptionTier::Free => "free",
            SubscriptionTier::Basic => "basic",
            SubscriptionTier::Premium => "premium",
            SubscriptionTier::Enterprise => "enterprise",
        }
    }

    /// The textual name, as an owned string.
    pub fn to_string(&self) -> (r: String)
        ensures
            r@ == self.name(),
    {
        String::from_str(self.as_str())
    }
}

impl Default for SubscriptionTier {
    fn default() -> (r: SubscriptionTier)
        ensures
            r == SubscriptionTier::Free,
    {
        SubscriptionTier::Free
    }
}

} // verus!
