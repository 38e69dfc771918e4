//! The two-level error taxonomy: the field or concept that failed
//! (`CategoryError`) paired with the way it failed (`TypeError`).
use vstd::prelude::*;

use crate::status::UserStatus;

verus! {

#[derive(Debug, Clone, Copy, PartialEq, Eq, Structural, Hash)]
pub enum CategoryError {
    Id,
    ExternalId,
    Username,
    Email,
    Phone,
    Status,
    Role,
    Locale,
    Timezone,
    Gender,
    AuthType,
    SubscriptionTier,
    SubscriptionStatus,
    ConsentType,
    OccurredAt,
}

#[derive(Debug, Clone, PartialEq, Eq)]
pub enum TypeError {
    Empty,
    Missing,
    NotSupported,
    Format { format: String },
    TooShort { short: u16 },
    TooLong { long: u32 },
    Unchanged { value: String },
    Characters { value: String },
    StartsWithChar { start: String },
    EndsWithChar { end: String },
    AlreadyVerified,
    InvalidStatus { status: UserStatus },
    Transition { from: UserStatus, to: UserStatus },
}

/// A domain failure: which concept failed, and how.
#[derive(Debug, Clone, PartialEq, Eq)]
pub struct UserDomainError {
    pub category: CategoryError,
    pub detail: TypeError,
}

/// Whether `e` is a `Format` failure of category `c` naming the rule `format`.
pub open spec fn is_format_error(e: UserDomainError, c: CategoryError, format: Seq<char>) -> bool {
    &&& e.category == c
    &&& e.detail is Format
    &&& e.detail->format@ == format
}

impl UserDomainError {
    pub fn new(category: CategoryError, detail: TypeError) -> (r: UserDomainError)
        ensures
            r == (UserDomainError { category, detail }),
    {
        UserDomainError { category, detail }
    }

    /// An error whose detail is `Format`, naming the rule that was broken.
    pub fn format(category: CategoryError, rule: &str) -> (r: UserDomainError)
        ensures
            is_format_error(r, category, rule@),
    {
        UserDomainError { category, detail: TypeError::Format { format: String::from_str(rule) } }
    }

    pub fn category(&self) -> (r: CategoryError)
        ensures
            r == self.category,
    {
        self.category
    }

    pub fn detail(&self) -> (r: &TypeError)
        ensures
            *r == self.detail,
    {
        &self.detail
    }
}

impl From<(CategoryError, TypeError)> for UserDomainError {
    fn from(pair: (CategoryError, TypeError)) -> (r: UserDomainError) {
        UserDomainError { category: pair.0, detail: pair.1 }
    }
}

impl vstd::std_specs::convert::FromSpecImpl<(CategoryError, TypeError)> for UserDomainError {
    open spec fn obeys_from_spec() -> bool {
        true
    }

    open spec fn from_spec(pair: (CategoryError, TypeError)) -> UserDomainError {
        UserDomainError { category: pair.0, detail: pair.1 }
    }
}

} // verus!
