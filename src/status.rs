//! The lifecycle status of a user.
use vstd::prelude::*;

use crate::errors::{CategoryError, TypeError, UserDomainError};
use crate::text::{ascii_lowercase, chars_of, lower_seq, same_text, trim_text, trimmed};

verus! {

#[derive(Debug, Clone, Copy, PartialEq, Eq, Structural, Hash)]
pub enum UserStatus {
    Pending,
    Active,
    Suspended,
    Deleted,
}

impl UserStatus {
    /// The textual name of the status.
    pub open spec fn name(self) -> Seq<char> {
        match self {
            UserStatus::Pending => "pending"@,
            UserStatus::Active => "active"@,
            UserStatus::Suspended => "suspended"@,
            UserStatus::Deleted => "deleted"@,
        }
    }

    /// The status whose name is `s`, if any.
    pub open spec fn from_name(s: Seq<char>) -> Option<UserStatus> {
        if s == "pending"@ {
            Some(UserStatus::Pending)
        } else if s == "active"@ {
            Some(UserStatus::Active)
        } else if s == "suspended"@ {
            Some(UserStatus::Suspended)
        } else if s == "deleted"@ {
            Some(UserStatus::Deleted)
        } else {
            None
        }
    }

    /// The names of all statuses, in lifecycle order.
    pub fn variants() -> (r: Vec<&'static str>)
        ensures
            r@.len() == 4,
            r@[0]@ == UserStatus::Pending.name(),
            r@[1]@ == UserStatus::Active.name(),
            r@[2]@ == UserStatus::Suspended.name(),
            r@[3]@ == UserStatus::Deleted.name(),
    {
        vec!["pending", "active", "suspended", "deleted"]
    }

    /// Parses a status: the input is trimmed and compared without regard to ASCII case.
    pub fn new(value: &str) -> (r: Result<UserStatus, UserDomainError>)
        ensures
            r == UserStatus::new_result(value@),
    {
        let t = trim_text(value);
        if t.is_empty() {
            return Err(UserDomainError { category: CategoryError::Status, detail: TypeError::Empty });
        }
        let lowered = chars_of(ascii_lowercase(t).as_str());
        if same_text(&lowered, "pending") {
            Ok(UserStatus::Pending)
        } else if same_text(&lowered, "active") {
            Ok(UserStatus::Active)
        } else if same_text(&lowered, "suspended") {
            Ok(UserStatus::Suspended)
        } else if same_text(&lowered, "deleted") {
            Ok(UserStatus::Deleted)
        } else {
            Err(UserDomainError { category: CategoryError::Status, detail: TypeError::NotSupported })
        }
    }

    /// Same as [`UserStatus::new`].
    pub fn from_str(value: &str) -> (r: Result<UserStatus, UserDomainError>)
        ensures
            r == UserStatus::new_result(value@),
    {
        UserStatus::new(value)
    }

    /// Same as [`UserStatus::new`].
    pub fn try_from(value: &str) -> (r: Result<UserStatus, UserDomainError>)
        ensures
            r == UserStatus::new_result(value@),
    {
        UserStatus::new(value)
    }

    /// What [`UserStatus::new`] returns for `value`: empty after trimming is
    /// `Empty`; otherwise the name is looked up in ASCII lower case.
    pub open spec fn new_result(value: Seq<char>) -> Result<UserStatus, UserDomainError> {
        if trimmed(value).len() == 0 {
            Err(UserDomainError { category: CategoryError::Status, detail: TypeError::Empty })
        } else {
            match UserStatus::from_name(lower_seq(trimmed(value))) {
                Some(s) => Ok(s),
                None => Err(
                    UserDomainError { category: CategoryError::Status, detail: TypeError::NotSupported },
                ),
            }
        }
    }

    pub fn as_str(&self) -> (r: &'static str)
        ensures
            r@ == self.name(),
    {
        match self {
            UserStatus::Pending => "pending",
            UserStatus::Active => "active",
            UserStatus::Suspended => "suspended",
            UserStatus::Deleted => "deleted",
        }
    }

    /// The textual name, as an owned string.
    pub fn to_string(&self) -> (r: String)
        ensures
            r@ == self.name(),
    {
        String::from_str(self.as_str())
    }

    pub fn is_active(&self) -> (r: bool)
        ensures
            r == (*self == UserStatus::Active),
    {
        matches!(self, UserStatus::Active)
    }

    pub fn is_pending(&self) -> (r: bool)
        ensures
            r == (*self == UserStatus::Pending),
    {
        matches!(self, UserStatus::Pending)
    }

    pub fn is_suspended(&self) -> (r: bool)
        ensures
            r == (*self == UserStatus::Suspended),
    {
        matches!(self, UserStatus::Suspended)
    }

    pub fn is_deleted(&self) -> (r: bool)
        ensures
            r == (*self == UserStatus::Deleted),
    {
        matches!(self, UserStatus::Deleted)
    }
}

} // verus!
