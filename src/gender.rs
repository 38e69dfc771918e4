//! The gender a user states.
use vstd::prelude::*;

use crate::errors::{CategoryError, TypeError, UserDomainError};
use crate::text::{ascii_lowercase, chars_of, lower_seq, same_text, trim_text, trimmed};

verus! {

/// The gender a user states.
#[derive(Debug, Clone, Copy, PartialEq, Eq, Structural, Hash)]
pub enum Gender {
    Male,
    Female,
    Other,
    PreferNotToSay,
}

impl Gender {
    /// The accepted names, one per variant.
    pub const VALUES: [&'static str; 4] = ["male", "female", "other", "prefer_not_to_say"];

    /// The textual name of the value.
    pub open spec fn name(self) -> Seq<char> {
        match self {
            Gender::Male => "male"@,
            Gender::Female => "female"@,
            Gender::Other => "other"@,
            Gender::PreferNotToSay => "prefer_not_to_say"@,
        }
    }

    /// The value whose name is `s`, if any.
    pub open spec fn from_name(s: Seq<char>) -> Option<Gender> {
        if s == "male"@ {
            Some(Gender::Male)
        } else if s == "female"@ {
            Some(Gender::Female)
        } else if s == "other"@ {
            Some(Gender::Other)
        } else if s == "prefer_not_to_say"@ {
            Some(Gender::PreferNotToSay)
        } else {
            None
        }
    }

    /// What [`Gender::new`] returns for `value`: empty after trimming is
    /// `Empty`; otherwise the name is looked up in ASCII lower case.
    pub open spec fn new_result(value: Seq<char>) -> Result<Gender, UserDomainError> {
        if trimmed(value).len() == 0 {
            Err(UserDomainError { category: CategoryError::Gender, detail: TypeError::Empty })
        } else {
            match Gender::from_name(lower_seq(trimmed(value))) {
                Some(v) => Ok(v),
                None => Err(
                    UserDomainError { category: CategoryError::Gender, detail: TypeError::NotSupported },
                ),
            }
        }
    }

    pub fn new(value: &str) -> (r: Result<Gender, UserDomainError>)
        ensures
            r == Gender::new_result(value@),
    {
        let t = trim_text(value);
        if t.is_empty() {
            return Err(UserDomainError::new(CategoryError::Gender, TypeError::Empty));
        }
        let lowered = chars_of(ascii_lowercase(t).as_str());
        if same_text(&lowered, "male") {
            Ok(Gender::Male)
        } else if same_text(&lowered, "female") {
            Ok(Gender::Female)
        } else if same_text(&lowered, "other") {
            Ok(Gender::Other)
        } else if same_text(&lowered, "prefer_not_to_say") {
            Ok(Gender::PreferNotToSay)
        } else {
            Err(UserDomainError::new(CategoryError::Gender, TypeError::NotSupported))
        }
    }

    /// Same as [`Gender::new`].
    pub fn try_from(value: &str) -> (r: Result<Gender, UserDomainError>)
        ensures
            r == Gender::new_result(value@),
    {
        Gender::new(value)
    }

    /// Same as [`Gender::new`].
    pub fn from_str(value: &str) -> (r: Result<Gender, UserDomainError>)
        ensures
            r == Gender::new_result(value@),
    {
        Gender::new(value)
    }

    pub fn as_str(&self) -> (r: &'static str)
        ensures
            r@ == self.name(),
    {
        match self {
            Gender::Male => "male",
            Gender::Female => "female",
            Gender::Other => "other",
            Gender::PreferNotToSay => "prefer_not_to_say",
        }
    }

    /// The textual name, as an owned string.
    pub fn to_string(&self) -> (r: String)
        ensures
            r@ == self.name(),
    {
        String::from_str(self.as_str())
    }
}

} // verus!
