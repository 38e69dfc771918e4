//! The role name value object.
use vstd::prelude::*;

use crate::errors::{CategoryError, TypeError, UserDomainError};
use crate::text::{
    ascii_digit, ascii_lower_letter, ascii_lowercase, ascii_upper, chars_of, is_ascii_digit,
    is_ascii_lower, lower_seq, string_from_chars, trim_text, trimmed, upper_char,
};

verus! {

pub const MIN_ROLE_LEN: usize = 3;

pub const MAX_ROLE_LEN: usize = 50;

pub open spec fn is_role_char(c: char) -> bool {
    is_ascii_lower(c) || is_ascii_digit(c) || c == '_' || c == '-'
}

/// A small letter followed by small letters, digits, `_` or `-`.
pub open spec fn role_name_format(s: Seq<char>) -> bool {
    &&& s.len() >= 1
    &&& is_ascii_lower(s[0])
    &&& forall|i: int| 1 <= i < s.len() ==> is_role_char(#[trigger] s[i])
}

/// The normal form of a raw role name: trimmed and in ASCII lower case.
pub open spec fn role_name_canonical(raw: Seq<char>) -> Seq<char> {
    lower_seq(trimmed(raw))
}

/// Whether [`RoleName::new`] accepts `raw`.
pub open spec fn role_name_accepts(raw: Seq<char>) -> bool {
    let c = role_name_canonical(raw);
    &&& MIN_ROLE_LEN <= c.len() <= MAX_ROLE_LEN
    &&& role_name_format(c)
}

/// The error that [`RoleName::new`] gives for a rejected `raw`.
pub open spec fn role_name_error(raw: Seq<char>, e: UserDomainError) -> bool {
    let c = role_name_canonical(raw);
    &&& e.category == CategoryError::Role
    &&& if c.len() == 0 {
        e.detail == TypeError::Empty
    } else if c.len() < MIN_ROLE_LEN {
        e.detail == (TypeError::TooShort { short: MIN_ROLE_LEN as u16 })
    } else if c.len() > MAX_ROLE_LEN {
        e.detail == (TypeError::TooLong { long: MAX_ROLE_LEN as u32 })
    } else {
        e.detail is Format && e.detail->format@ == "ROLE_NAME_REGEX"@
    }
}

fn check_role_name_format(s: &Vec<char>) -> (r: bool)
    ensures
        r == role_name_format(s@),
{
    let n = s.len();
    if n < 1 || !ascii_lower_letter(s[0]) {
        return false;
    }
    let mut i: usize = 1;
    while i < n
        invariant
            n == s.len(),
            1 <= i <= n,
            forall|j: int| 1 <= j < i ==> is_role_char(#[trigger] s@[j]),
        decreases n - i,
    {
        let c = s[i];
        if !(ascii_lower_letter(c) || ascii_digit(c) || c == '_' || c == '-') {
            return false;
        }
        i = i + 1;
    }
    true
}

/// A validated role name in normal form.
#[derive(Debug, Clone, PartialEq, Eq, Hash)]
pub struct RoleName(String);

impl View for RoleName {
    type V = Seq<char>;

    closed spec fn view(&self) -> Seq<char> {
        self.0@
    }
}

impl RoleName {
    /// Trims, lower-cases ASCII letters, then checks the length (3 to 50)
    /// and the allowed characters.
    pub fn new(value: &str) -> (r: Result<RoleName, UserDomainError>)
        ensures
            match r {
                Ok(n) => role_name_accepts(value@) && n@ == role_name_canonical(value@),
                Err(e) => !role_name_accepts(value@) && role_name_error(value@, e),
            },
    {
        let t = trim_text(value);
        let lowered = ascii_lowercase(t);
        let cs = chars_of(lowered.as_str());
        let n = cs.len();
        if n == 0 {
            return Err(UserDomainError::new(CategoryError::Role, TypeError::Empty));
        }
        if n < MIN_ROLE_LEN {
            return Err(
                UserDomainError::new(
                    CategoryError::Role,
                    TypeError::TooShort { short: MIN_ROLE_LEN as u16 },
                ),
            );
        }
        if n > MAX_ROLE_LEN {
            return Err(
                UserDomainError::new(
                    CategoryError::Role,
                    TypeError::TooLong { long: MAX_ROLE_LEN as u32 },
                ),
            );
        }
        if !check_role_name_format(&cs) {
            return Err(UserDomainError::format(CategoryError::Role, "ROLE_NAME_REGEX"));
        }
        Ok(RoleName(lowered))
    }

    /// Same as [`RoleName::new`].
    pub fn try_from(value: &str) -> (r: Result<RoleName, UserDomainError>)
        ensures
            match r {
                Ok(n) => role_name_accepts(value@) && n@ == role_name_canonical(value@),
                Err(e) => !role_name_accepts(value@) && role_name_error(value@, e),
            },
    {
        RoleName::new(value)
    }

    pub fn as_str(&self) -> (r: &str)
        ensures
            r@ == self@,
    {
        self.0.as_str()
    }

    /// The role name as an owned string.
    pub fn to_string(&self) -> (r: String)
        ensures
            r@ == self@,
    {
        self.0.clone()
    }

    /// The name with its first letter capitalised, for display.
    pub fn normalized(&self) -> (r: String)
        ensures
            self@.len() == 0 ==> r@ == self@,
            self@.len() > 0 ==> r@ == self@.update(0, ascii_upper(self@[0])),
    {
        let mut cs = chars_of(self.0.as_str());
        if cs.len() == 0 {
            return String::new();
        }
        let first = upper_char(cs[0]);
        cs.set(0, first);
        string_from_chars(&cs)
    }
}

impl AsRef<str> for RoleName {
    fn as_ref(&self) -> &str {
        self.0.as_str()
    }
}

} // verus!
