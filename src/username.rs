//! The username value object.
use vstd::prelude::*;

use crate::errors::{CategoryError, TypeError, UserDomainError};
use crate::text::{
    ascii_digit, ascii_lower_letter, ascii_lowercase, chars_of, is_ascii_digit, is_ascii_lower,
    lower_seq, trim_text, trimmed,
};

verus! {

pub const MIN_USERNAME_LEN: usize = 6;

pub const MAX_USERNAME_LEN: usize = 30;

pub open spec fn is_name_alnum(c: char) -> bool {
    is_ascii_lower(c) || is_ascii_digit(c)
}

pub open spec fn is_name_symbol(c: char) -> bool {
    c == '.' || c == '_' || c == '-'
}

/// A small letter, then a small letter or digit; after that small letters,
/// digits and the symbols `.`, `_`, `-`, each symbol followed by a letter or digit.
pub open spec fn username_format(s: Seq<char>) -> bool {
    &&& s.len() >= 2
    &&& is_ascii_lower(s[0])
    &&& is_name_alnum(s[1])
    &&& forall|i: int| 0 <= i < s.len() ==> is_name_alnum(#[trigger] s[i]) || is_name_symbol(s[i])
    &&& forall|i: int|
        0 <= i < s.len() && is_name_symbol(#[trigger] s[i]) ==> i + 1 < s.len() && is_name_alnum(
            s[i + 1],
        )
}

/// The normal form of a raw username: trimmed and in ASCII lower case.
pub open spec fn username_canonical(raw: Seq<char>) -> Seq<char> {
    lower_seq(trimmed(raw))
}

/// Whether [`Username::new`] accepts `raw`.
pub open spec fn username_accepts(raw: Seq<char>) -> bool {
    let c = username_canonical(raw);
    &&& MIN_USERNAME_LEN <= c.len() <= MAX_USERNAME_LEN
    &&& username_format(c)
}

/// The error that [`Username::new`] gives for a rejected `raw`.
pub open spec fn username_error(raw: Seq<char>, e: UserDomainError) -> bool {
    let c = username_canonical(raw);
    &&& e.category == CategoryError::Username
    &&& if c.len() == 0 {
        e.detail == TypeError::Empty
    } else if c.len() < MIN_USERNAME_LEN {
        e.detail == (TypeError::TooShort { short: MIN_USERNAME_LEN as u16 })
    } else if c.len() > MAX_USERNAME_LEN {
        e.detail == (TypeError::TooLong { long: MAX_USERNAME_LEN as u32 })
    } else {
        e.detail is Format && e.detail->format@ == "USERNAME_REGEX"@
    }
}

fn name_alnum(c: char) -> (r: bool)
    ensures
        r == is_name_alnum(c),
{
    ascii_lower_letter(c) || ascii_digit(c)
}

fn name_symbol(c: char) -> (r: bool)
    ensures
        r == is_name_symbol(c),
{
    c == '.' || c == '_' || c == '-'
}

fn check_username_format(s: &Vec<char>) -> (r: bool)
    ensures
        r == username_format(s@),
{
    let n = s.len();
    if n < 2 || !ascii_lower_letter(s[0]) || !name_alnum(s[1]) {
        return false;
    }
    let mut i: usize = 0;
    while i < n
        invariant
            n == s.len(),
            i <= n,
            forall|j: int| 0 <= j < i ==> is_name_alnum(#[trigger] s@[j]) || is_name_symbol(s@[j]),
            forall|j: int|
                0 <= j < i && is_name_symbol(#[trigger] s@[j]) ==> j + 1 < n && is_name_alnum(
                    s@[j + 1],
                ),
        decreases n - i,
    {
        let c = s[i];
        if !name_alnum(c) && !name_symbol(c) {
            return false;
        }
        if name_symbol(c) && (i + 1 >= n || !name_alnum(s[i + 1])) {
            return false;
        }
        i = i + 1;
    }
    true
}

/// A validated username in normal form.
#[derive(Debug, Clone, PartialEq, Eq, Hash)]
pub struct Username(String);

impl View for Username {
    type V = Seq<char>;

    closed spec fn view(&self) -> Seq<char> {
        self.0@
    }
}

impl Username {
    /// Trims, lower-cases ASCII letters, then checks the length (6 to 30)
    /// and the allowed characters.
    pub fn new(value: &str) -> (r: Result<Username, UserDomainError>)
        ensures
            match r {
                Ok(u) => username_accepts(value@) && u@ == username_canonical(value@),
                Err(e) => !username_accepts(value@) && username_error(value@, e),
            },
    {
        let t = trim_text(value);
        let lowered = ascii_lowercase(t);
        let cs = chars_of(lowered.as_str());
        let n = cs.len();
        if n == 0 {
            return Err(UserDomainError::new(CategoryError::Username, TypeError::Empty));
        }
        if n < MIN_USERNAME_LEN {
            return Err(
                UserDomainError::new(
                    CategoryError::Username,
                    TypeError::TooShort { short: MIN_USERNAME_LEN as u16 },
                ),
            );
        }
        if n > MAX_USERNAME_LEN {
            return Err(
                UserDomainError::new(
                    CategoryError::Username,
                    TypeError::TooLong { long: MAX_USERNAME_LEN as u32 },
                ),
            );
        }
        if !check_username_format(&cs) {
            return Err(UserDomainError::format(CategoryError::Username, "USERNAME_REGEX"));
        }
        Ok(Username(lowered))
    }

    /// Same as [`Username::new`].
    pub fn try_from(value: &str) -> (r: Result<Username, UserDomainError>)
        ensures
            match r {
                Ok(u) => username_accepts(value@) && u@ == username_canonical(value@),
                Err(e) => !username_accepts(value@) && username_error(value@, e),
            },
    {
        Username::new(value)
    }

    pub fn as_str(&self) -> (r: &str)
        ensures
            r@ == self@,
    {
        self.0.as_str()
    }

    /// The username as an owned string.
    pub fn to_string(&self) -> (r: String)
        ensures
            r@ == self@,
    {
        self.0.clone()
    }

    /// The number of characters.
    pub fn len(&self) -> (r: usize)
        ensures
            r == self@.len(),
    {
        chars_of(self.0.as_str()).len()
    }

    pub fn is_empty(&self) -> (r: bool)
        ensures
            r == (self@.len() == 0),
    {
        self.0.as_str().is_empty()
    }

    /// A copy of this username.
    pub fn duplicate(&self) -> (r: Username)
        ensures
            r == *self,
    {
        Username(self.0.clone())
    }
}

impl AsRef<str> for Username {
    fn as_ref(&self) -> &str {
        self.0.as_str()
    }
}

} // verus!
