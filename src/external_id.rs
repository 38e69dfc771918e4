//! The identifier of a user in an outside system.
use vstd::prelude::*;

use crate::errors::{CategoryError, TypeError, UserDomainError};
use crate::text::{chars_of, control, is_control, trim_text, trimmed};

verus! {

pub const MIN_EXTERNAL_ID_LEN: usize = 16;

pub const MAX_EXTERNAL_ID_LEN: usize = 255;

pub open spec fn has_no_control(s: Seq<char>) -> bool {
    forall|i: int| 0 <= i < s.len() ==> !is_control(#[trigger] s[i])
}

/// Whether [`ExternalId::new`] accepts `raw`.
pub open spec fn external_id_accepts(raw: Seq<char>) -> bool {
    let t = trimmed(raw);
    &&& MIN_EXTERNAL_ID_LEN <= t.len() <= MAX_EXTERNAL_ID_LEN
    &&& has_no_control(t)
}

/// The error that [`ExternalId::new`] gives for a rejected `raw`.
pub open spec fn external_id_error(raw: Seq<char>, e: UserDomainError) -> bool {
    let t = trimmed(raw);
    &&& e.category == CategoryError::ExternalId
    &&& if t.len() == 0 {
        e.detail == TypeError::Empty
    } else if t.len() < MIN_EXTERNAL_ID_LEN {
        e.detail == (TypeError::TooShort { short: MIN_EXTERNAL_ID_LEN as u16 })
    } else if t.len() > MAX_EXTERNAL_ID_LEN {
        e.detail == (TypeError::TooLong { long: MAX_EXTERNAL_ID_LEN as u32 })
    } else {
        e.detail is Format && e.detail->format@ == "NO_CONTROL_CHARACTERS"@
    }
}

/// A validated outside identifier, kept as given apart from trimming.
#[derive(Debug, Clone, PartialEq, Eq, Hash)]
pub struct ExternalId(String);

impl View for ExternalId {
    type V = Seq<char>;

    closed spec fn view(&self) -> Seq<char> {
        self.0@
    }
}

impl ExternalId {
    /// Trims, then checks the length (16 to 255) and that no control character is present.
    pub fn new(value: &str) -> (r: Result<ExternalId, UserDomainError>)
        ensures
            match r {
                Ok(x) => external_id_accepts(value@) && x@ == trimmed(value@),
                Err(e) => !external_id_accepts(value@) && external_id_error(value@, e),
            },
    {
        let t = trim_text(value);
        let cs = chars_of(t);
        let n = cs.len();
        if n == 0 {
            return Err(UserDomainError::new(CategoryError::ExternalId, TypeError::Empty));
        }
        if n < MIN_EXTERNAL_ID_LEN {
            return Err(
                UserDomainError::new(
                    CategoryError::ExternalId,
                    TypeError::TooShort { short: MIN_EXTERNAL_ID_LEN as u16 },
                ),
            );
        }
        if n > MAX_EXTERNAL_ID_LEN {
            return Err(
                UserDomainError::new(
                    CategoryError::ExternalId,
                    TypeError::TooLong { long: MAX_EXTERNAL_ID_LEN as u32 },
                ),
            );
        }
        let mut i: usize = 0;
        while i < n
            invariant
                n == cs@.len(),
                cs@ == t@,
                t@ == trimmed(value@),
                MIN_EXTERNAL_ID_LEN <= n <= MAX_EXTERNAL_ID_LEN,
                i <= n,
                forall|j: int| 0 <= j < i ==> !is_control(#[trigger] cs@[j]),
            decreases n - i,
        {
            if control(cs[i]) {
                return Err(UserDomainError::format(CategoryError::ExternalId, "NO_CONTROL_CHARACTERS"));
            }
            i = i + 1;
        }
        Ok(ExternalId(String::from_str(t)))
    }

    /// Same as [`ExternalId::new`].
    pub fn try_from(value: &str) -> (r: Result<ExternalId, UserDomainError>)
        ensures
            match r {
                Ok(x) => external_id_accepts(value@) && x@ == trimmed(value@),
                Err(e) => !external_id_accepts(value@) && external_id_error(value@, e),
            },
    {
        ExternalId::new(value)
    }

    pub fn as_str(&self) -> (r: &str)
        ensures
            r@ == self@,
    {
        self.0.as_str()
    }

    /// The identifier as an owned string.
    pub fn to_string(&self) -> (r: String)
        ensures
            r@ == self@,
    {
        self.0.clone()
    }

    /// A copy of this identifier.
    pub fn duplicate(&self) -> (r: ExternalId)
        ensures
            r == *self,
    {
        ExternalId(self.0.clone())
    }
}

} // verus!
