//! The locale value object: a language, optionally with a region.
use vstd::prelude::*;

use crate::errors::{CategoryError, TypeError, UserDomainError};
use crate::text::{
    ascii_lower_letter, ascii_upper_letter, chars_of, is_ascii_lower, is_ascii_upper,
    string_from_chars, trim_text, trimmed,
};

verus! {

pub const MIN_LOCALE_LEN: usize = 2;

pub const MAX_LOCALE_LEN: usize = 10;

/// `_` written as `-`, all else kept.
pub open spec fn hyphenated(s: Seq<char>) -> Seq<char> {
    Seq::new(s.len(), |i: int| if s[i] == '_' { '-' } else { s[i] })
}

/// `xx` (a language) or `xx-XX` (a language and a region).
pub open spec fn locale_format(s: Seq<char>) -> bool {
    ||| s.len() == 2 && is_ascii_lower(s[0]) && is_ascii_lower(s[1])
    ||| {
        &&& s.len() == 5
        &&& is_ascii_lower(s[0])
        &&& is_ascii_lower(s[1])
        &&& s[2] == '-'
        &&& is_ascii_upper(s[3])
        &&& is_ascii_upper(s[4])
    }
}

/// The normal form of a raw locale: trimmed, with `_` written as `-`.
pub open spec fn locale_canonical(raw: Seq<char>) -> Seq<char> {
    hyphenated(trimmed(raw))
}

/// Whether [`Locale::new`] accepts `raw`.
pub open spec fn locale_accepts(raw: Seq<char>) -> bool {
    let c = locale_canonical(raw);
    &&& MIN_LOCALE_LEN <= c.len() <= MAX_LOCALE_LEN
    &&& locale_format(c)
}

/// The error that [`Locale::new`] gives for a rejected `raw`.
pub open spec fn locale_error(raw: Seq<char>, e: UserDomainError) -> bool {
    let c = locale_canonical(raw);
    &&& e.category == CategoryError::Locale
    &&& if c.len() == 0 {
        e.detail == TypeError::Empty
    } else if c.len() < MIN_LOCALE_LEN {
        e.detail == (TypeError::TooShort { short: MIN_LOCALE_LEN as u16 })
    } else if c.len() > MAX_LOCALE_LEN {
        e.detail == (TypeError::TooLong { long: MAX_LOCALE_LEN as u32 })
    } else {
        e.detail is Format && e.detail->format@ == "bcp47"@
    }
}

fn check_locale_format(s: &Vec<char>) -> (r: bool)
    ensures
        r == locale_format(s@),
{
    let n = s.len();
    if n == 2 {
        ascii_lower_letter(s[0]) && ascii_lower_letter(s[1])
    } else if n == 5 {
        ascii_lower_letter(s[0]) && ascii_lower_letter(s[1]) && s[2] == '-' && ascii_upper_letter(
            s[3],
        ) && ascii_upper_letter(s[4])
    } else {
        false
    }
}

/// A validated locale such as `es` or `es-ES`.
#[derive(Debug, Clone, PartialEq, Eq, Hash)]
pub struct Locale(String);

impl View for Locale {
    type V = Seq<char>;

    closed spec fn view(&self) -> Seq<char> {
        self.0@
    }
}

pub const DEFAULT_LOCALE: &'static str = "es-ES";

impl Locale {
    /// Trims, writes `_` as `-`, then checks the length (2 to 10) and the
    /// shape `xx` or `xx-XX`.
    pub fn new(value: &str) -> (r: Result<Locale, UserDomainError>)
        ensures
            match r {
                Ok(l) => locale_accepts(value@) && l@ == locale_canonical(value@),
                Err(e) => !locale_accepts(value@) && locale_error(value@, e),
            },
    {
        let t = trim_text(value);
        let raw = chars_of(t);
        let mut cs: Vec<char> = Vec::new();
        let mut i: usize = 0;
        while i < raw.len()
            invariant
                i <= raw@.len(),
                cs@ == hyphenated(raw@).subrange(0, i as int),
            decreases raw.len() - i,
        {
            if raw[i] == '_' {
                cs.push('-');
            } else {
                cs.push(raw[i]);
            }
            i = i + 1;
            assert(cs@ =~= hyphenated(raw@).subrange(0, i as int));
        }
        assert(cs@ =~= hyphenated(raw@));
        let n = cs.len();
        if n == 0 {
            return Err(UserDomainError::new(CategoryError::Locale, TypeError::Empty));
        }
        if n < MIN_LOCALE_LEN {
            return Err(
                UserDomainError::new(
                    CategoryError::Locale,
                    TypeError::TooShort { short: MIN_LOCALE_LEN as u16 },
                ),
            );
        }
        if n > MAX_LOCALE_LEN {
            return Err(
                UserDomainError::new(
                    CategoryError::Locale,
                    TypeError::TooLong { long: MAX_LOCALE_LEN as u32 },
                ),
            );
        }
        if !check_locale_format(&cs) {
            return Err(UserDomainError::format(CategoryError::Locale, "bcp47"));
        }
        Ok(Locale(string_from_chars(&cs)))
    }

    /// Same as [`Locale::new`].
    pub fn try_from(value: &str) -> (r: Result<Locale, UserDomainError>)
        ensures
            match r {
                Ok(l) => locale_accepts(value@) && l@ == locale_canonical(value@),
                Err(e) => !locale_accepts(value@) && locale_error(value@, e),
            },
    {
        Locale::new(value)
    }

    /// The default locale, `es-ES`.
    pub fn default() -> (r: Locale)
        ensures
            r@ == DEFAULT_LOCALE@,
    {
        Locale(String::from_str(DEFAULT_LOCALE))
    }

    /// The locale as an owned string.
    pub fn as_str(&self) -> (r: String)
        ensures
            r@ == self@,
    {
        self.0.clone()
    }

    /// The locale as an owned string.
    pub fn to_string(&self) -> (r: String)
        ensures
            r@ == self@,
    {
        self.0.clone()
    }

    /// The language: the first two characters.
    pub fn language(&self) -> (r: &str)
        ensures
            self@.len() >= 2 ==> r@ == self@.subrange(0, 2),
            self@.len() < 2 ==> r@ == self@,
    {
        let s = self.0.as_str();
        let cs = chars_of(s);
        if cs.len() >= 2 {
            s.substring_char(0, 2)
        } else {
            s
        }
    }

    /// The region, present when the locale has the form `xx-XX`.
    pub fn region(&self) -> (r: Option<&str>)
        ensures
            self@.len() == 5 ==> r is Some && r->0@ == self@.subrange(3, 5),
            self@.len() != 5 ==> r is None,
    {
        let s = self.0.as_str();
        let cs = chars_of(s);
        if cs.len() == 5 {
            Some(s.substring_char(3, 5))
        } else {
            None
        }
    }

    /// The script subtag; the accepted forms carry none.
    pub fn script(&self) -> (r: Option<&str>)
        ensures
            r is None,
    {
        None
    }
}

} // verus!
