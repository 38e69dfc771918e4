//! The phone number value object.
use vstd::prelude::*;

use crate::errors::{CategoryError, TypeError, UserDomainError};
use crate::text::{all_digits, chars_of, is_ascii_digit, remove_white, strip_white, string_from_chars};

verus! {

pub const MAX_COUNTRY_CODE_LEN: usize = 3;

pub const MIN_NUMBER_LEN: usize = 6;

pub const MAX_NUMBER_LEN: usize = 14;

pub const MIN_FULL_LEN: usize = 7;

pub const MAX_FULL_LEN: usize = 20;

pub open spec fn digits_only(s: Seq<char>) -> bool {
    forall|i: int| 0 <= i < s.len() ==> is_ascii_digit(#[trigger] s[i])
}

/// The digits of a raw country code: white space removed, one leading `+` dropped.
pub open spec fn country_digits(raw: Seq<char>) -> Seq<char> {
    let w = strip_white(raw);
    if w.len() > 0 && w[0] == '+' {
        w.drop_first()
    } else {
        w
    }
}

/// Whether [`Phone::new`] accepts the two parts.
pub open spec fn phone_parts_accept(cc: Seq<char>, num: Seq<char>) -> bool {
    let c = country_digits(cc);
    let n = strip_white(num);
    &&& 1 <= c.len() <= MAX_COUNTRY_CODE_LEN
    &&& digits_only(c)
    &&& MIN_NUMBER_LEN <= n.len() <= MAX_NUMBER_LEN
    &&& digits_only(n)
}

/// The error that [`Phone::new`] gives for rejected parts: the country code
/// is examined first, then the number; each for emptiness, then digits, then length.
pub open spec fn phone_parts_error(cc: Seq<char>, num: Seq<char>, e: UserDomainError) -> bool {
    let c = country_digits(cc);
    let n = strip_white(num);
    &&& e.category == CategoryError::Phone
    &&& if c.len() == 0 {
        e.detail == TypeError::Empty
    } else if !digits_only(c) {
        e.detail is Format && e.detail->format@ == "ONLY_DIGITS"@
    } else if c.len() > MAX_COUNTRY_CODE_LEN {
        e.detail == (TypeError::TooLong { long: MAX_COUNTRY_CODE_LEN as u32 })
    } else if n.len() == 0 {
        e.detail == TypeError::Empty
    } else if !digits_only(n) {
        e.detail is Format && e.detail->format@ == "ONLY_DIGITS"@
    } else if n.len() < MIN_NUMBER_LEN {
        e.detail == (TypeError::TooShort { short: MIN_NUMBER_LEN as u16 })
    } else {
        e.detail == (TypeError::TooLong { long: MAX_NUMBER_LEN as u32 })
    }
}

/// The digits after the `+` of a full number written without white space.
pub open spec fn full_digits(raw: Seq<char>) -> Seq<char> {
    strip_white(raw).drop_first()
}

/// Whether [`Phone::from_full`] accepts `raw`: a `+` then 7 to 20 digits,
/// white space anywhere being ignored.
pub open spec fn phone_full_accepts(raw: Seq<char>) -> bool {
    let w = strip_white(raw);
    &&& w.len() > 0
    &&& w[0] == '+'
    &&& digits_only(w.drop_first())
    &&& MIN_FULL_LEN <= w.len() - 1 <= MAX_FULL_LEN
}

/// The error that [`Phone::from_full`] gives for a rejected `raw`.
pub open spec fn phone_full_error(raw: Seq<char>, e: UserDomainError) -> bool {
    let w = strip_white(raw);
    &&& e.category == CategoryError::Phone
    &&& if w.len() == 0 {
        e.detail == TypeError::Empty
    } else if w[0] != '+' || !digits_only(w.drop_first()) {
        e.detail is Format && e.detail->format@ == "E164"@
    } else if w.len() - 1 < MIN_FULL_LEN {
        e.detail == (TypeError::TooShort { short: MIN_FULL_LEN as u16 })
    } else {
        e.detail == (TypeError::TooLong { long: MAX_FULL_LEN as u32 })
    }
}

/// A validated phone number. The country code is empty when the number was
/// given whole, in which case its digits are all in `number`.
#[derive(Debug, Clone, PartialEq, Eq, Hash)]
pub struct Phone {
    country: String,
    number: String,
}

/// The digits of a phone number: those of the country code, and the rest.
pub struct PhoneView {
    pub country: Seq<char>,
    pub number: Seq<char>,
}

impl View for Phone {
    type V = PhoneView;

    closed spec fn view(&self) -> PhoneView {
        PhoneView { country: self.country@, number: self.number@ }
    }
}

impl Phone {
    /// Builds a number from a country code (an optional `+` and 1 to 3 digits)
    /// and a subscriber number (6 to 14 digits); white space is ignored.
    pub fn new(country_code: &str, number: &str) -> (r: Result<Phone, UserDomainError>)
        ensures
            match r {
                Ok(p) => phone_parts_accept(country_code@, number@) && p@.country == country_digits(
                    country_code@,
                ) && p@.number == strip_white(number@),
                Err(e) => !phone_parts_accept(country_code@, number@) && phone_parts_error(
                    country_code@,
                    number@,
                    e,
                ),
            },
    {
        let w = remove_white(&chars_of(country_code));
        let mut cc: Vec<char> = Vec::new();
        let mut i: usize = if w.len() > 0 && w[0] == '+' {
            1
        } else {
            0
        };
        let start = i;
        while i < w.len()
            invariant
                start <= i <= w@.len(),
                cc@ == w@.subrange(start as int, i as int),
            decreases w.len() - i,
        {
            cc.push(w[i]);
            i = i + 1;
        }
        assert(cc@ =~= country_digits(country_code@));
        if cc.len() == 0 {
            return Err(UserDomainError::new(CategoryError::Phone, TypeError::Empty));
        }
        if !all_digits(&cc) {
            return Err(UserDomainError::format(CategoryError::Phone, "ONLY_DIGITS"));
        }
        if cc.len() > MAX_COUNTRY_CODE_LEN {
            return Err(
                UserDomainError::new(
                    CategoryError::Phone,
                    TypeError::TooLong { long: MAX_COUNTRY_CODE_LEN as u32 },
                ),
            );
        }
        let num = remove_white(&chars_of(number));
        if num.len() == 0 {
            return Err(UserDomainError::new(CategoryError::Phone, TypeError::Empty));
        }
        if !all_digits(&num) {
            return Err(UserDomainError::format(CategoryError::Phone, "ONLY_DIGITS"));
        }
        if num.len() < MIN_NUMBER_LEN {
            return Err(
                UserDomainError::new(
                    CategoryError::Phone,
                    TypeError::TooShort { short: MIN_NUMBER_LEN as u16 },
                ),
            );
        }
        if num.len() > MAX_NUMBER_LEN {
            return Err(
                UserDomainError::new(
                    CategoryError::Phone,
                    TypeError::TooLong { long: MAX_NUMBER_LEN as u32 },
                ),
            );
        }
        Ok(Phone { country: string_from_chars(&cc), number: string_from_chars(&num) })
    }

    /// Builds a number written whole: `+` then 7 to 20 digits; white space is ignored.
    pub fn from_full(value: &str) -> (r: Result<Phone, UserDomainError>)
        ensures
            match r {
                Ok(p) => phone_full_accepts(value@) && p@.country.len() == 0 && p@.number
                    == full_digits(value@),
                Err(e) => !phone_full_accepts(value@) && phone_full_error(value@, e),
            },
    {
        let w = remove_white(&chars_of(value));
        if w.len() == 0 {
            return Err(UserDomainError::new(CategoryError::Phone, TypeError::Empty));
        }
        let mut digits: Vec<char> = Vec::new();
        let mut i: usize = 1;
        while i < w.len()
            invariant
                1 <= i <= w@.len(),
                digits@ == w@.subrange(1, i as int),
            decreases w.len() - i,
        {
            digits.push(w[i]);
            i = i + 1;
        }
        assert(digits@ =~= w@.drop_first());
        if w[0] != '+' || !all_digits(&digits) {
            return Err(UserDomainError::format(CategoryError::Phone, "E164"));
        }
        if digits.len() < MIN_FULL_LEN {
            return Err(
                UserDomainError::new(
                    CategoryError::Phone,
                    TypeError::TooShort { short: MIN_FULL_LEN as u16 },
                ),
            );
        }
        if digits.len() > MAX_FULL_LEN {
            return Err(
                UserDomainError::new(
                    CategoryError::Phone,
                    TypeError::TooLong { long: MAX_FULL_LEN as u32 },
                ),
            );
        }
        Ok(Phone { country: String::new(), number: string_from_chars(&digits) })
    }

    /// Same as [`Phone::from_full`].
    pub fn try_from(value: &str) -> (r: Result<Phone, UserDomainError>)
        ensures
            match r {
                Ok(p) => phone_full_accepts(value@) && p@.country.len() == 0 && p@.number
                    == full_digits(value@),
                Err(e) => !phone_full_accepts(value@) && phone_full_error(value@, e),
            },
    {
        Phone::from_full(value)
    }

    /// Same as [`Phone::from_full`].
    pub fn from_str(value: &str) -> (r: Result<Phone, UserDomainError>)
        ensures
            match r {
                Ok(p) => phone_full_accepts(value@) && p@.country.len() == 0 && p@.number
                    == full_digits(value@),
                Err(e) => !phone_full_accepts(value@) && phone_full_error(value@, e),
            },
    {
        Phone::from_full(value)
    }

    /// The whole number: `+`, the country code, then the number.
    pub fn as_full(&self) -> (r: String)
        ensures
            r@ == "+"@ + self@.country + self@.number,
    {
        String::from_str("+").concat(self.country.as_str()).concat(self.number.as_str())
    }

    /// The number in E.164 form, the same text as [`Phone::as_full`].
    pub fn as_e164(&self) -> (r: String)
        ensures
            r@ == "+"@ + self@.country + self@.number,
    {
        self.as_full()
    }

    /// The country code with its `+`, or empty when the number was given whole.
    pub fn country_code(&self) -> (r: String)
        ensures
            self@.country.len() == 0 ==> r@.len() == 0,
            self@.country.len() > 0 ==> r@ == "+"@ + self@.country,
    {
        if self.country.as_str().is_empty() {
            String::new()
        } else {
            String::from_str("+").concat(self.country.as_str())
        }
    }

    /// The digits after the country code.
    pub fn number(&self) -> (r: String)
        ensures
            r@ == self@.number,
    {
        self.number.clone()
    }

    /// `+CC NUMBER`, or the whole number when there is no separate country code.
    pub fn to_string(&self) -> (r: String)
        ensures
            self@.country.len() == 0 ==> r@ == "+"@ + self@.number,
            self@.country.len() > 0 ==> r@ == "+"@ + self@.country + " "@ + self@.number,
    {
        if self.country.as_str().is_empty() {
            String::from_str("+").concat(self.number.as_str())
        } else {
            String::from_str("+").concat(self.country.as_str()).concat(" ").concat(
                self.number.as_str(),
            )
        }
    }

    /// A copy of this number.
    pub fn duplicate(&self) -> (r: Phone)
        ensures
            r == *self,
    {
        Phone { country: self.country.clone(), number: self.number.clone() }
    }
}

} // verus!
