//! The time zone value object, checked against the IANA database that
//! `chrono-tz` carries.
use vstd::prelude::*;

use crate::errors::{CategoryError, TypeError, UserDomainError};
use crate::text::{trim_text, trimmed};

verus! {

/// Whether `name` is, letter for letter, the name of a zone in the IANA database.
pub uninterp spec fn known_timezone(name: Seq<char>) -> bool;

/// Relies on `chrono_tz::Tz::from_str`: a lookup of the exact name in its table of zones.
#[verifier::external_body]
fn timezone_exists(name: &str) -> (r: bool)
    ensures
        r == known_timezone(name@),
{
    name.parse::<chrono_tz::Tz>().is_ok()
}

/// Relies on `chrono_tz::TZ_VARIANTS` and `Tz::name`: the names of all zones,
/// each of which the lookup of `Tz::from_str` finds.
#[verifier::external_body]
fn timezone_names() -> (r: Vec<&'static str>)
    ensures
        forall|i: int| 0 <= i < r@.len() ==> known_timezone(#[trigger] r@[i]@),
{
    chrono_tz::TZ_VARIANTS.iter().map(|tz| tz.name()).collect()
}

pub const DEFAULT_TIMEZONE: &'static str = "America/Bogota";

/// A time zone named as in the IANA database.
#[derive(Debug, Clone, PartialEq, Eq, Hash)]
pub struct Timezone(String);

impl View for Timezone {
    type V = Seq<char>;

    closed spec fn view(&self) -> Seq<char> {
        self.0@
    }
}

impl Timezone {
    /// What [`Timezone::resolve`] returns for `value` when the lookup of its
    /// trimmed form answered `known`.
    pub open spec fn resolved(value: Seq<char>, known: bool) -> Result<Seq<char>, UserDomainError> {
        if trimmed(value).len() == 0 {
            Err(UserDomainError { category: CategoryError::Timezone, detail: TypeError::Empty })
        } else if known {
            Ok(trimmed(value))
        } else {
            Err(UserDomainError { category: CategoryError::Timezone, detail: TypeError::NotSupported })
        }
    }

    /// Builds a zone from `value` given whether its trimmed form is a known zone.
    pub fn resolve(value: &str, known: bool) -> (r: Result<Timezone, UserDomainError>)
        ensures
            match r {
                Ok(tz) => Timezone::resolved(value@, known) == Ok::<Seq<char>, UserDomainError>(tz@),
                Err(e) => Timezone::resolved(value@, known) == Err::<Seq<char>, UserDomainError>(e),
            },
    {
        let t = trim_text(value);
        if t.is_empty() {
            Err(UserDomainError::new(CategoryError::Timezone, TypeError::Empty))
        } else if known {
            Ok(Timezone(String::from_str(t)))
        } else {
            Err(UserDomainError::new(CategoryError::Timezone, TypeError::NotSupported))
        }
    }

    /// Trims, then accepts the name if it is a zone of the IANA database.
    pub fn new(value: &str) -> (r: Result<Timezone, UserDomainError>)
        ensures
            match r {
                Ok(tz) => Timezone::resolved(value@, known_timezone(trimmed(value@)))
                    == Ok::<Seq<char>, UserDomainError>(tz@),
                Err(e) => Timezone::resolved(value@, known_timezone(trimmed(value@)))
                    == Err::<Seq<char>, UserDomainError>(e),
            },
    {
        let t = trim_text(value);
        let known = timezone_exists(t);
        Timezone::resolve(value, known)
    }

    /// Same as [`Timezone::new`].
    pub fn try_from(value: &str) -> (r: Result<Timezone, UserDomainError>)
        ensures
            match r {
                Ok(tz) => Timezone::resolved(value@, known_timezone(trimmed(value@)))
                    == Ok::<Seq<char>, UserDomainError>(tz@),
                Err(e) => Timezone::resolved(value@, known_timezone(trimmed(value@)))
                    == Err::<Seq<char>, UserDomainError>(e),
            },
    {
        Timezone::new(value)
    }

    /// The default zone, `America/Bogota`.
    pub fn default() -> (r: Timezone)
        ensures
            r@ == DEFAULT_TIMEZONE@,
    {
        Timezone(String::from_str(DEFAULT_TIMEZONE))
    }

    pub fn as_str(&self) -> (r: &str)
        ensures
            r@ == self@,
    {
        self.0.as_str()
    }

    /// The zone name as an owned string.
    pub fn to_string(&self) -> (r: String)
        ensures
            r@ == self@,
    {
        self.0.clone()
    }

    /// The names of all zones that [`Timezone::new`] accepts.
    pub fn all() -> (r: Vec<&'static str>)
        ensures
            forall|i: int| 0 <= i < r@.len() ==> known_timezone(#[trigger] r@[i]@),
    {
        timezone_names()
    }
}

} // verus!
