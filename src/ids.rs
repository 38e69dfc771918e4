//! Identity and time: the user identifier (a UUID) and instants in UTC.
use vstd::prelude::*;

use crate::errors::{CategoryError, TypeError, UserDomainError};
use crate::text::{trim_text, trimmed};

verus! {

#[verifier::external_type_specification]
#[verifier::external_body]
pub struct ExUuid(uuid::Uuid);

/// Relies on `uuid::Uuid` being `Copy`: a clone is the same identifier.
pub assume_specification[ <uuid::Uuid as Clone>::clone ](u: &uuid::Uuid) -> (r: uuid::Uuid)
    ensures
        r == *u,
;

/// The 128-bit value that `uuid::Uuid::parse_str` reads from `text`, if it accepts it.
pub uninterp spec fn parsed_uuid(text: Seq<char>) -> Option<u128>;

/// The text that `uuid::Uuid`'s `Display` writes for the value `bits`.
pub uninterp spec fn uuid_text(bits: u128) -> Seq<char>;

/// The instant that chrono's `DateTime<Utc>` parser reads from `text`, if it
/// accepts it, as seconds since the epoch and nanoseconds past the second.
pub uninterp spec fn parsed_instant(text: Seq<char>) -> Option<(i64, u32)>;

/// Whether `year`-`month`-`day` is a date of the proleptic Gregorian calendar
/// that chrono's `NaiveDate` can hold.
pub uninterp spec fn calendar_date_exists(year: i32, month: u32, day: u32) -> bool;

/// Relies on `chrono::NaiveDate::from_ymd_opt`: whether the date exists and is in its range.
#[verifier::external_body]
fn date_exists(year: i32, month: u32, day: u32) -> (r: bool)
    ensures
        r == calendar_date_exists(year, month, day),
{
    chrono::NaiveDate::from_ymd_opt(year, month, day).is_some()
}

/// Relies on `uuid::Uuid::new_v4`: a random identifier; nothing is known of its value.
#[verifier::external_body]
pub(crate) fn random_uuid_bits() -> (r: u128) {
    uuid::Uuid::new_v4().as_u128()
}

/// Relies on `uuid::Uuid::as_u128`: the identifier's 128-bit value.
#[verifier::external_body]
fn uuid_bits(u: &uuid::Uuid) -> (r: u128) {
    u.as_u128()
}

/// Relies on `uuid::Uuid::from_u128`: the identifier with the given 128-bit value.
#[verifier::external_body]
pub(crate) fn uuid_from_bits(bits: u128) -> (r: uuid::Uuid) {
    uuid::Uuid::from_u128(bits)
}

/// Relies on `uuid::Uuid::parse_str`: a parse of the accepted textual forms of a UUID.
#[verifier::external_body]
fn parse_uuid_bits(text: &str) -> (r: Option<u128>)
    ensures
        r == parsed_uuid(text@),
{
    uuid::Uuid::parse_str(text).ok().map(|u| u.as_u128())
}

/// Relies on `uuid::Uuid`'s `Display`: the lower-case hyphenated form.
#[verifier::external_body]
fn format_uuid_bits(bits: u128) -> (r: String)
    ensures
        r@ == uuid_text(bits),
{
    uuid::Uuid::from_u128(bits).to_string()
}

/// Relies on `chrono::Utc::now`: the current time; nothing is known of its value.
#[verifier::external_body]
fn utc_now() -> (r: (i64, u32)) {
    let now = chrono::Utc::now();
    (now.timestamp(), now.timestamp_subsec_nanos())
}

/// Relies on `str::parse::<chrono::DateTime<chrono::Utc>>`: an RFC 3339 parse.
#[verifier::external_body]
fn parse_utc_instant(text: &str) -> (r: Option<(i64, u32)>)
    ensures
        r == parsed_instant(text@),
{
    text.parse::<chrono::DateTime<chrono::Utc>>().ok().map(|t| (t.timestamp(), t.timestamp_subsec_nanos()))
}

/// The identifier of a user: a UUID, held as its 128-bit value.
#[derive(Debug, Clone, Copy, PartialEq, Eq, Structural, Hash)]
pub struct UserId {
    pub bits: u128,
}

impl UserId {
    /// A fresh random identifier.
    pub fn new() -> (r: UserId) {
        UserId { bits: random_uuid_bits() }
    }

    pub fn from_uuid(uuid: uuid::Uuid) -> (r: UserId) {
        UserId { bits: uuid_bits(&uuid) }
    }

    pub fn from_bits(bits: u128) -> (r: UserId)
        ensures
            r.bits == bits,
    {
        UserId { bits }
    }

    pub fn as_uuid(&self) -> (r: uuid::Uuid) {
        uuid_from_bits(self.bits)
    }

    /// The lower-case hyphenated form.
    pub fn as_string(&self) -> (r: String)
        ensures
            r@ == uuid_text(self.bits),
    {
        format_uuid_bits(self.bits)
    }

    /// The lower-case hyphenated form.
    pub fn to_string(&self) -> (r: String)
        ensures
            r@ == uuid_text(self.bits),
    {
        format_uuid_bits(self.bits)
    }

    /// What [`UserId::from_parsed`] returns: blank text is `Empty`, text the
    /// parser refused is a `Format` error.
    pub open spec fn parse_outcome(
        value: Seq<char>,
        parsed: Option<u128>,
        r: Result<UserId, UserDomainError>,
    ) -> bool {
        if trimmed(value).len() == 0 {
            r == Err::<UserId, UserDomainError>(
                UserDomainError { category: CategoryError::Id, detail: TypeError::Empty },
            )
        } else {
            match parsed {
                Some(bits) => r == Ok::<UserId, UserDomainError>(UserId { bits }),
                None => r is Err && r->Err_0.category == CategoryError::Id && r->Err_0.detail is Format
                    && r->Err_0.detail->format@ == "uuid"@,
            }
        }
    }

    /// Builds an identifier from `value` given what the UUID parser read from it.
    pub fn from_parsed(value: &str, parsed: Option<u128>) -> (r: Result<UserId, UserDomainError>)
        ensures
            UserId::parse_outcome(value@, parsed, r),
    {
        if trim_text(value).is_empty() {
            return Err(UserDomainError::new(CategoryError::Id, TypeError::Empty));
        }
        match parsed {
            Some(bits) => Ok(UserId { bits }),
            None => Err(UserDomainError::format(CategoryError::Id, "uuid")),
        }
    }

    /// Parses an identifier written as a UUID.
    pub fn try_from(value: &str) -> (r: Result<UserId, UserDomainError>)
        ensures
            UserId::parse_outcome(value@, parsed_uuid(value@), r),
    {
        let parsed = parse_uuid_bits(value);
        UserId::from_parsed(value, parsed)
    }

    /// Same as [`UserId::try_from`].
    pub fn from_str(value: &str) -> (r: Result<UserId, UserDomainError>)
        ensures
            UserId::parse_outcome(value@, parsed_uuid(value@), r),
    {
        UserId::try_from(value)
    }
}

/// An instant in UTC: seconds since the Unix epoch and nanoseconds past that second.
#[derive(Debug, Clone, Copy, PartialEq, Eq, Structural, Hash)]
pub struct OccurredAt {
    pub seconds: i64,
    pub nanos: u32,
}

impl OccurredAt {
    /// The current time.
    pub fn now() -> (r: OccurredAt) {
        let (seconds, nanos) = utc_now();
        OccurredAt { seconds, nanos }
    }

    pub fn from_timestamp(seconds: i64, nanos: u32) -> (r: OccurredAt)
        ensures
            r == (OccurredAt { seconds, nanos }),
    {
        OccurredAt { seconds, nanos }
    }

    pub fn seconds(&self) -> (r: i64)
        ensures
            r == self.seconds,
    {
        self.seconds
    }

    pub fn nanos(&self) -> (r: u32)
        ensures
            r == self.nanos,
    {
        self.nanos
    }

    /// What [`OccurredAt::from_parsed`] returns: blank text is `Empty`, text
    /// the parser refused is a `Format` error.
    pub open spec fn parse_outcome(
        value: Seq<char>,
        parsed: Option<(i64, u32)>,
        r: Result<OccurredAt, UserDomainError>,
    ) -> bool {
        if trimmed(value).len() == 0 {
            r == Err::<OccurredAt, UserDomainError>(
                UserDomainError { category: CategoryError::OccurredAt, detail: TypeError::Empty },
            )
        } else {
            match parsed {
                Some(p) => r == Ok::<OccurredAt, UserDomainError>(
                    OccurredAt { seconds: p.0, nanos: p.1 },
                ),
                None => r is Err && r->Err_0.category == CategoryError::OccurredAt
                    && r->Err_0.detail is Format && r->Err_0.detail->format@ == "datetime-utc"@,
            }
        }
    }

    /// Builds an instant from `value` given what the date parser read from it.
    pub fn from_parsed(value: &str, parsed: Option<(i64, u32)>) -> (r: Result<
        OccurredAt,
        UserDomainError,
    >)
        ensures
            OccurredAt::parse_outcome(value@, parsed, r),
    {
        if trim_text(value).is_empty() {
            return Err(UserDomainError::new(CategoryError::OccurredAt, TypeError::Empty));
        }
        match parsed {
            Some((seconds, nanos)) => Ok(OccurredAt { seconds, nanos }),
            None => Err(UserDomainError::format(CategoryError::OccurredAt, "datetime-utc")),
        }
    }

    /// Parses an RFC 3339 date and time, such as `2024-05-10T12:30:00Z`.
    pub fn try_from(value: &str) -> (r: Result<OccurredAt, UserDomainError>)
        ensures
            OccurredAt::parse_outcome(value@, parsed_instant(value@), r),
    {
        let parsed = parse_utc_instant(value);
        OccurredAt::from_parsed(value, parsed)
    }

    /// Same as [`OccurredAt::try_from`].
    pub fn from_str(value: &str) -> (r: Result<OccurredAt, UserDomainError>)
        ensures
            OccurredAt::parse_outcome(value@, parsed_instant(value@), r),
    {
        OccurredAt::try_from(value)
    }
}

impl OccurredAt {
    /// Whether `self` is strictly earlier than `other`.
    pub open spec fn precedes(self, other: OccurredAt) -> bool {
        self.seconds < other.seconds || (self.seconds == other.seconds && self.nanos < other.nanos)
    }

    /// `self` moved by `days` whole days, when the result fits.
    pub open spec fn plus_days(self, days: i64) -> Option<OccurredAt> {
        let s = self.seconds + days * SECONDS_PER_DAY;
        if i64::MIN <= s <= i64::MAX {
            Some(OccurredAt { seconds: s as i64, nanos: self.nanos })
        } else {
            None
        }
    }

    /// Whether `self` is strictly earlier than `other`.
    pub fn is_before(&self, other: &OccurredAt) -> (r: bool)
        ensures
            r == self.precedes(*other),
    {
        self.seconds < other.seconds || (self.seconds == other.seconds && self.nanos < other.nanos)
    }

    /// `self` moved by `days` whole days, or `None` when that leaves the representable range.
    pub fn checked_add_days(&self, days: i64) -> (r: Option<OccurredAt>)
        ensures
            r == self.plus_days(days),
    {
        let d: i128 = days as i128;
        assert(-0x8000_0000_0000_0000 <= d <= 0x7fff_ffff_ffff_ffff);
        assert(-0x8000_0000_0000_0000 * 86400 <= d * 86400 <= 0x7fff_ffff_ffff_ffff * 86400)
            by (nonlinear_arith)
            requires
                -0x8000_0000_0000_0000 <= d <= 0x7fff_ffff_ffff_ffff,
        ;
        let s: i128 = self.seconds as i128 + d * (SECONDS_PER_DAY as i128);
        if (i64::MIN as i128) <= s && s <= (i64::MAX as i128) {
            Some(OccurredAt { seconds: s as i64, nanos: self.nanos })
        } else {
            None
        }
    }
}

pub const SECONDS_PER_DAY: i64 = 86400;

/// A calendar date, known to exist.
#[derive(Debug, Clone, Copy, PartialEq, Eq, Structural, Hash)]
pub struct CalendarDate {
    year: i32,
    month: u32,
    day: u32,
}

impl View for CalendarDate {
    type V = (i32, u32, u32);

    closed spec fn view(&self) -> (i32, u32, u32) {
        (self.year, self.month, self.day)
    }
}

impl CalendarDate {
    /// The date `year`-`month`-`day`, if it exists.
    pub fn new(year: i32, month: u32, day: u32) -> (r: Option<CalendarDate>)
        ensures
            r is Some <==> calendar_date_exists(year, month, day),
            r is Some ==> r->0@ == (year, month, day),
    {
        if date_exists(year, month, day) {
            Some(CalendarDate { year, month, day })
        } else {
            None
        }
    }

    pub fn year(&self) -> (r: i32)
        ensures
            r == self@.0,
    {
        self.year
    }

    pub fn month(&self) -> (r: u32)
        ensures
            r == self@.1,
    {
        self.month
    }

    pub fn day(&self) -> (r: u32)
        ensures
            r == self@.2,
    {
        self.day
    }
}

} // verus!
