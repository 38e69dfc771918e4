//! The profile of a user: presentation data kept beside the aggregate.
use vstd::prelude::*;

use crate::gender::Gender;
use crate::ids::{CalendarDate, OccurredAt};
use crate::locale::{Locale, DEFAULT_LOCALE};
use crate::text::{chars_of, trim_text, trimmed};
use crate::timezone::{Timezone, DEFAULT_TIMEZONE};
use crate::validation_error::ValidationError;

verus! {

pub const MIN_DISPLAY_NAME_LEN: usize = 6;

pub const MAX_DISPLAY_NAME_LEN: usize = 30;

/// A display name has something besides white space and 6 to 30 characters.
pub open spec fn display_name_ok(name: Seq<char>) -> bool {
    &&& trimmed(name).len() > 0
    &&& MIN_DISPLAY_NAME_LEN <= name.len() <= MAX_DISPLAY_NAME_LEN
}

/// Whether `name` is an acceptable display name.
pub fn check_display_name(name: &str) -> (r: bool)
    ensures
        r == display_name_ok(name@),
{
    if trim_text(name).is_empty() {
        return false;
    }
    let n = chars_of(name).len();
    MIN_DISPLAY_NAME_LEN <= n && n <= MAX_DISPLAY_NAME_LEN
}

#[derive(Debug, Clone, PartialEq)]
pub struct UserProfile {
    pub profile_id: uuid::Uuid,
    pub user_id: uuid::Uuid,
    pub first_name: Option<String>,
    pub last_name: Option<String>,
    pub display_name: Option<String>,
    pub avatar_url: Option<String>,
    pub bio: Option<String>,
    pub birth_date: Option<CalendarDate>,
    pub gender: Option<Gender>,
    pub locale: Locale,
    pub timezone: Timezone,
    pub created_at: OccurredAt,
}

impl UserProfile {
    /// A profile; a display name, when given, must be acceptable. The locale,
    /// the time zone and the creation time default to `es-ES`,
    /// `America/Bogota` and the current time.
    pub fn new(
        profile_id: uuid::Uuid,
        user_id: uuid::Uuid,
        first_name: Option<String>,
        last_name: Option<String>,
        display_name: Option<String>,
        avatar_url: Option<String>,
        bio: Option<String>,
        birth_date: Option<CalendarDate>,
        gender: Option<Gender>,
        locale: Option<Locale>,
        timezone: Option<Timezone>,
        created_at: Option<OccurredAt>,
    ) -> (r: Result<UserProfile, ValidationError>)
        ensures
            display_name is Some && !display_name_ok(display_name->0@) ==> r
                == Err::<UserProfile, ValidationError>(ValidationError::InvalidUsernameLength),
            !(display_name is Some && !display_name_ok(display_name->0@)) ==> r is Ok,
            r matches Ok(p) ==> {
                &&& p.profile_id == profile_id
                &&& p.user_id == user_id
                &&& p.first_name == first_name
                &&& p.last_name == last_name
                &&& p.display_name == display_name
                &&& p.avatar_url == avatar_url
                &&& p.bio == bio
                &&& p.birth_date == birth_date
                &&& p.gender == gender
                &&& (locale matches Some(l) ==> p.locale == l)
                &&& (locale is None ==> p.locale@ == DEFAULT_LOCALE@)
                &&& (timezone matches Some(t) ==> p.timezone == t)
                &&& (timezone is None ==> p.timezone@ == DEFAULT_TIMEZONE@)
                &&& (created_at matches Some(t) ==> p.created_at == t)
            },
    {
        match &display_name {
            Some(name) => {
                if !check_display_name(name.as_str()) {
                    return Err(ValidationError::InvalidUsernameLength);
                }
            },
            None => {},
        }
        let locale = match locale {
            Some(l) => l,
            None => Locale::default(),
        };
        let timezone = match timezone {
            Some(t) => t,
            None => Timezone::default(),
        };
        let created_at = match created_at {
            Some(t) => t,
            None => OccurredAt::now(),
        };
        Ok(
            UserProfile {
                profile_id,
                user_id,
                first_name,
                last_name,
                display_name,
                avatar_url,
                bio,
                birth_date,
                gender,
                locale,
                timezone,
                created_at,
            },
        )
    }

    /// Replaces the display name, if the new one is acceptable.
    pub fn update_display_name(&mut self, name: String) -> (r: Result<(), ValidationError>)
        ensures
            display_name_ok(name@) ==> r is Ok && *final(self) == (UserProfile {
                display_name: Some(name),
                ..*old(self)
            }),
            !display_name_ok(name@) ==> r == Err::<(), ValidationError>(
                ValidationError::InvalidUsernameLength,
            ) && *final(self) == *old(self),
    {
        if !check_display_name(name.as_str()) {
            return Err(ValidationError::InvalidUsernameLength);
        }
        self.display_name = Some(name);
        Ok(())
    }

    pub fn update_avatar(&mut self, url: String)
        ensures
            *final(self) == (UserProfile { avatar_url: Some(url), ..*old(self) }),
    {
        self.avatar_url = Some(url);
    }

    pub fn update_bio(&mut self, bio: String)
        ensures
            *final(self) == (UserProfile { bio: Some(bio), ..*old(self) }),
    {
        self.bio = Some(bio);
    }

    pub fn update_locale_timezone(&mut self, locale: Locale, timezone: Timezone)
        ensures
            *final(self) == (UserProfile { locale, timezone, ..*old(self) }),
    {
        self.locale = locale;
        self.timezone = timezone;
    }
}

} // verus!
