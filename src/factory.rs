//! Building a user from raw field values, as an application layer receives them.
use vstd::prelude::*;

use crate::email::{email_accepts, email_canonical, Email};
use crate::external_id::{external_id_accepts, ExternalId, MAX_EXTERNAL_ID_LEN, MIN_EXTERNAL_ID_LEN};
use crate::ids::{OccurredAt, UserId};
use crate::phone::{full_digits, phone_full_accepts, Phone};
use crate::status::UserStatus;
use crate::text::trimmed;
use crate::user::User;
use crate::username::{
    username_accepts, username_canonical, Username, MAX_USERNAME_LEN, MIN_USERNAME_LEN,
};
use crate::validation_error::ValidationError;

verus! {

pub struct UserFactory;

/// The code for a rejected username: a length problem or a format problem.
pub open spec fn username_code(raw: Seq<char>) -> ValidationError {
    let c = username_canonical(raw);
    if c.len() < MIN_USERNAME_LEN || c.len() > MAX_USERNAME_LEN {
        ValidationError::InvalidUsernameLength
    } else {
        ValidationError::InvalidUsernameFormat
    }
}

/// The code for a rejected outside identifier.
pub open spec fn external_id_code(raw: Seq<char>) -> ValidationError {
    let t = trimmed(raw);
    if t.len() == 0 {
        ValidationError::InvalidExternalIdEmpty
    } else if t.len() < MIN_EXTERNAL_ID_LEN || t.len() > MAX_EXTERNAL_ID_LEN {
        ValidationError::InvalidExternalIdLength
    } else {
        ValidationError::InvalidExternalIdFormat
    }
}

impl UserFactory {
    /// The first failure among the fields, checked in the order e-mail,
    /// username, phone, outside identifier, status; `None` when all are valid.
    pub open spec fn first_error(
        email_raw: Seq<char>,
        username_raw: Option<Seq<char>>,
        phone_raw: Option<Seq<char>>,
        external_id_raw: Option<Seq<char>>,
        status_raw: Option<Seq<char>>,
    ) -> Option<ValidationError> {
        if !email_accepts(email_raw) {
            Some(ValidationError::InvalidEmail)
        } else if username_raw is Some && !username_accepts(username_raw->0) {
            Some(username_code(username_raw->0))
        } else if phone_raw is Some && !phone_full_accepts(phone_raw->0) {
            Some(ValidationError::InvalidPhone)
        } else if external_id_raw is Some && !external_id_accepts(external_id_raw->0) {
            Some(external_id_code(external_id_raw->0))
        } else if status_raw is Some && UserStatus::new_result(status_raw->0) is Err {
            Some(ValidationError::InvalidUserStatus)
        } else {
            None
        }
    }

    /// Validates each raw field and builds a registered user carrying them,
    /// brought through the lifecycle to the requested status (pending when none is given).
    pub fn create(
        id: uuid::Uuid,
        email_raw: &str,
        username_raw: Option<&str>,
        phone_raw: Option<&str>,
        external_id_raw: Option<&str>,
        status_raw: Option<&str>,
    ) -> (r: Result<User, ValidationError>)
        ensures
            ({
                let first = UserFactory::first_error(
                    email_raw@,
                    match username_raw {
                        Some(s) => Some(s@),
                        None => None,
                    },
                    match phone_raw {
                        Some(s) => Some(s@),
                        None => None,
                    },
                    match external_id_raw {
                        Some(s) => Some(s@),
                        None => None,
                    },
                    match status_raw {
                        Some(s) => Some(s@),
                        None => None,
                    },
                );
                match r {
                    Err(e) => first == Some(e),
                    Ok(u) => {
                        &&& first is None
                        &&& u@.wf()
                        &&& u@.email@ == email_canonical(email_raw@)
                        &&& match username_raw {
                            Some(s) => u@.username is Some && u@.username->0@ == username_canonical(
                                s@,
                            ),
                            None => u@.username is None,
                        }
                        &&& match phone_raw {
                            Some(s) => u@.phone is Some && u@.phone->0@.country.len() == 0
                                && u@.phone->0@.number == full_digits(s@),
                            None => u@.phone is None,
                        }
                        &&& match external_id_raw {
                            Some(s) => u@.external_id is Some && u@.external_id->0@ == trimmed(s@),
                            None => u@.external_id is None,
                        }
                        &&& match status_raw {
                            Some(s) => UserStatus::new_result(s@) == Ok::<
                                UserStatus,
                                crate::errors::UserDomainError,
                            >(u@.status),
                            None => u@.status == UserStatus::Pending,
                        }
                    },
                }
            }),
    {
        let email = match Email::try_from(email_raw) {
            Ok(e) => e,
            Err(_) => {
                return Err(ValidationError::InvalidEmail);
            },
        };
        let username = match username_raw {
            Some(v) => match Username::try_from(v) {
                Ok(u) => Some(u),
                Err(e) => {
                    return Err(ValidationError::code(&e));
                },
            },
            None => None,
        };
        let phone = match phone_raw {
            Some(v) => match Phone::try_from(v) {
                Ok(p) => Some(p),
                Err(_) => {
                    return Err(ValidationError::InvalidPhone);
                },
            },
            None => None,
        };
        let external_id = match external_id_raw {
            Some(v) => match ExternalId::try_from(v) {
                Ok(x) => Some(x),
                Err(e) => {
                    return Err(ValidationError::code(&e));
                },
            },
            None => None,
        };
        let status = match status_raw {
            Some(v) => match UserStatus::try_from(v) {
                Ok(s) => s,
                Err(_) => {
                    return Err(ValidationError::InvalidUserStatus);
                },
            },
            None => UserStatus::Pending,
        };
        let now = OccurredAt::now();
        let mut user = User::register_with(UserId::from_uuid(id), email, now);
        match username {
            Some(u) => {
                let _ = user.assign_username_at(u, now);
            },
            None => {},
        }
        match phone {
            Some(p) => {
                let _ = user.assign_phone_at(p, now);
            },
            None => {},
        }
        match external_id {
            Some(x) => {
                let _ = user.link_external_id_at(x, now);
            },
            None => {},
        }
        match status {
            UserStatus::Pending => {},
            UserStatus::Active => {
                let _ = user.activate_at(now);
            },
            UserStatus::Suspended => {
                let _ = user.activate_at(now);
                let _ = user.suspend_at(now);
            },
            UserStatus::Deleted => {
                let _ = user.delete_at(now);
            },
        }
        Ok(user)
    }
}

} // verus!
