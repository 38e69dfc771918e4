//! Checking a user's credentials: a password against its stored hash, or an
//! identity asserted by an outside provider.
use vstd::prelude::*;

use crate::auth_method::UserAuthMethod;
use crate::auth_type::AuthType;
use crate::password::UserPassword;
use crate::text::{chars_of, same_text};
use crate::user::User;
use crate::validation_error::ValidationError;

verus! {

/// Whether Argon2 accepts `password` against the PHC-format hash string `hash`.
pub uninterp spec fn argon2_accepts(hash: Seq<char>, password: Seq<char>) -> bool;

/// Relies on `argon2::Argon2::default()` and `PasswordVerifier::verify_password`:
/// parses the PHC string and compares the password's hash with it.
#[verifier::external_body]
fn password_matches(hash: &str, password: &str) -> (r: bool)
    ensures
        r == argon2_accepts(hash@, password@),
{
    argon2::PasswordVerifier::verify_password(&argon2::Argon2::default(), password.as_bytes(), hash).is_ok()
}

/// Whether `i` is the position of the first method of kind `t`.
pub open spec fn first_of_type(methods: Seq<UserAuthMethod>, t: AuthType, i: int) -> bool {
    &&& 0 <= i < methods.len()
    &&& methods[i].auth_type == t
    &&& forall|j: int| 0 <= j < i ==> methods[j].auth_type != t
}

/// Whether the method holds `id` as the user's identifier at its provider.
pub open spec fn holds_provider_id(m: UserAuthMethod, id: Seq<char>) -> bool {
    m.provider_user_id matches Some(p) && p@ == id
}

pub struct AuthenticationService;

impl AuthenticationService {
    /// Accepts the password when it matches the stored hash.
    pub fn authenticate_with_password(
        user: &User,
        password: &str,
        stored_password: &UserPassword,
    ) -> (r: Result<(), ValidationError>)
        ensures
            argon2_accepts(stored_password.password_hash@, password@) ==> r is Ok,
            !argon2_accepts(stored_password.password_hash@, password@) ==> r == Err::<
                (),
                ValidationError,
            >(ValidationError::InvalidPassword),
    {
        if password_matches(stored_password.password_hash.as_str(), password) {
            Ok(())
        } else {
            Err(ValidationError::InvalidPassword)
        }
    }

    /// Accepts the provider's identifier when the user's first method of that
    /// kind holds exactly that identifier.
    pub fn authenticate_with_provider(
        user: &User,
        auth_methods: &[UserAuthMethod],
        auth_type: AuthType,
        provider_user_id: &str,
    ) -> (r: Result<(), ValidationError>)
        ensures
            (exists|i: int|
                first_of_type(auth_methods@, auth_type, i) && holds_provider_id(
                    #[trigger] auth_methods@[i],
                    provider_user_id@,
                )) ==> r is Ok,
            !(exists|i: int|
                first_of_type(auth_methods@, auth_type, i) && holds_provider_id(
                    #[trigger] auth_methods@[i],
                    provider_user_id@,
                )) ==> r == Err::<(), ValidationError>(ValidationError::InvalidAuthType),
    {
        let mut i: usize = 0;
        while i < auth_methods.len()
            invariant
                i <= auth_methods@.len(),
                forall|j: int| 0 <= j < i ==> auth_methods@[j].auth_type != auth_type,
            decreases auth_methods.len() - i,
        {
            let m = &auth_methods[i];
            if m.auth_type == auth_type {
                assert(first_of_type(auth_methods@, auth_type, i as int));
                let ok = match &m.provider_user_id {
                    Some(p) => same_text(&chars_of(p.as_str()), provider_user_id),
                    None => false,
                };
                if ok {
                    return Ok(());
                } else {
                    assert forall|k: int| #[trigger]
                        first_of_type(auth_methods@, auth_type, k) implies k == i by {
                        if k < i {
                        } else if k > i {
                            assert(auth_methods@[i as int].auth_type == auth_type);
                        }
                    }
                    return Err(ValidationError::InvalidAuthType);
                }
            }
            i = i + 1;
        }
        Err(ValidationError::InvalidAuthType)
    }

    /// Whether the user has a method of the given kind.
    pub fn supports_auth_type(user: &User, methods: &[UserAuthMethod], auth_type: AuthType) -> (r:
        bool)
        ensures
            r == exists|i: int| 0 <= i < methods@.len() && #[trigger] methods@[i].auth_type == auth_type,
    {
        let mut i: usize = 0;
        while i < methods.len()
            invariant
                i <= methods@.len(),
                forall|j: int| 0 <= j < i ==> methods@[j].auth_type != auth_type,
            decreases methods.len() - i,
        {
            if methods[i].auth_type == auth_type {
                return true;
            }
            i = i + 1;
        }
        false
    }
}

} // verus!
