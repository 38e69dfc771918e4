//! The kinds of second factor a user can configure.
use vstd::prelude::*;

use crate::ids::OccurredAt;
use crate::text::{ascii_lowercase, chars_of, lower_seq, same_text};
use crate::validation_error::ValidationError;

verus! {

#[derive(Debug, Clone, Copy, PartialEq, Eq, Structural, Hash)]
pub enum MfaType {
    Totp,
    Sms,
    Email,
    WebAuthn,
}

impl MfaType {
    pub open spec fn name(self) -> Seq<char> {
        match self {
            MfaType::Totp => "totp"@,
            MfaType::Sms => "sms"@,
            MfaType::Email => "email"@,
            MfaType::WebAuthn => "webauthn"@,
        }
    }

    /// What [`MfaType::from_str`] returns: the name is looked up in ASCII lower case.
    pub open spec fn parsed(value: Seq<char>) -> Result<MfaType, ValidationError> {
        let s = lower_seq(value);
        if s == "totp"@ {
            Ok(MfaType::Totp)
        } else if s == "sms"@ {
            Ok(MfaType::Sms)
        } else if s == "email"@ {
            Ok(MfaType::Email)
        } else if s == "webauthn"@ {
            Ok(MfaType::WebAuthn)
        } else {
            Err(ValidationError::InvalidAuthType)
        }
    }

    pub fn from_str(value: &str) -> (r: Result<MfaType, ValidationError>)
        ensures
            r == MfaType::parsed(value@),
    {
        let lowered = chars_of(ascii_lowercase(value).as_str());
        if same_text(&lowered, "totp") {
            Ok(MfaType::Totp)
        } else if same_text(&lowered, "sms") {
            Ok(MfaType::Sms)
        } else if same_text(&lowered, "email") {
            Ok(MfaType::Email)
        } else if same_text(&lowered, "webauthn") {
            Ok(MfaType::WebAuthn)
        } else {
            Err(ValidationError::InvalidAuthType)
        }
    }

    pub fn as_str(&self) -> (r: &'static str)
        ensures
            r@ == self.name(),
    {
        match self {
            MfaType::Totp => "totp",
            MfaType::Sms => "sms",
            MfaType::Email => "email",
            MfaType::WebAuthn => "webauthn",
        }
    }
}

/// A second factor configured for a user.
#[derive(Debug, Clone, PartialEq)]
pub struct UserMfa {
    pub mfa_id: uuid::Uuid,
    pub user_id: uuid::Uuid,
    pub mfa_type: MfaType,
    pub secret_encrypted: Option<String>,
    pub backup_codes_encrypted: Option<Vec<String>>,
    pub recovery_codes_used: i32,
    pub is_enabled: bool,
    pub is_verified: bool,
    pub created_at: OccurredAt,
    pub last_used_at: Option<OccurredAt>,
}

impl UserMfa {
    /// A second factor; a TOTP factor needs its secret. The count of used
    /// recovery codes starts at zero and the creation time defaults to now.
    pub fn new(
        mfa_id: uuid::Uuid,
        user_id: uuid::Uuid,
        mfa_type: MfaType,
        secret_encrypted: Option<String>,
        backup_codes_encrypted: Option<Vec<String>>,
        recovery_codes_used: Option<i32>,
        is_enabled: bool,
        is_verified: bool,
        created_at: Option<OccurredAt>,
        last_used_at: Option<OccurredAt>,
    ) -> (r: Result<UserMfa, ValidationError>)
        ensures
            mfa_type == MfaType::Totp && secret_encrypted is None ==> r == Err::<
                UserMfa,
                ValidationError,
            >(ValidationError::InvalidAuthType),
            !(mfa_type == MfaType::Totp && secret_encrypted is None) ==> r is Ok && {
                let m = r->Ok_0;
                &&& m.mfa_id == mfa_id
                &&& m.user_id == user_id
                &&& m.mfa_type == mfa_type
                &&& m.secret_encrypted == secret_encrypted
                &&& m.backup_codes_encrypted == backup_codes_encrypted
                &&& m.recovery_codes_used == match recovery_codes_used {
                    Some(n) => n,
                    None => 0,
                }
                &&& m.is_enabled == is_enabled
                &&& m.is_verified == is_verified
                &&& (created_at matches Some(t) ==> m.created_at == t)
                &&& m.last_used_at == last_used_at
            },
    {
        if mfa_type == MfaType::Totp && secret_encrypted.is_none() {
            return Err(ValidationError::InvalidAuthType);
        }
        let recovery_codes_used = match recovery_codes_used {
            Some(n) => n,
            None => 0,
        };
        let created_at = match created_at {
            Some(t) => t,
            None => OccurredAt::now(),
        };
        Ok(
            UserMfa {
                mfa_id,
                user_id,
                mfa_type,
                secret_encrypted,
                backup_codes_encrypted,
                recovery_codes_used,
                is_enabled,
                is_verified,
                created_at,
                last_used_at,
            },
        )
    }

    pub fn verify(&mut self)
        ensures
            *final(self) == (UserMfa { is_verified: true, ..*old(self) }),
    {
        self.is_verified = true;
    }

    pub fn disable(&mut self)
        ensures
            *final(self) == (UserMfa { is_enabled: false, ..*old(self) }),
    {
        self.is_enabled = false;
    }

    /// Counts one more recovery code as used.
    pub fn use_recovery_code(&mut self)
        requires
            old(self).recovery_codes_used < i32::MAX,
        ensures
            *final(self) == (UserMfa {
                recovery_codes_used: (old(self).recovery_codes_used + 1) as i32,
                ..*old(self)
            }),
    {
        self.recovery_codes_used = self.recovery_codes_used + 1;
    }
}

} // verus!
