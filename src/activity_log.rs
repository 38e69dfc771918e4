//! A record of something a user did.
use vstd::prelude::*;

use crate::ids::OccurredAt;
use crate::text::{chars_of, string_from_chars, trim_text, trimmed};
use crate::validation_error::ValidationError;

verus! {

#[derive(Debug, Clone, PartialEq)]
pub struct UserActivityLog {
    pub log_id: uuid::Uuid,
    pub user_id: uuid::Uuid,
    pub action_type: String,
    /// Details of the action, as JSON text.
    pub action_details: Option<String>,
    pub ip_address: Option<String>,
    pub user_agent: Option<String>,
    pub success: bool,
    /// Details of the failure, as JSON text.
    pub error_details: Option<String>,
    pub created_at: OccurredAt,
}

impl UserActivityLog {
    /// A record of an action; the action type must not be blank. The
    /// creation time defaults to now.
    pub fn new(
        log_id: uuid::Uuid,
        user_id: uuid::Uuid,
        action_type: &str,
        action_details: Option<String>,
        ip_address: Option<String>,
        user_agent: Option<String>,
        success: bool,
        error_details: Option<String>,
        created_at: Option<OccurredAt>,
    ) -> (r: Result<UserActivityLog, ValidationError>)
        ensures
            trimmed(action_type@).len() == 0 ==> r == Err::<UserActivityLog, ValidationError>(
                ValidationError::InvalidConsentType,
            ),
            trimmed(action_type@).len() > 0 ==> r is Ok && {
                let l = r->Ok_0;
                &&& l.log_id == log_id
                &&& l.user_id == user_id
                &&& l.action_type@ == action_type@
                &&& l.action_details == action_details
                &&& l.ip_address == ip_address
                &&& l.user_agent == user_agent
                &&& l.success == success
                &&& l.error_details == error_details
                &&& (created_at matches Some(t) ==> l.created_at == t)
            },
    {
        if trim_text(action_type).is_empty() {
            return Err(ValidationError::InvalidConsentType);
        }
        let created_at = match created_at {
            Some(t) => t,
            None => OccurredAt::now(),
        };
        Ok(
            UserActivityLog {
                log_id,
                user_id,
                action_type: string_from_chars(&chars_of(action_type)),
                action_details,
                ip_address,
                user_agent,
                success,
                error_details,
                created_at,
            },
        )
    }

    pub fn is_failure(&self) -> (r: bool)
        ensures
            r == !self.success,
    {
        !self.success
    }
}

} // verus!
