//! A user's subscription to a plan, and the service that manages subscriptions.
use vstd::prelude::*;

use crate::ids::{random_uuid_bits, uuid_from_bits, OccurredAt};
use crate::subscription_status::SubscriptionStatus;
use crate::subscription_tier::SubscriptionTier;
use crate::validation_error::ValidationError;

verus! {

#[derive(Debug, Clone, PartialEq)]
pub struct UserSubscription {
    pub subscription_id: uuid::Uuid,
    pub user_id: uuid::Uuid,
    pub tier: SubscriptionTier,
    pub status: SubscriptionStatus,
    pub starts_at: OccurredAt,
    pub expires_at: Option<OccurredAt>,
    pub auto_renew: bool,
    pub payment_method: Option<String>,
    pub created_at: OccurredAt,
    pub updated_at: OccurredAt,
}

/// Whether a subscription with this status and expiry is in force at `now`.
pub open spec fn in_force(
    status: SubscriptionStatus,
    expires_at: Option<OccurredAt>,
    now: OccurredAt,
) -> bool {
    &&& status == SubscriptionStatus::Active
    &&& match expires_at {
        Some(exp) => now.precedes(exp),
        None => true,
    }
}

impl UserSubscription {
    /// A subscription created at `now`; an expiry, when given, must come after the start.
    pub fn new_at(
        subscription_id: uuid::Uuid,
        user_id: uuid::Uuid,
        tier: SubscriptionTier,
        status: SubscriptionStatus,
        starts_at: OccurredAt,
        expires_at: Option<OccurredAt>,
        auto_renew: bool,
        payment_method: Option<String>,
        now: OccurredAt,
    ) -> (r: Result<UserSubscription, ValidationError>)
        ensures
            (expires_at matches Some(exp) && !starts_at.precedes(exp)) ==> r
                == Err::<UserSubscription, ValidationError>(
                ValidationError::InvalidSubscriptionStatus,
            ),
            !(expires_at matches Some(exp) && !starts_at.precedes(exp)) ==> r
                == Ok::<UserSubscription, ValidationError>(
                UserSubscription {
                    subscription_id,
                    user_id,
                    tier,
                    status,
                    starts_at,
                    expires_at,
                    auto_renew,
                    payment_method,
                    created_at: now,
                    updated_at: now,
                },
            ),
    {
        match expires_at {
            Some(exp) => {
                if !starts_at.is_before(&exp) {
                    return Err(ValidationError::InvalidSubscriptionStatus);
                }
            },
            None => {},
        }
        Ok(
            UserSubscription {
                subscription_id,
                user_id,
                tier,
                status,
                starts_at,
                expires_at,
                auto_renew,
                payment_method,
                created_at: now,
                updated_at: now,
            },
        )
    }

    /// A subscription created now; an expiry, when given, must come after the start.
    pub fn new(
        subscription_id: uuid::Uuid,
        user_id: uuid::Uuid,
        tier: SubscriptionTier,
        status: SubscriptionStatus,
        starts_at: OccurredAt,
        expires_at: Option<OccurredAt>,
        auto_renew: bool,
        payment_method: Option<String>,
    ) -> (r: Result<UserSubscription, ValidationError>)
        ensures
            (expires_at matches Some(exp) && !starts_at.precedes(exp)) ==> r
                == Err::<UserSubscription, ValidationError>(
                ValidationError::InvalidSubscriptionStatus,
            ),
            !(expires_at matches Some(exp) && !starts_at.precedes(exp)) ==> r
                == Ok::<UserSubscription, ValidationError>(
                UserSubscription {
                    subscription_id,
                    user_id,
                    tier,
                    status,
                    starts_at,
                    expires_at,
                    auto_renew,
                    payment_method,
                    created_at: r->Ok_0.created_at,
                    updated_at: r->Ok_0.created_at,
                },
            ),
    {
        UserSubscription::new_at(
            subscription_id,
            user_id,
            tier,
            status,
            starts_at,
            expires_at,
            auto_renew,
            payment_method,
            OccurredAt::now(),
        )
    }

    /// Whether the subscription is active and not expired at `now`.
    pub fn is_active_at(&self, now: OccurredAt) -> (r: bool)
        ensures
            r == in_force(self.status, self.expires_at, now),
    {
        if self.status != SubscriptionStatus::Active {
            return false;
        }
        match self.expires_at {
            Some(exp) => now.is_before(&exp),
            None => true,
        }
    }

    /// Whether the subscription is active and not expired now.
    pub fn is_active(&self) -> (r: bool)
        ensures
            self.status != SubscriptionStatus::Active ==> !r,
            self.status == SubscriptionStatus::Active && self.expires_at is None ==> r,
    {
        self.is_active_at(OccurredAt::now())
    }

    /// Cancels at `now`: no longer renewed automatically.
    pub fn cancel_at(&mut self, now: OccurredAt)
        ensures
            *final(self) == (UserSubscription {
                status: SubscriptionStatus::Canceled,
                auto_renew: false,
                updated_at: now,
                ..*old(self)
            }),
    {
        self.status = SubscriptionStatus::Canceled;
        self.auto_renew = false;
        self.updated_at = now;
    }

    /// Cancels now.
    pub fn cancel(&mut self)
        ensures
            *final(self) == (UserSubscription {
                status: SubscriptionStatus::Canceled,
                auto_renew: false,
                updated_at: final(self).updated_at,
                ..*old(self)
            }),
    {
        self.cancel_at(OccurredAt::now())
    }

    /// Renews at `now` until `new_expires_at`, which must lie after `now`.
    pub fn renew_at(&mut self, new_expires_at: OccurredAt, now: OccurredAt) -> (r: Result<
        (),
        ValidationError,
    >)
        ensures
            !now.precedes(new_expires_at) ==> r == Err::<(), ValidationError>(
                ValidationError::InvalidSubscriptionStatus,
            ) && *final(self) == *old(self),
            now.precedes(new_expires_at) ==> r is Ok && *final(self) == (UserSubscription {
                expires_at: Some(new_expires_at),
                status: SubscriptionStatus::Active,
                updated_at: now,
                ..*old(self)
            }),
    {
        if !now.is_before(&new_expires_at) {
            return Err(ValidationError::InvalidSubscriptionStatus);
        }
        self.expires_at = Some(new_expires_at);
        self.status = SubscriptionStatus::Active;
        self.updated_at = now;
        Ok(())
    }

    /// Renews now until `new_expires_at`, which must lie in the future.
    pub fn renew(&mut self, new_expires_at: OccurredAt) -> (r: Result<(), ValidationError>)
        ensures
            r is Err ==> r == Err::<(), ValidationError>(ValidationError::InvalidSubscriptionStatus)
                && *final(self) == *old(self),
            r is Ok ==> *final(self) == (UserSubscription {
                expires_at: Some(new_expires_at),
                status: SubscriptionStatus::Active,
                updated_at: final(self).updated_at,
                ..*old(self)
            }) && final(self).updated_at.precedes(new_expires_at),
    {
        self.renew_at(new_expires_at, OccurredAt::now())
    }

    /// Pauses the subscription at `now`.
    pub fn inactive_at(&mut self, now: OccurredAt)
        ensures
            *final(self) == (UserSubscription {
                status: SubscriptionStatus::Inactive,
                updated_at: now,
                ..*old(self)
            }),
    {
        self.status = SubscriptionStatus::Inactive;
        self.updated_at = now;
    }

    /// Pauses the subscription now.
    pub fn inactive(&mut self)
        ensures
            *final(self) == (UserSubscription {
                status: SubscriptionStatus::Inactive,
                updated_at: final(self).updated_at,
                ..*old(self)
            }),
    {
        self.inactive_at(OccurredAt::now())
    }
}

/// Creation, renewal, cancellation and plan changes of subscriptions.
pub struct SubscriptionService;

impl SubscriptionService {
    /// An active, automatically renewed subscription for `duration_days` from
    /// `now`, not yet tied to a user; an end outside the representable range is refused.
    pub fn create_subscription_at(
        subscription_id: uuid::Uuid,
        tier: SubscriptionTier,
        duration_days: i64,
        now: OccurredAt,
    ) -> (r: Result<UserSubscription, ValidationError>)
        ensures
            now.plus_days(duration_days) is None ==> r == Err::<UserSubscription, ValidationError>(
                ValidationError::InvalidSubscriptionStatus,
            ),
            now.plus_days(duration_days) is Some ==> r is Ok && {
                let s = r->Ok_0;
                &&& s.subscription_id == subscription_id
                &&& s.tier == tier
                &&& s.status == SubscriptionStatus::Active
                &&& s.starts_at == now
                &&& s.expires_at == now.plus_days(duration_days)
                &&& s.auto_renew
                &&& s.payment_method is None
                &&& s.created_at == now
                &&& s.updated_at == now
            },
    {
        let expires_at = match now.checked_add_days(duration_days) {
            Some(t) => t,
            None => {
                return Err(ValidationError::InvalidSubscriptionStatus);
            },
        };
        Ok(
            UserSubscription {
                subscription_id,
                user_id: uuid_from_bits(0),
                tier,
                status: SubscriptionStatus::Active,
                starts_at: now,
                expires_at: Some(expires_at),
                auto_renew: true,
                payment_method: None,
                created_at: now,
                updated_at: now,
            },
        )
    }

    /// An active subscription for `duration_days` from now, with a fresh identifier.
    pub fn create_subscription(tier: SubscriptionTier, duration_days: i64) -> (r: Result<
        UserSubscription,
        ValidationError,
    >)
        ensures
            r matches Ok(s) ==> s.tier == tier && s.status == SubscriptionStatus::Active
                && s.auto_renew && s.expires_at == s.starts_at.plus_days(duration_days),
            r matches Err(e) ==> e == ValidationError::InvalidSubscriptionStatus,
    {
        let id = uuid_from_bits(random_uuid_bits());
        SubscriptionService::create_subscription_at(id, tier, duration_days, OccurredAt::now())
    }

    /// Restarts an automatically renewed subscription at `now` for `duration_days`.
    pub fn renew_subscription_at(
        subscription: &mut UserSubscription,
        duration_days: i64,
        now: OccurredAt,
    ) -> (r: Result<(), ValidationError>)
        ensures
            !old(subscription).auto_renew || now.plus_days(duration_days) is None ==> r == Err::<
                (),
                ValidationError,
            >(ValidationError::InvalidSubscriptionStatus) && *final(subscription) == *old(subscription),
            old(subscription).auto_renew && now.plus_days(duration_days) is Some ==> r is Ok
                && *final(subscription) == (UserSubscription {
                status: SubscriptionStatus::Active,
                starts_at: now,
                expires_at: now.plus_days(duration_days),
                updated_at: now,
                ..*old(subscription)
            }),
    {
        if !subscription.auto_renew {
            return Err(ValidationError::InvalidSubscriptionStatus);
        }
        let new_expiration = match now.checked_add_days(duration_days) {
            Some(t) => t,
            None => {
                return Err(ValidationError::InvalidSubscriptionStatus);
            },
        };
        subscription.status = SubscriptionStatus::Active;
        subscription.starts_at = now;
        subscription.expires_at = Some(new_expiration);
        subscription.updated_at = now;
        Ok(())
    }

    /// Restarts an automatically renewed subscription now.
    pub fn renew_subscription(subscription: &mut UserSubscription, duration_days: i64) -> (r: Result<
        (),
        ValidationError,
    >)
        ensures
            !old(subscription).auto_renew ==> r == Err::<(), ValidationError>(
                ValidationError::InvalidSubscriptionStatus,
            ) && *final(subscription) == *old(subscription),
            r is Ok ==> *final(subscription) == (UserSubscription {
                status: SubscriptionStatus::Active,
                starts_at: final(subscription).starts_at,
                expires_at: final(subscription).starts_at.plus_days(duration_days),
                updated_at: final(subscription).starts_at,
                ..*old(subscription)
            }),
    {
        SubscriptionService::renew_subscription_at(subscription, duration_days, OccurredAt::now())
    }

    /// Cancels a subscription now.
    pub fn cancel_subscription(subscription: &mut UserSubscription)
        ensures
            *final(subscription) == (UserSubscription {
                status: SubscriptionStatus::Canceled,
                auto_renew: false,
                updated_at: final(subscription).updated_at,
                ..*old(subscription)
            }),
    {
        subscription.cancel()
    }

    /// Whether the subscription is in force at `now`.
    pub fn is_active_at(subscription: &UserSubscription, now: OccurredAt) -> (r: bool)
        ensures
            r == in_force(subscription.status, subscription.expires_at, now),
    {
        subscription.is_active_at(now)
    }

    /// Whether the subscription is in force now.
    pub fn is_active(subscription: &UserSubscription) -> (r: bool)
        ensures
            subscription.status != SubscriptionStatus::Active ==> !r,
            subscription.status == SubscriptionStatus::Active && subscription.expires_at is None
                ==> r,
    {
        subscription.is_active()
    }

    /// Moves an active subscription to another plan at `now`.
    pub fn change_tier_at(
        subscription: &mut UserSubscription,
        new_tier: SubscriptionTier,
        now: OccurredAt,
    ) -> (r: Result<(), ValidationError>)
        ensures
            old(subscription).status != SubscriptionStatus::Active ==> r == Err::<
                (),
                ValidationError,
            >(ValidationError::InvalidSubscriptionStatus) && *final(subscription) == *old(subscription),
            old(subscription).status == SubscriptionStatus::Active ==> r is Ok && *final(subscription) == (UserSubscription { tier: new_tier, updated_at: now, ..*old(subscription) }),
    {
        if subscription.status != SubscriptionStatus::Active {
            return Err(ValidationError::InvalidSubscriptionStatus);
        }
        subscription.tier = new_tier;
        subscription.updated_at = now;
        Ok(())
    }

    /// Moves an active subscription to another plan now.
    pub fn change_tier(subscription: &mut UserSubscription, new_tier: SubscriptionTier) -> (r: Result<
        (),
        ValidationError,
    >)
        ensures
            old(subscription).status != SubscriptionStatus::Active ==> r == Err::<
                (),
                ValidationError,
            >(ValidationError::InvalidSubscriptionStatus) && *final(subscription) == *old(subscription),
            old(subscription).status == SubscriptionStatus::Active ==> r is Ok && *final(subscription) == (UserSubscription {
                tier: new_tier,
                updated_at: final(subscription).updated_at,
                ..*old(subscription)
            }),
    {
        SubscriptionService::change_tier_at(subscription, new_tier, OccurredAt::now())
    }
}

} // verus!
