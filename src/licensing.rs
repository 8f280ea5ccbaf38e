use vstd::prelude::*;

use crate::error::AppError;
use crate::models::{lower_of, tier_named, Tier};

verus! {

/// How many invoices the free tier may create in a calendar month.
pub const FREE_INVOICES_PER_MONTH: u64 = 3;

/// The tier named by the stored `tier` setting; the free tier where none is
/// stored.
pub fn get_current_tier(setting: Option<&str>) -> (r: Tier)
    ensures
        r == match setting {
            Some(s) => tier_named(lower_of(s@)),
            None => Tier::Free,
        },
{
    match setting {
        Some(s) => Tier::from_string(s),
        None => Tier::Free,
    }
}

/// Whether one more invoice may be created this month, given how many were.
pub fn check_invoice_limit(tier: Tier, created_this_month: u64) -> (r: Result<(), AppError>)
    ensures
        r is Err <==> tier == Tier::Free && created_this_month >= FREE_INVOICES_PER_MONTH,
        r is Err ==> r == Err::<(), AppError>(AppError::TierLimit),
{
    if tier == Tier::Free && created_this_month >= FREE_INVOICES_PER_MONTH {
        Err(AppError::TierLimit)
    } else {
        Ok(())
    }
}

/// AI estimation needs a paid tier.
pub fn check_ai_access(tier: Tier) -> (r: Result<(), AppError>)
    ensures
        r == if tier == Tier::Free {
            Err(AppError::TierLimit)
        } else {
            Ok::<(), AppError>(())
        },
{
    if tier == Tier::Free {
        Err(AppError::TierLimit)
    } else {
        Ok(())
    }
}

/// Payment links need the premium tier.
pub fn check_stripe_access(tier: Tier) -> (r: Result<(), AppError>)
    ensures
        r == if tier != Tier::Premium {
            Err(AppError::TierLimit)
        } else {
            Ok::<(), AppError>(())
        },
{
    if tier != Tier::Premium {
        Err(AppError::TierLimit)
    } else {
        Ok(())
    }
}

} // verus!
