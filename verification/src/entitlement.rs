//! Entitlement: whether a user's plan lets them create one more form.

use vstd::prelude::*;
use vstd::string::StringExecFns;
use crate::config::FREE_PLAN_MAX_FORMS;
use crate::error::{reported, AppError, AppErrorView};
use crate::models::{Plan, User};

verus! {

/// Whether a user on `plan` who owns `form_count` forms may create another:
/// the free plan stops at the quota, the unlimited plan never stops.
pub open spec fn quota_allows(plan: Plan, form_count: i64) -> bool {
    !(plan == Plan::Free && form_count >= FREE_PLAN_MAX_FORMS)
}

/// What the quota check answers: nothing to report where the form may be created,
/// and otherwise a validation failure that tells the user of the quota.
pub open spec fn quota_verdict(plan: Plan, form_count: i64) -> Result<(), AppErrorView> {
    if quota_allows(plan, form_count) {
        Ok(())
    } else {
        Err(AppErrorView::ValidationError("Free plan users can only create up to 3 forms"@))
    }
}

/// Decides whether a user on `plan` who owns `form_count` forms may create
/// another one.
pub fn check_plan_quota(plan: Plan, form_count: i64) -> (verdict: Result<(), AppError>)
    ensures
        reported(verdict) == quota_verdict(plan, form_count),
{
    match plan {
        Plan::Free => if form_count >= FREE_PLAN_MAX_FORMS {
            Err(
                AppError::ValidationError(
                    String::from_str("Free plan users can only create up to 3 forms"),
                ),
            )
        } else {
            Ok(())
        },
        Plan::Unlimited => Ok(()),
    }
}

/// Decides whether `user`, who owns `form_count` forms, may create another
/// one. Only the user's current plan is read; nothing is changed.
pub fn check_quota(user: &User, form_count: i64) -> (verdict: Result<(), AppError>)
    ensures
        reported(verdict) == quota_verdict(user.subscription_plan, form_count),
{
    check_plan_quota(user.subscription_plan, form_count)
}

/// The unlimited plan is never stopped, and the free plan is stopped exactly
/// from the quota on.
pub proof fn law_quota(form_count: i64)
    ensures
        quota_allows(Plan::Unlimited, form_count),
        quota_allows(Plan::Free, form_count) <==> form_count < 3,
{
}

} // verus!
