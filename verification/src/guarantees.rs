//! What the reconciliation engine guarantees across several steps, stated
//! over the mathematical value of the ledger and proved from the definitions
//! of the steps.

use vstd::prelude::*;
use crate::entitlement::{quota_allows, quota_verdict};
use crate::error::AppErrorView;
use crate::gateway::{
    confirmed_reference, verify_verdict, GatewayOutcome, PaystackVerifyResponse,
    PaystackWebhookEvent,
};
use crate::models::{Plan, SubscriptionStatus, SubscriptionView};
use crate::reconcile::{
    activated, has_reference, upgraded, LedgerView, SUBSCRIPTION_PERIOD_SECONDS,
};

verus! {

/// What a confirmation leaves behind: the row under the reference is the
/// confirmed row, its owner is the upgraded owner, and the ledger is still
/// well-formed.
pub proof fn lemma_after_activation(ledger: LedgerView, reference: Seq<char>, now: i64)
    requires
        ledger.wf(),
        ledger.holds(reference),
    ensures
        ledger.activate(reference, now).wf(),
        ledger.activate(reference, now).holds(reference),
        ledger.activate(reference, now).subscription(reference) == activated(
            ledger.subscription(reference),
            now,
        ),
        ledger.has_user(ledger.subscription(reference).user_id),
        ledger.activate(reference, now).has_user(ledger.subscription(reference).user_id),
        ledger.activate(reference, now).user(ledger.subscription(reference).user_id) == upgraded(
            ledger.user(ledger.subscription(reference).user_id),
        ),
{
    let after = ledger.activate(reference, now);
    ledger.lemma_activate_keeps_wf(reference, now);
    let i = choose|i: int|
        0 <= i < ledger.subscriptions.len() && has_reference(
            #[trigger] ledger.subscriptions[i],
            reference,
        );
    ledger.lemma_row_is_the_subscription(i, reference);
    assert(has_reference(after.subscriptions[i], reference));
    after.lemma_row_is_the_subscription(i, reference);
    let owner = ledger.subscriptions[i].user_id;
    assert(ledger.has_user(owner));
    let k = choose|k: int| 0 <= k < ledger.users.len() && (#[trigger] ledger.users[k]).id == owner;
    ledger.lemma_row_is_the_user(k, owner);
    assert(after.users[k].id == owner);
    after.lemma_row_is_the_user(k, owner);
    assert(ledger.owns(owner, reference));
}

/// Confirming a reference a second time changes nothing, whatever the ledger
/// and whenever the confirmations happen.
pub proof fn law_activation_is_idempotent(
    ledger: LedgerView,
    reference: Seq<char>,
    first: i64,
    second: i64,
)
    ensures
        ledger.activate(reference, first).activate(reference, second) == ledger.activate(
            reference,
            first,
        ),
{
    let once = ledger.activate(reference, first);
    let twice = once.activate(reference, second);
    assert forall|k: int| 0 <= k < ledger.users.len() implies once.owns(
        (#[trigger] once.users[k]).id,
        reference,
    ) == ledger.owns(ledger.users[k].id, reference) by {
        let id = ledger.users[k].id;
        if ledger.owns(id, reference) {
            let i = choose|i: int|
                0 <= i < ledger.subscriptions.len() && has_reference(
                    #[trigger] ledger.subscriptions[i],
                    reference,
                ) && ledger.subscriptions[i].user_id == id;
            assert(has_reference(once.subscriptions[i], reference) && once.subscriptions[i].user_id
                == id);
        }
        if once.owns(id, reference) {
            let i = choose|i: int|
                0 <= i < once.subscriptions.len() && has_reference(
                    #[trigger] once.subscriptions[i],
                    reference,
                ) && once.subscriptions[i].user_id == id;
            assert(has_reference(ledger.subscriptions[i], reference)
                && ledger.subscriptions[i].user_id == id);
        }
    }
    assert(twice.users =~= once.users);
    assert(twice.subscriptions =~= once.subscriptions);
    assert(twice =~= once);
}

/// Two confirmations in a row of a payment that was pending take effect
/// once: after the first the row is active, ends one period after the first
/// confirmation, and its owner is on the unlimited plan; the second leaves
/// the ledger as it is, end included, and reports the same row without error.
pub proof fn law_pending_payment_is_confirmed_once(
    ledger: LedgerView,
    reference: Seq<char>,
    first: i64,
    second: i64,
)
    requires
        ledger.wf(),
        ledger.holds(reference),
        ledger.subscription(reference).status == SubscriptionStatus::Pending,
        first + SUBSCRIPTION_PERIOD_SECONDS <= i64::MAX,
    ensures
        ({
            let once = ledger.activate(reference, first);
            let twice = once.activate(reference, second);
            let owner = ledger.subscription(reference).user_id;
            &&& once.subscription(reference).status == SubscriptionStatus::Active
            &&& once.subscription(reference).end_date == Some(
                (first + SUBSCRIPTION_PERIOD_SECONDS) as i64,
            )
            &&& once.user(owner).subscription_plan == Plan::Unlimited
            &&& twice == once
            &&& twice.subscription(reference).end_date == once.subscription(reference).end_date
            &&& ledger.activation_report(reference, first) == Ok::<SubscriptionView, AppErrorView>(
                once.subscription(reference),
            )
            &&& once.activation_report(reference, second) == Ok::<SubscriptionView, AppErrorView>(
                once.subscription(reference),
            )
        }),
{
    lemma_after_activation(ledger, reference, first);
    law_activation_is_idempotent(ledger, reference, first, second);
}

/// When the owner's verification and the gateway's event both confirm the
/// same payment, in either order, the first one to arrive takes effect and
/// the other changes nothing: the row is active, its end was set once, and
/// neither fails.
pub proof fn law_racing_confirmations_converge(
    ledger: LedgerView,
    owner: u128,
    reference: Seq<char>,
    outcome: GatewayOutcome<PaystackVerifyResponse>,
    event: PaystackWebhookEvent,
    verified_at: i64,
    notified_at: i64,
)
    requires
        ledger.wf(),
        ledger.holds(reference),
        ledger.subscription(reference).user_id == owner,
        verify_verdict(outcome) is Ok,
        confirmed_reference(event) == Some(reference),
    ensures
        ({
            let verified = ledger.verify(owner, reference, outcome, verified_at);
            let then_notified = verified.0.webhook(event, notified_at);
            let notified = ledger.webhook(event, notified_at);
            let then_verified = notified.verify(owner, reference, outcome, verified_at);
            &&& verified.1 is Ok
            &&& then_verified.1 is Ok
            &&& then_notified == verified.0
            &&& then_verified.0 == notified
            &&& then_notified.subscription(reference) == activated(
                ledger.subscription(reference),
                verified_at,
            )
            &&& then_verified.0.subscription(reference) == activated(
                ledger.subscription(reference),
                notified_at,
            )
            &&& then_notified.subscription(reference).status == SubscriptionStatus::Active
            &&& then_verified.0.subscription(reference).status == SubscriptionStatus::Active
            &&& then_verified.1 == Ok::<SubscriptionView, AppErrorView>(
                then_verified.0.subscription(reference),
            )
        }),
{
    lemma_after_activation(ledger, reference, verified_at);
    lemma_after_activation(ledger, reference, notified_at);
    law_activation_is_idempotent(ledger, reference, verified_at, notified_at);
    law_activation_is_idempotent(ledger, reference, notified_at, verified_at);
}

/// An event of the gateway for a reference that is not recorded, and an
/// event that is not a successful charge, leave the ledger as it is.
pub proof fn law_stray_event_changes_nothing(ledger: LedgerView, event: PaystackWebhookEvent, now: i64)
    requires
        confirmed_reference(event) matches Some(reference) ==> !ledger.holds(reference),
    ensures
        ledger.webhook(event, now) == ledger,
{
    match confirmed_reference(event) {
        Some(reference) => {
            ledger.lemma_unknown_reference(reference, now);
        },
        None => {},
    }
}

/// A verification by somebody who does not own the row fails and leaves the
/// ledger as it is; where the gateway reports success, the failure is the
/// authorization failure.
pub proof fn law_only_the_owner_confirms(
    ledger: LedgerView,
    caller: u128,
    reference: Seq<char>,
    outcome: GatewayOutcome<PaystackVerifyResponse>,
    now: i64,
)
    requires
        ledger.holds(reference),
        ledger.subscription(reference).user_id != caller,
    ensures
        ledger.verify(caller, reference, outcome, now).0 == ledger,
        ledger.verify(caller, reference, outcome, now).1 is Err,
        verify_verdict(outcome) is Ok ==> ledger.verify(caller, reference, outcome, now).1 == Err::<
            SubscriptionView,
            AppErrorView,
        >(AppErrorView::AuthorizationError),
{
}

/// The quota check stops a user on the free plan who owns as many forms as the
/// quota, and lets the same user pass, whatever the number of forms, as soon
/// as a payment of theirs is confirmed.
pub proof fn law_confirmation_lifts_the_quota(
    ledger: LedgerView,
    owner: u128,
    reference: Seq<char>,
    now: i64,
    form_count: i64,
)
    requires
        ledger.wf(),
        ledger.holds(reference),
        ledger.subscription(reference).user_id == owner,
    ensures
        ledger.user(owner).subscription_plan == Plan::Free ==> ledger.quota(owner, 3) is Err,
        ledger.activate(reference, now).quota(owner, form_count) == Ok::<(), AppErrorView>(()),
{
    lemma_after_activation(ledger, reference, now);
    assert(quota_allows(Plan::Unlimited, form_count));
}

} // verus!
