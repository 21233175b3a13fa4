use forms_backend::auth::AuthUser;
use forms_backend::error::AppError;
use forms_backend::gateway::{
    GatewayOutcome, PaystackInitializeData, PaystackInitializeResponse, PaystackVerifyData,
    PaystackVerifyResponse, PaystackWebhookData, PaystackWebhookEvent,
};
use forms_backend::models::{Plan, SubscriptionStatus};
use forms_backend::reconcile::{Ledger, SUBSCRIPTION_PERIOD_SECONDS};

const ALICE: u128 = 1;
const BOB: u128 = 2;
const T0: i64 = 1_700_000_000;
const YEAR: i64 = 365 * 24 * 60 * 60;

fn ledger_with_pending(reference: &str) -> Ledger {
    let mut ledger = Ledger::new();
    ledger
        .add_user(ALICE, "alice@example.com".to_string(), "hash-a".to_string(), None, T0)
        .unwrap();
    ledger
        .add_user(
            BOB,
            "bob@example.com".to_string(),
            "hash-b".to_string(),
            Some("Bob".to_string()),
            T0,
        )
        .unwrap();
    ledger.open_subscription(100, ALICE, reference.to_string(), T0).unwrap();
    ledger
}

fn verified(status: &str, reference: &str) -> GatewayOutcome<PaystackVerifyResponse> {
    GatewayOutcome::Reply(PaystackVerifyResponse {
        status: true,
        message: "Verification successful".to_string(),
        data: PaystackVerifyData { status: status.to_string(), reference: reference.to_string() },
    })
}

fn event(kind: &str, status: &str, reference: &str) -> PaystackWebhookEvent {
    PaystackWebhookEvent {
        event: kind.to_string(),
        data: PaystackWebhookData { reference: reference.to_string(), status: status.to_string() },
    }
}

#[test]
fn period_is_365_days() {
    assert_eq!(SUBSCRIPTION_PERIOD_SECONDS, YEAR);
    assert_eq!(SUBSCRIPTION_PERIOD_SECONDS, 31_536_000);
}

#[test]
fn opened_payment_is_pending() {
    let ledger = ledger_with_pending("ref-1");
    let row = ledger.subscription("ref-1").unwrap();
    assert_eq!(row.id, 100);
    assert_eq!(row.user_id, ALICE);
    assert_eq!(row.plan_type, Plan::Unlimited);
    assert_eq!(row.paystack_reference.as_deref(), Some("ref-1"));
    assert_eq!(row.status, SubscriptionStatus::Pending);
    assert_eq!(row.start_date, T0);
    assert_eq!(row.end_date, None);
    assert_eq!(ledger.user(ALICE).unwrap().subscription_plan, Plan::Free);
    assert!(ledger.subscription("ref-2").is_none());
}

#[test]
fn activation_makes_the_row_active_for_one_period() {
    let mut ledger = ledger_with_pending("ref-1");
    let row = ledger.activate("ref-1", T0 + 10).unwrap();
    assert_eq!(row.status, SubscriptionStatus::Active);
    assert_eq!(row.end_date, Some(T0 + 10 + YEAR));
    assert_eq!(row.updated_at, T0 + 10);
    assert_eq!(row.start_date, T0);
    let stored = ledger.subscription("ref-1").unwrap();
    assert_eq!(stored.status, SubscriptionStatus::Active);
    assert_eq!(stored.end_date, Some(T0 + 10 + YEAR));
    assert_eq!(ledger.user(ALICE).unwrap().subscription_plan, Plan::Unlimited);
    assert_eq!(ledger.user(BOB).unwrap().subscription_plan, Plan::Free);
}

#[test]
fn activating_twice_keeps_the_first_end() {
    let mut ledger = ledger_with_pending("ref-1");
    let first = ledger.activate("ref-1", T0 + 10).unwrap();
    let second = ledger.activate("ref-1", T0 + 5000).unwrap();
    assert_eq!(first.end_date, Some(T0 + 10 + YEAR));
    assert_eq!(second.end_date, first.end_date);
    assert_eq!(second.status, SubscriptionStatus::Active);
    assert_eq!(second.updated_at, T0 + 10);
    let stored = ledger.subscription("ref-1").unwrap();
    assert_eq!(stored.end_date, Some(T0 + 10 + YEAR));
    assert_eq!(ledger.user(ALICE).unwrap().subscription_plan, Plan::Unlimited);
}

#[test]
fn activating_an_unknown_reference_is_not_found() {
    let mut ledger = ledger_with_pending("ref-1");
    match ledger.activate("ref-9", T0) {
        Err(AppError::NotFound(message)) => assert_eq!(message, "Subscription not found"),
        other => panic!("unexpected: {:?}", other),
    }
    assert_eq!(ledger.subscription("ref-1").unwrap().status, SubscriptionStatus::Pending);
    assert_eq!(ledger.user(ALICE).unwrap().subscription_plan, Plan::Free);
}

#[test]
fn verify_then_webhook_activates_once() {
    let mut ledger = ledger_with_pending("ref-1");
    let alice = AuthUser { user_id: ALICE };
    let row = ledger.verify_payment(&alice, "ref-1", verified("success", "ref-1"), T0 + 1).unwrap();
    assert_eq!(row.end_date, Some(T0 + 1 + YEAR));
    assert!(ledger.payment_webhook(&event("charge.success", "success", "ref-1"), T0 + 99).is_ok());
    let stored = ledger.subscription("ref-1").unwrap();
    assert_eq!(stored.status, SubscriptionStatus::Active);
    assert_eq!(stored.end_date, Some(T0 + 1 + YEAR));
}

#[test]
fn webhook_then_verify_activates_once() {
    let mut ledger = ledger_with_pending("ref-1");
    let alice = AuthUser { user_id: ALICE };
    assert!(ledger.payment_webhook(&event("charge.success", "success", "ref-1"), T0 + 7).is_ok());
    let row =
        ledger.verify_payment(&alice, "ref-1", verified("success", "ref-1"), T0 + 800).unwrap();
    assert_eq!(row.status, SubscriptionStatus::Active);
    assert_eq!(row.end_date, Some(T0 + 7 + YEAR));
    assert_eq!(ledger.subscription("ref-1").unwrap().end_date, Some(T0 + 7 + YEAR));
    assert_eq!(ledger.user(ALICE).unwrap().subscription_plan, Plan::Unlimited);
}

#[test]
fn webhook_for_unknown_reference_is_accepted_and_changes_nothing() {
    let mut ledger = ledger_with_pending("ref-1");
    assert!(ledger.payment_webhook(&event("charge.success", "success", "ref-9"), T0).is_ok());
    assert_eq!(ledger.subscription("ref-1").unwrap().status, SubscriptionStatus::Pending);
    assert_eq!(ledger.user(ALICE).unwrap().subscription_plan, Plan::Free);
    assert_eq!(ledger.user(BOB).unwrap().subscription_plan, Plan::Free);
}

#[test]
fn webhook_ignores_other_events_and_statuses() {
    let mut ledger = ledger_with_pending("ref-1");
    assert!(ledger.payment_webhook(&event("charge.failed", "success", "ref-1"), T0).is_ok());
    assert!(ledger.payment_webhook(&event("charge.success", "failed", "ref-1"), T0).is_ok());
    assert!(ledger.payment_webhook(&event("transfer.success", "success", "ref-1"), T0).is_ok());
    assert!(ledger.payment_webhook(&event("", "", "ref-1"), T0).is_ok());
    assert_eq!(ledger.subscription("ref-1").unwrap().status, SubscriptionStatus::Pending);
    assert_eq!(ledger.subscription("ref-1").unwrap().end_date, None);
    assert_eq!(ledger.user(ALICE).unwrap().subscription_plan, Plan::Free);
}

#[test]
fn verify_by_another_user_is_refused_and_changes_nothing() {
    let mut ledger = ledger_with_pending("ref-1");
    let bob = AuthUser { user_id: BOB };
    let refused = ledger.verify_payment(&bob, "ref-1", verified("success", "ref-1"), T0 + 1);
    assert!(matches!(refused, Err(AppError::AuthorizationError)));
    assert_eq!(ledger.subscription("ref-1").unwrap().status, SubscriptionStatus::Pending);
    assert_eq!(ledger.subscription("ref-1").unwrap().end_date, None);
    assert_eq!(ledger.user(ALICE).unwrap().subscription_plan, Plan::Free);
    assert_eq!(ledger.user(BOB).unwrap().subscription_plan, Plan::Free);
}

#[test]
fn verify_of_unknown_reference_is_not_found() {
    let mut ledger = ledger_with_pending("ref-1");
    let alice = AuthUser { user_id: ALICE };
    match ledger.verify_payment(&alice, "ref-9", verified("success", "ref-9"), T0) {
        Err(AppError::NotFound(message)) => assert_eq!(message, "Subscription not found"),
        other => panic!("unexpected: {:?}", other),
    }
}

#[test]
fn verify_reports_gateway_failures_as_payment_failures() {
    let mut ledger = ledger_with_pending("ref-1");
    let alice = AuthUser { user_id: ALICE };
    match ledger.verify_payment(&alice, "ref-1", GatewayOutcome::Unreachable, T0) {
        Err(AppError::PaymentError(message)) => assert_eq!(message, "Failed to verify payment"),
        other => panic!("unexpected: {:?}", other),
    }
    match ledger.verify_payment(&alice, "ref-1", GatewayOutcome::Malformed, T0) {
        Err(AppError::PaymentError(message)) => {
            assert_eq!(message, "Invalid response from Paystack")
        }
        other => panic!("unexpected: {:?}", other),
    }
    let declined = GatewayOutcome::Reply(PaystackVerifyResponse {
        status: false,
        message: "Transaction reference not found".to_string(),
        data: PaystackVerifyData { status: "success".to_string(), reference: "ref-1".to_string() },
    });
    match ledger.verify_payment(&alice, "ref-1", declined, T0) {
        Err(AppError::PaymentError(message)) => {
            assert_eq!(message, "Transaction reference not found")
        }
        other => panic!("unexpected: {:?}", other),
    }
    match ledger.verify_payment(&alice, "ref-1", verified("abandoned", "ref-1"), T0) {
        Err(AppError::PaymentError(message)) => assert_eq!(message, "Payment was not successful"),
        other => panic!("unexpected: {:?}", other),
    }
    assert_eq!(ledger.subscription("ref-1").unwrap().status, SubscriptionStatus::Pending);
    assert_eq!(ledger.user(ALICE).unwrap().subscription_plan, Plan::Free);
}

#[test]
fn quota_stops_the_fourth_form_until_the_payment_is_confirmed() {
    let mut ledger = ledger_with_pending("ref-1");
    let alice = AuthUser { user_id: ALICE };
    assert!(ledger.check_quota(&alice, 2).is_ok());
    match ledger.check_quota(&alice, 3) {
        Err(AppError::ValidationError(message)) => {
            assert_eq!(message, "Free plan users can only create up to 3 forms")
        }
        other => panic!("unexpected: {:?}", other),
    }
    assert!(ledger.payment_webhook(&event("charge.success", "success", "ref-1"), T0 + 1).is_ok());
    assert_eq!(ledger.user(ALICE).unwrap().subscription_plan, Plan::Unlimited);
    assert!(ledger.check_quota(&alice, 3).is_ok());
    assert!(ledger.check_quota(&alice, 3000).is_ok());
}

#[test]
fn quota_of_an_unknown_user_is_a_datastore_failure() {
    let ledger = ledger_with_pending("ref-1");
    assert!(matches!(
        ledger.check_quota(&AuthUser { user_id: 77 }, 0),
        Err(AppError::DatabaseError(_))
    ));
}

#[test]
fn initialize_records_a_pending_row_under_the_gateway_reference() {
    let mut ledger = ledger_with_pending("ref-1");
    let bob = AuthUser { user_id: BOB };
    let accepted = GatewayOutcome::Reply(PaystackInitializeResponse {
        status: true,
        message: "Authorization URL created".to_string(),
        data: PaystackInitializeData {
            authorization_url: "https://checkout.paystack.com/abc".to_string(),
            access_code: "abc".to_string(),
            reference: "ref-2".to_string(),
        },
    });
    let answer = ledger.initialize_payment(&bob, accepted, 101, T0 + 3).unwrap();
    assert_eq!(answer.authorization_url, "https://checkout.paystack.com/abc");
    assert_eq!(answer.reference, "ref-2");
    let row = ledger.subscription("ref-2").unwrap();
    assert_eq!(row.user_id, BOB);
    assert_eq!(row.status, SubscriptionStatus::Pending);
    assert_eq!(row.plan_type, Plan::Unlimited);
    assert_eq!(row.start_date, T0 + 3);
    assert_eq!(row.end_date, None);
}

#[test]
fn initialize_reports_gateway_failures_and_records_nothing() {
    let mut ledger = ledger_with_pending("ref-1");
    let bob = AuthUser { user_id: BOB };
    match ledger.initialize_payment(&bob, GatewayOutcome::Unreachable, 101, T0) {
        Err(AppError::PaymentError(message)) => {
            assert_eq!(message, "Failed to initialize payment")
        }
        other => panic!("unexpected: {:?}", other),
    }
    match ledger.initialize_payment(&bob, GatewayOutcome::Malformed, 101, T0) {
        Err(AppError::PaymentError(message)) => {
            assert_eq!(message, "Invalid response from Paystack")
        }
        other => panic!("unexpected: {:?}", other),
    }
    let declined = GatewayOutcome::Reply(PaystackInitializeResponse {
        status: false,
        message: "Invalid key".to_string(),
        data: PaystackInitializeData {
            authorization_url: String::new(),
            access_code: String::new(),
            reference: "ref-2".to_string(),
        },
    });
    match ledger.initialize_payment(&bob, declined, 101, T0) {
        Err(AppError::PaymentError(message)) => assert_eq!(message, "Invalid key"),
        other => panic!("unexpected: {:?}", other),
    }
    assert!(ledger.subscription("ref-2").is_none());
}

#[test]
fn initialize_for_unknown_user_or_used_reference_is_a_datastore_failure() {
    let mut ledger = ledger_with_pending("ref-1");
    let reply = |reference: &str| {
        GatewayOutcome::Reply(PaystackInitializeResponse {
            status: true,
            message: String::new(),
            data: PaystackInitializeData {
                authorization_url: "https://checkout.paystack.com/x".to_string(),
                access_code: "x".to_string(),
                reference: reference.to_string(),
            },
        })
    };
    assert!(matches!(
        ledger.initialize_payment(&AuthUser { user_id: 77 }, reply("ref-7"), 102, T0),
        Err(AppError::DatabaseError(_))
    ));
    assert!(matches!(
        ledger.initialize_payment(&AuthUser { user_id: BOB }, reply("ref-1"), 103, T0),
        Err(AppError::DatabaseError(_))
    ));
    assert_eq!(ledger.subscription("ref-1").unwrap().user_id, ALICE);
    assert!(ledger.subscription("ref-7").is_none());
}

#[test]
fn users_are_told_apart_by_address_and_identifier() {
    let mut ledger = ledger_with_pending("ref-1");
    match ledger.add_user(3, "alice@example.com".to_string(), "h".to_string(), None, T0) {
        Err(AppError::ValidationError(message)) => assert_eq!(message, "Email already exists"),
        other => panic!("unexpected: {:?}", other),
    }
    assert!(matches!(
        ledger.add_user(ALICE, "carol@example.com".to_string(), "h".to_string(), None, T0),
        Err(AppError::DatabaseError(_))
    ));
    assert!(ledger.user(3).is_none());
    let carol =
        ledger.add_user(3, "carol@example.com".to_string(), "h".to_string(), None, T0 + 1).unwrap();
    assert_eq!(carol.subscription_plan, Plan::Free);
    assert_eq!(carol.created_at, T0 + 1);
    assert_eq!(ledger.user_by_email("carol@example.com").unwrap().id, 3);
    assert!(ledger.user_by_email("dave@example.com").is_none());
}

#[test]
fn a_second_payment_of_an_upgraded_user_activates_too() {
    let mut ledger = ledger_with_pending("ref-1");
    ledger.activate("ref-1", T0 + 1).unwrap();
    ledger.open_subscription(200, ALICE, "ref-2".to_string(), T0 + 50).unwrap();
    let row = ledger.activate("ref-2", T0 + 60).unwrap();
    assert_eq!(row.end_date, Some(T0 + 60 + YEAR));
    assert_eq!(ledger.subscription("ref-1").unwrap().end_date, Some(T0 + 1 + YEAR));
    assert_eq!(ledger.user(ALICE).unwrap().subscription_plan, Plan::Unlimited);
}

fn stored_user(id: u128, email: &str, plan: Plan) -> forms_backend::models::User {
    forms_backend::models::User {
        id,
        email: email.to_string(),
        password_hash: "h".to_string(),
        full_name: None,
        subscription_plan: plan,
        created_at: T0,
        updated_at: T0,
    }
}

fn stored_row(
    user_id: u128,
    reference: Option<&str>,
    status: SubscriptionStatus,
    end_date: Option<i64>,
) -> forms_backend::models::Subscription {
    forms_backend::models::Subscription {
        id: 500,
        user_id,
        plan_type: Plan::Unlimited,
        paystack_reference: reference.map(|r| r.to_string()),
        status,
        start_date: T0,
        end_date,
        created_at: T0,
        updated_at: T0,
    }
}

#[test]
fn ledger_is_built_from_consistent_rows() {
    let ledger = Ledger::from_rows(
        vec![stored_user(ALICE, "a@example.com", Plan::Unlimited), stored_user(BOB, "b@example.com", Plan::Free)],
        vec![
            stored_row(ALICE, Some("ref-1"), SubscriptionStatus::Active, Some(T0 + YEAR)),
            stored_row(BOB, Some("ref-2"), SubscriptionStatus::Pending, None),
            stored_row(BOB, None, SubscriptionStatus::Pending, None),
            stored_row(BOB, None, SubscriptionStatus::Pending, None),
        ],
    )
    .unwrap();
    assert_eq!(ledger.subscription("ref-1").unwrap().end_date, Some(T0 + YEAR));
    let (users, rows) = ledger.into_rows();
    assert_eq!(users.len(), 2);
    assert_eq!(rows.len(), 4);
    assert_eq!(users[1].id, BOB);
    assert_eq!(rows[1].paystack_reference.as_deref(), Some("ref-2"));
}

#[test]
fn ledger_refuses_rows_that_contradict_each_other() {
    let alice = || stored_user(ALICE, "a@example.com", Plan::Free);
    let pending = |reference: &str| stored_row(ALICE, Some(reference), SubscriptionStatus::Pending, None);
    assert!(Ledger::from_rows(vec![alice()], vec![pending("r")]).is_some());
    // two users under one identifier, or under one address
    assert!(Ledger::from_rows(vec![alice(), stored_user(ALICE, "x@example.com", Plan::Free)], vec![]).is_none());
    assert!(Ledger::from_rows(vec![alice(), stored_user(BOB, "a@example.com", Plan::Free)], vec![]).is_none());
    // two rows under one reference
    assert!(Ledger::from_rows(vec![alice()], vec![pending("r"), pending("r")]).is_none());
    // a row without its owner
    assert!(Ledger::from_rows(vec![], vec![pending("r")]).is_none());
    // an active row without an end, a pending row with one
    assert!(Ledger::from_rows(
        vec![stored_user(ALICE, "a@example.com", Plan::Unlimited)],
        vec![stored_row(ALICE, Some("r"), SubscriptionStatus::Active, None)]
    )
    .is_none());
    assert!(Ledger::from_rows(
        vec![alice()],
        vec![stored_row(ALICE, Some("r"), SubscriptionStatus::Pending, Some(T0))]
    )
    .is_none());
    // an active row whose owner is on the free plan
    assert!(Ledger::from_rows(
        vec![alice()],
        vec![stored_row(ALICE, Some("r"), SubscriptionStatus::Active, Some(T0 + YEAR))]
    )
    .is_none());
}

#[test]
fn loaded_ledger_confirms_like_a_fresh_one() {
    let mut ledger = Ledger::from_rows(
        vec![stored_user(ALICE, "a@example.com", Plan::Free)],
        vec![stored_row(ALICE, Some("ref-1"), SubscriptionStatus::Pending, None)],
    )
    .unwrap();
    let alice = AuthUser { user_id: ALICE };
    let row = ledger.verify_payment(&alice, "ref-1", verified("success", "ref-1"), T0 + 2).unwrap();
    assert_eq!(row.end_date, Some(T0 + 2 + YEAR));
    let (users, rows) = ledger.into_rows();
    assert_eq!(users[0].subscription_plan, Plan::Unlimited);
    assert_eq!(rows[0].status, SubscriptionStatus::Active);
    assert_eq!(rows[0].updated_at, T0 + 2);
}
