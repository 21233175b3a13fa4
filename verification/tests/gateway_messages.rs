use forms_backend::config::Config;
use forms_backend::error::AppError;
use forms_backend::gateway::{
    accept_initialize, accept_verify, confirms, initialize_call, initialize_request, verify_call,
    GatewayOutcome, PaystackInitializeData, PaystackInitializeResponse, PaystackVerifyData,
    PaystackVerifyResponse, PaystackWebhookData, PaystackWebhookEvent, SUBSCRIPTION_PRICE,
};

fn config() -> Config {
    Config {
        database_url: "postgres://localhost/forms".to_string(),
        jwt_secret: "fixture-secret".to_string(),
        paystack_secret_key: "sk_test_123".to_string(),
        paystack_public_key: "pk_test_123".to_string(),
    }
}

#[test]
fn initialize_call_goes_to_the_gateway_with_the_secret_key() {
    let call = initialize_call(&config());
    assert_eq!(call.url, "https://api.paystack.co/transaction/initialize");
    assert_eq!(call.authorization, "Bearer sk_test_123");
}

#[test]
fn initialize_request_carries_the_price_and_the_callback() {
    let request = initialize_request("alice@example.com".to_string());
    assert_eq!(request.email, "alice@example.com");
    assert_eq!(request.amount, 500000);
    assert_eq!(SUBSCRIPTION_PRICE, 500000);
    assert_eq!(request.callback_url, "http://localhost:3000/payment/callback");
}

#[test]
fn verify_call_names_the_reference() {
    let call = verify_call("ref-1", &config());
    assert_eq!(call.url, "https://api.paystack.co/transaction/verify/ref-1");
    assert_eq!(call.authorization, "Bearer sk_test_123");
}

#[test]
fn accepted_initialize_hands_out_the_gateway_data() {
    let data = accept_initialize(GatewayOutcome::Reply(PaystackInitializeResponse {
        status: true,
        message: "ok".to_string(),
        data: PaystackInitializeData {
            authorization_url: "https://checkout.paystack.com/abc".to_string(),
            access_code: "abc".to_string(),
            reference: "ref-1".to_string(),
        },
    }))
    .unwrap();
    assert_eq!(data.authorization_url, "https://checkout.paystack.com/abc");
    assert_eq!(data.access_code, "abc");
    assert_eq!(data.reference, "ref-1");
}

#[test]
fn verify_succeeds_only_on_success_status() {
    let reply = |status: bool, state: &str| {
        GatewayOutcome::Reply(PaystackVerifyResponse {
            status,
            message: "gateway says".to_string(),
            data: PaystackVerifyData { status: state.to_string(), reference: "r".to_string() },
        })
    };
    assert!(accept_verify(reply(true, "success")).is_ok());
    match accept_verify(reply(true, "Success")) {
        Err(AppError::PaymentError(message)) => assert_eq!(message, "Payment was not successful"),
        other => panic!("unexpected: {:?}", other),
    }
    match accept_verify(reply(false, "success")) {
        Err(AppError::PaymentError(message)) => assert_eq!(message, "gateway says"),
        other => panic!("unexpected: {:?}", other),
    }
    assert!(matches!(accept_verify(GatewayOutcome::Unreachable), Err(AppError::PaymentError(_))));
    assert!(matches!(accept_verify(GatewayOutcome::Malformed), Err(AppError::PaymentError(_))));
}

#[test]
fn only_a_successful_charge_confirms() {
    let event = |kind: &str, status: &str| PaystackWebhookEvent {
        event: kind.to_string(),
        data: PaystackWebhookData { reference: "r".to_string(), status: status.to_string() },
    };
    assert!(confirms(&event("charge.success", "success")));
    assert!(!confirms(&event("charge.success", "failed")));
    assert!(!confirms(&event("charge.dispute.create", "success")));
    assert!(!confirms(&event("CHARGE.SUCCESS", "success")));
}
