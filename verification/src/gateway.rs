//! The payment gateway client: what is sent to the gateway and how its
//! answers are read. The transport itself is the caller's business; this
//! module is told how the exchange ended.

use vstd::prelude::*;
use vstd::string::StringExecFns;
use crate::config::Config;
use crate::error::{reported, AppError, AppErrorView};
use crate::text::{joined, same_text};

verus! {

/// Price of the unlimited plan in minor units of the currency.
pub const SUBSCRIPTION_PRICE: i32 = 500000;

/// Body of the request that opens a transaction.
#[derive(Debug)]
pub struct PaystackInitializeRequest {
    pub email: String,
    pub amount: i32,
    pub callback_url: String,
}

/// What the gateway returns for an opened transaction.
#[derive(Debug)]
pub struct PaystackInitializeData {
    pub authorization_url: String,
    pub access_code: String,
    pub reference: String,
}

/// The gateway's answer to the request that opens a transaction.
#[derive(Debug)]
pub struct PaystackInitializeResponse {
    pub status: bool,
    pub message: String,
    pub data: PaystackInitializeData,
}

/// What the service tells a user who opened a payment.
#[derive(Debug)]
pub struct InitializePaymentResponse {
    pub authorization_url: String,
    pub reference: String,
}

/// State of a transaction as the gateway reports it.
#[derive(Debug)]
pub struct PaystackVerifyData {
    pub status: String,
    pub reference: String,
}

/// The gateway's answer to a verification.
#[derive(Debug)]
pub struct PaystackVerifyResponse {
    pub status: bool,
    pub message: String,
    pub data: PaystackVerifyData,
}

/// The transaction that an event is about.
#[derive(Debug)]
pub struct PaystackWebhookData {
    pub reference: String,
    pub status: String,
}

/// An event that the gateway posts.
#[derive(Debug)]
pub struct PaystackWebhookEvent {
    pub event: String,
    pub data: PaystackWebhookData,
}

/// How an exchange with the gateway ended.
#[derive(Debug)]
pub enum GatewayOutcome<T> {
    /// The request could not be sent or no answer came.
    Unreachable,
    /// An answer came and could not be read.
    Malformed,
    /// The answer.
    Reply(T),
}

/// Address and credential of a call to the gateway.
#[derive(Debug)]
pub struct GatewayCall {
    pub url: String,
    /// Value of the `Authorization` header.
    pub authorization: String,
}

/// The `Authorization` header value that presents `key` as a bearer credential.
pub open spec fn bearer_of(key: Seq<char>) -> Seq<char> {
    "Bearer "@ + key
}

/// Address under which the gateway reports on `reference`.
pub open spec fn verify_address(reference: Seq<char>) -> Seq<char> {
    "https://api.paystack.co/transaction/verify/"@ + reference
}

/// The call that opens a transaction.
pub fn initialize_call(config: &Config) -> (call: GatewayCall)
    ensures
        call.url@ == "https://api.paystack.co/transaction/initialize"@,
        call.authorization@ == bearer_of(config.paystack_secret_key@),
{
    GatewayCall {
        url: String::from_str("https://api.paystack.co/transaction/initialize"),
        authorization: joined("Bearer ", config.paystack_secret_key.as_str()),
    }
}

/// Body of the request that opens a transaction for the user with this
/// address: the price of the unlimited plan, and where the gateway sends the
/// user afterwards.
pub fn initialize_request(email: String) -> (request: PaystackInitializeRequest)
    ensures
        request.email == email,
        request.amount == SUBSCRIPTION_PRICE,
        request.callback_url@ == "http://localhost:3000/payment/callback"@,
{
    PaystackInitializeRequest {
        email,
        amount: SUBSCRIPTION_PRICE,
        callback_url: String::from_str("http://localhost:3000/payment/callback"),
    }
}

/// The call that asks the gateway how the transaction `reference` stands.
pub fn verify_call(reference: &str, config: &Config) -> (call: GatewayCall)
    ensures
        call.url@ == verify_address(reference@),
        call.authorization@ == bearer_of(config.paystack_secret_key@),
{
    GatewayCall {
        url: joined("https://api.paystack.co/transaction/verify/", reference),
        authorization: joined("Bearer ", config.paystack_secret_key.as_str()),
    }
}

/// What the opening of a transaction comes to: the gateway's data where it
/// accepted the request, and a payment failure otherwise.
pub open spec fn initialize_verdict(outcome: GatewayOutcome<PaystackInitializeResponse>) -> Result<
    PaystackInitializeData,
    AppErrorView,
> {
    match outcome {
        GatewayOutcome::Unreachable => Err(
            AppErrorView::PaymentError("Failed to initialize payment"@),
        ),
        GatewayOutcome::Malformed => Err(
            AppErrorView::PaymentError("Invalid response from Paystack"@),
        ),
        GatewayOutcome::Reply(reply) => if reply.status {
            Ok(reply.data)
        } else {
            Err(AppErrorView::PaymentError(reply.message@))
        },
    }
}

/// Reads the end of the exchange that opens a transaction.
pub fn accept_initialize(outcome: GatewayOutcome<PaystackInitializeResponse>) -> (verdict: Result<
    PaystackInitializeData,
    AppError,
>)
    ensures
        reported(verdict) == initialize_verdict(outcome),
{
    match outcome {
        GatewayOutcome::Unreachable => Err(
            AppError::PaymentError(String::from_str("Failed to initialize payment")),
        ),
        GatewayOutcome::Malformed => Err(
            AppError::PaymentError(String::from_str("Invalid response from Paystack")),
        ),
        GatewayOutcome::Reply(reply) => if reply.status {
            Ok(reply.data)
        } else {
            Err(AppError::PaymentError(reply.message))
        },
    }
}

/// What a verification comes to: nothing to report where the gateway says
/// that the transaction succeeded, and a payment failure otherwise.
pub open spec fn verify_verdict(outcome: GatewayOutcome<PaystackVerifyResponse>) -> Result<
    (),
    AppErrorView,
> {
    match outcome {
        GatewayOutcome::Unreachable => Err(AppErrorView::PaymentError("Failed to verify payment"@)),
        GatewayOutcome::Malformed => Err(
            AppErrorView::PaymentError("Invalid response from Paystack"@),
        ),
        GatewayOutcome::Reply(reply) => if !reply.status {
            Err(AppErrorView::PaymentError(reply.message@))
        } else if reply.data.status@ == "success"@ {
            Ok(())
        } else {
            Err(AppErrorView::PaymentError("Payment was not successful"@))
        },
    }
}

/// Reads the end of a verification exchange.
pub fn accept_verify(outcome: GatewayOutcome<PaystackVerifyResponse>) -> (verdict: Result<
    (),
    AppError,
>)
    ensures
        reported(verdict) == verify_verdict(outcome),
{
    match outcome {
        GatewayOutcome::Unreachable => Err(
            AppError::PaymentError(String::from_str("Failed to verify payment")),
        ),
        GatewayOutcome::Malformed => Err(
            AppError::PaymentError(String::from_str("Invalid response from Paystack")),
        ),
        GatewayOutcome::Reply(reply) => if !reply.status {
            Err(AppError::PaymentError(reply.message))
        } else if same_text(reply.data.status.as_str(), "success") {
            Ok(())
        } else {
            Err(AppError::PaymentError(String::from_str("Payment was not successful")))
        },
    }
}

/// The reference that an event confirms: the event must be a successful
/// charge in both its kind and its status. Every other event confirms nothing.
pub open spec fn confirmed_reference(event: PaystackWebhookEvent) -> Option<Seq<char>> {
    if event.event@ == "charge.success"@ && event.data.status@ == "success"@ {
        Some(event.data.reference@)
    } else {
        None
    }
}

/// Whether an event confirms the transaction that it names.
pub fn confirms(event: &PaystackWebhookEvent) -> (yes: bool)
    ensures
        yes == confirmed_reference(*event).is_some(),
{
    same_text(event.event.as_str(), "charge.success") && same_text(
        event.data.status.as_str(),
        "success",
    )
}

} // verus!
