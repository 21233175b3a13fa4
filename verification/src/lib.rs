//! Identity and entitlement core of a forms service: bearer credentials,
//! password storage, the payment-gateway message mapping, the subscription
//! reconciliation state machine and the plan quota.

pub mod accounts;
pub mod auth;
pub mod config;
pub mod entitlement;
pub mod error;
pub mod export;
pub mod forms;
pub mod gateway;
pub mod guarantees;
pub mod handlers;
pub mod models;
pub mod reconcile;
pub mod text;
