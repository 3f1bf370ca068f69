//! Connector integration and transformation core of a payment switch: the
//! canonical payment-method model, the per-operation envelope, credential
//! shapes and their validation, status and error normalization, and one
//! reference connector adapter.

pub mod admin;
pub mod amount;
pub mod api;
pub mod auth;
pub mod bank_account;
pub mod braintree;
pub mod enums;
pub mod errors;
pub mod payment_method;
pub mod router_data;
pub mod secret;
