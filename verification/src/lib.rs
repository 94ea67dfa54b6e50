//! Verified core of a command-line client for a payment-provider HTTP API.
//!
//! The pipeline — credential resolution, input collection and validation,
//! request construction, response classification, and rendering — lives here
//! with contracts. Reading the configuration file, prompting the user and
//! dispatching the HTTP request are left to the surrounding binary, which
//! hands this library plain values and takes plain values back.

pub mod amount;
pub mod client;
pub mod config;
pub mod create_payment;
pub mod cancel_payment;
pub mod error;
pub mod list_balances;
pub mod input;
pub mod render;
pub mod text;
