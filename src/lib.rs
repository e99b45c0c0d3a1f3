//! Watches one product page, adds the product to the cart the moment it can be
//! bought, and then asks for a text message to the operator.
//!
//! The library holds the decisions: which settings must be present, how a probe
//! of the page reads, and the lifecycle from sign-in through backoff and reload
//! to acquisition and notification. The browser, the clock and the messaging
//! service stay with the caller, which performs each requested action and hands
//! back what happened.
pub mod config;
pub mod error;
pub mod laws;
pub mod machine;
pub mod target;
