//! What holds of the providers' requests and answers, in terms of what goes in and what comes out.
//!
//! - [`stripe`], [`paypal`], [`braintree`]: what each gateway is sent, and how its answers are read
//! - [`webhooks`]: how events are read, and when one is authentic
//! - [`payloads`]: what typed payloads take from a document
pub mod braintree;
pub mod payloads;
pub mod paypal;
pub mod stripe;
pub mod webhooks;
