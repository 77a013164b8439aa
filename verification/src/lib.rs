//! Payment processing over Stripe, PayPal and Braintree.
//!
//! The library decides: what is asked of a gateway, what its answer means, which failures may be
//! retried and when, and whether a webhook is authentic. It performs no I/O. A caller sends each
//! [`GatewayRequest`] and hands the reply back.
//!
//! - [`money`]: amounts in minor units, with exact conversion to and from gateway text
//! - [`types`]: charges, refunds, customers, payment methods and subscriptions
//! - [`providers`]: the three gateways
//! - [`processor`]: the retry policy
//! - [`webhook`], [`payload`], [`router`]: events, what they carry, and who handles them
//! - [`gateway`], [`redact`]: requests and replies, errors by HTTP status, and what errors may show
//! - [`origins`]: what only chance and the clock can give
//! - [`laws`]: what holds of the requests, the answers and the webhooks of all three gateways
pub mod clock;
pub mod crypto;
pub mod decimal;
pub mod error;
pub mod gateway;
pub mod json;
pub mod laws;
pub mod money;
pub mod origins;
pub mod payload;
pub mod processor;
pub mod providers;
pub mod redact;
pub mod router;
pub mod string_map;
pub mod text;
pub mod types;
pub mod webhook;
pub mod xml;

pub use crate::clock::Timestamp;
pub use crate::error::{DeclineCode, PaymentError, PaymentResult};
pub use crate::gateway::{GatewayReply, GatewayRequest};
pub use crate::json::Json;
pub use crate::money::{Currency, Money, MoneyError, Price};
pub use crate::payload::{
    ChargeWebhookData, CustomerWebhookData, InvoiceWebhookData, PaymentMethodWebhookData, SubscriptionWebhookData,
    WebhookData,
};
pub use crate::processor::{
    InboundWebhook, PaymentProcessor, PaymentProvider, ProcessorConfig, ProviderProfile, WebhookAction, WebhookStage,
    MAX_SERVER_RETRY_AFTER_MS,
};
pub use crate::router::WebhookRouter;
pub use crate::string_map::StringMap;
pub use crate::types::{
    Address, BillingDetails, CardDetails, CardFunding, CardInfo, Charge, ChargeRequest, ChargeStatus,
    CreateCustomerRequest, CreatePaymentMethodRequest, CreateSubscriptionRequest, Customer, Invoice, InvoiceStatus,
    PaymentMethod, PaymentMethodType, PaymentSource, Refund, RefundReason, RefundRequest, RefundStatus, Subscription,
    SubscriptionStatus, UpdateCustomerRequest,
};
pub use crate::webhook::{WebhookEvent, WebhookEventType, WebhookHeaders};
