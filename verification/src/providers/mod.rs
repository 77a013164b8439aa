//! Payment provider implementations
pub mod braintree;
pub mod braintree_vault;
pub mod common;
pub mod notification;
pub mod paypal;
pub mod paypal_billing;
pub mod paypal_webhook;
pub mod stripe;
pub mod stripe_vault;
pub mod stripe_webhook;

pub use self::braintree::{BraintreeProvider, BRAINTREE_SIGNATURE_HEADER};
pub use self::paypal::PayPalProvider;
pub use self::paypal_webhook::{
    PAYPAL_AUTH_ALGO_HEADER, PAYPAL_CERT_URL_HEADER, PAYPAL_TRANSMISSION_ID_HEADER,
    PAYPAL_TRANSMISSION_SIG_HEADER, PAYPAL_TRANSMISSION_TIME_HEADER,
};
pub use self::stripe::StripeProvider;
pub use self::stripe_webhook::STRIPE_SIGNATURE_HEADER;
