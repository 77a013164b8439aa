//! A base URL must not carry credentials in the clear.
use armature_payments::providers::{BraintreeProvider, PayPalProvider, StripeProvider};
use armature_payments::PaymentError;

const INSECURE: &[&str] = &[
    "http://evil.example",
    "http://evil.example/v1",
    "http://api.stripe.com",
    "http://10.0.0.5:8080",
];

const WRONG_SCHEME: &[&str] = &["ftp://example.com", "file:///etc/passwd", "not a url"];

const SECURE: &[&str] = &[
    "https://api.example.com",
    "https://api.example.com/v1",
    "http://127.0.0.1:8080",
    "http://localhost:3000",
    "http://[::1]:9999",
];

fn assert_validates(name: &str, build: impl Fn(&str) -> Result<(), PaymentError>) {
    for &url in INSECURE {
        match build(url) {
            Err(PaymentError::Config(_)) => {}
            Err(other) => panic!("{name}: {url} must be rejected as Config, got {other:?}"),
            Ok(()) => panic!("{name}: {url} was accepted"),
        }
    }
    for &url in WRONG_SCHEME {
        assert!(
            matches!(build(url), Err(PaymentError::Config(_))),
            "{name}: {url} must be rejected as Config"
        );
    }
    for &url in SECURE {
        assert!(build(url).is_ok(), "{name}: {url} must be accepted");
    }
}

#[test]
fn stripe_rejects_a_cleartext_base_url() {
    assert_validates("stripe", |url| {
        StripeProvider::new("sk_live_secret").expect("builds").with_base_url(url).map(|_| ())
    });
}

#[test]
fn paypal_rejects_a_cleartext_base_url() {
    assert_validates("paypal", |url| {
        PayPalProvider::new("client-id", "client-secret").expect("builds").with_base_url(url).map(|_| ())
    });
}

#[test]
fn braintree_rejects_a_cleartext_base_url() {
    assert_validates("braintree", |url| {
        BraintreeProvider::new("merchant-1", "pub_key", "priv_key").expect("builds").with_base_url(url).map(|_| ())
    });
}

fn stripe() -> StripeProvider {
    StripeProvider::new("sk_test_123").expect("builds")
}

#[test]
fn stripe_with_base_url_rejects_cleartext_http() {
    assert!(stripe().with_base_url("http://evil.example.com").is_err());
    assert!(stripe().with_base_url("ftp://example.com").is_err());
    assert!(stripe().with_base_url("not a url").is_err());
}

#[test]
fn stripe_with_base_url_accepts_https_and_loopback() {
    assert!(stripe().with_base_url("https://api.stripe.com/v1").is_ok());
    assert!(stripe().with_base_url("http://127.0.0.1:8080").is_ok());
    assert!(stripe().with_base_url("http://localhost:8080").is_ok());
}

#[test]
fn with_base_url_accepts_a_trailing_slash() {
    let p = stripe().with_base_url("http://localhost:8080/").unwrap();
    assert_eq!(p.base_url(), "http://localhost:8080");
    assert_eq!(stripe().base_url(), "https://api.stripe.com/v1");
    assert_eq!(p.api_key(), "sk_test_123");
}

fn paypal() -> PayPalProvider {
    PayPalProvider::new("client_id", "client_secret").expect("builds")
}

#[test]
fn paypal_with_base_url_rejects_cleartext_http() {
    assert!(paypal().with_base_url("http://evil.example.com").is_err());
    assert!(paypal().with_base_url("ftp://example.com").is_err());
    assert!(paypal().with_base_url("not a url").is_err());
}

#[test]
fn paypal_with_base_url_accepts_https_and_loopback() {
    assert!(paypal().with_base_url("https://api-m.paypal.com").is_ok());
    assert!(paypal().with_base_url("http://127.0.0.1:8080").is_ok());
    assert!(paypal().with_base_url("http://localhost:8080").is_ok());
}

#[test]
fn with_base_url_strips_trailing_slash() {
    let p = paypal().with_base_url("http://localhost:8080/").unwrap();
    assert_eq!(p.base_url(), "http://localhost:8080");
    assert_eq!(paypal().base_url(), "https://api-m.sandbox.paypal.com");
    assert_eq!(paypal().production().base_url(), "https://api-m.paypal.com");
}

fn braintree() -> BraintreeProvider {
    BraintreeProvider::new("merchant123", "pubkey", "privkey").expect("builds")
}

#[test]
fn braintree_with_base_url_rejects_cleartext_http() {
    assert!(braintree().with_base_url("http://gateway.example.com").is_err());
    assert!(braintree().with_base_url("ftp://example.com").is_err());
    assert!(braintree().with_base_url("not a url").is_err());
}

#[test]
fn braintree_with_base_url_accepts_https_and_loopback() {
    assert!(braintree().with_base_url("https://example.com").is_ok());
    assert!(braintree().with_base_url("http://127.0.0.1:8080").is_ok());
    assert!(braintree().with_base_url("http://localhost:8080").is_ok());
}

#[test]
fn with_base_url_preserves_merchant_path_without_double_slash() {
    let p = braintree().with_base_url("http://localhost:8080/").unwrap();
    assert_eq!(p.base_url(), "http://localhost:8080/merchants/merchant123");
}

#[test]
fn production_keeps_the_merchant_id() {
    let p = braintree().production();
    assert_eq!(p.base_url(), "https://api.braintreegateway.com/merchants/merchant123");
}
