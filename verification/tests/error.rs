//! Errors: what is retried, what is shown, and what a transport failure comes to.
use armature_payments::gateway::{classify_status, retry_after_secs, TransportFailure};
use armature_payments::redact::sanitize_body;
use armature_payments::{DeclineCode, PaymentError};

fn failure(status: Option<u16>, reason: &str) -> TransportFailure {
    TransportFailure { unreadable: false, unbuildable: false, status, reason: reason.to_string() }
}

#[test]
fn rate_limited_reports_server_requested_delay() {
    assert_eq!(PaymentError::RateLimited(7).retry_after(), Some(7));
}

#[test]
fn non_throttling_errors_have_no_server_delay() {
    assert_eq!(PaymentError::Network("boom".into()).retry_after(), None);
    assert_eq!(PaymentError::CardExpired.retry_after(), None);
}

#[test]
fn unsupported_is_not_retryable() {
    let e = PaymentError::unsupported("braintree", "resume_subscription");
    assert!(!e.is_retryable());
    assert!(e.to_string().contains("braintree"));
    assert!(e.to_string().contains("resume_subscription"));
}

#[test]
fn serialization_failures_are_not_retryable() {
    let reason = serde_json::from_str::<i32>("not json").unwrap_err().to_string();
    let err = PaymentError::from_transport(TransportFailure {
        unreadable: true,
        unbuildable: false,
        status: None,
        reason,
    });
    assert!(matches!(err, PaymentError::Serialization(_)));
    assert!(!err.is_retryable());
}

#[test]
fn a_status_carrying_transport_error_is_classified_by_status() {
    let shown = "HTTP status client error (400 Bad Request) for url (http://no.url.provided.local/)";
    let err = PaymentError::from_transport(failure(Some(400), shown));
    assert!(matches!(err, PaymentError::Provider { status: Some(400), .. }), "got {err:?}");
    assert!(!err.is_retryable(), "a 400 must never be replayed");
    assert!(!err.to_string().contains("for url"), "got {err:?}");

    let err = PaymentError::from_transport(failure(Some(401), "nope"));
    assert!(matches!(err, PaymentError::Authentication(_)), "got {err:?}");
    assert!(!err.is_retryable());

    let err = PaymentError::from_transport(failure(Some(429), "slow down"));
    assert!(matches!(err, PaymentError::RateLimited(_)), "got {err:?}");
    assert!(err.is_retryable(), "throttling is the one retryable status");
}

#[test]
fn a_failure_to_connect_is_retryable_and_an_unbuildable_request_is_not() {
    let err = PaymentError::from_transport(failure(None, "connection refused"));
    assert!(matches!(&err, PaymentError::Network(s) if s == "connection refused"), "got {err:?}");
    assert!(err.is_retryable());

    let mut broken = failure(None, "bad header");
    broken.unbuildable = true;
    let err = PaymentError::from_transport(broken);
    assert!(matches!(&err, PaymentError::Config(s) if s == "bad header"), "got {err:?}");
    assert!(!err.is_retryable());
}

#[test]
fn network_and_rate_limit_stay_retryable() {
    assert!(PaymentError::Network("timeout".into()).is_retryable());
    assert!(PaymentError::RateLimited(1).is_retryable());
}

#[test]
fn gateway_5xx_and_408_are_retryable() {
    for status in [500u16, 502, 503, 504, 408] {
        let e = PaymentError::provider(Some(status), "bad gateway");
        assert!(e.is_retryable(), "HTTP {status} should be retryable");
    }
}

#[test]
fn gateway_4xx_and_statusless_provider_errors_are_not_retryable() {
    for status in [400u16, 402, 404, 422] {
        let e = PaymentError::provider(Some(status), "nope");
        assert!(!e.is_retryable(), "HTTP {status} must not be replayed");
    }
    assert!(!PaymentError::provider(None, "mystery").is_retryable());
}

#[test]
fn provider_display_carries_the_status() {
    assert_eq!(
        PaymentError::provider(Some(502), "bad gateway").to_string(),
        "Provider error (502): bad gateway"
    );
    assert_eq!(PaymentError::provider(None, "bad gateway").to_string(), "Provider error: bad gateway");
}

#[test]
fn every_error_has_its_own_words() {
    let cases = [
        (PaymentError::CardDeclined("no".into()), "Card declined: no"),
        (PaymentError::CardExpired, "Card expired"),
        (PaymentError::InsufficientFunds, "Insufficient funds"),
        (PaymentError::CustomerNotFound("cus_1".into()), "Customer not found: cus_1"),
        (PaymentError::RateLimited(30), "Rate limited, retry after 30 seconds"),
        (PaymentError::Network("down".into()), "Network error: down"),
        (PaymentError::Authentication("key".into()), "Authentication error: key"),
        (PaymentError::Validation("bad".into()), "Validation error: bad"),
        (PaymentError::Config("unset".into()), "Configuration error: unset"),
        (PaymentError::Serialization("json".into()), "Serialization error: json"),
        (PaymentError::Unsupported("gap".into()), "Unsupported operation: gap"),
    ];
    for (error, shown) in cases {
        assert_eq!(error.to_string(), shown);
    }
}

#[test]
fn decline_codes_are_read_in_any_case() {
    assert_eq!(DeclineCode::from_str("insufficient_funds"), DeclineCode::InsufficientFunds);
    assert_eq!(DeclineCode::from_str("DO_NOT_HONOR"), DeclineCode::GenericDecline);
    assert_eq!(DeclineCode::from_str("Lost_Card"), DeclineCode::LostCard);
    assert_eq!(DeclineCode::from_str("something else"), DeclineCode::Unknown);
    assert_eq!(DeclineCode::ExpiredCard.message(), "Your card has expired.");
}

#[test]
fn a_status_decides_the_error() {
    assert!(matches!(
        classify_status("paypal", 403, "no", None),
        PaymentError::Authentication(m) if m == "paypal returned HTTP 403: no"
    ));
    assert!(matches!(classify_status("paypal", 429, "", Some(9)), PaymentError::RateLimited(9)));
    assert!(matches!(classify_status("paypal", 429, "", None), PaymentError::RateLimited(1)));
    assert!(matches!(
        classify_status("braintree", 503, "busy", Some(9)),
        PaymentError::Provider { status: Some(503), message } if message == "braintree returned HTTP 503: busy"
    ));
}

#[test]
fn retry_after_is_a_number_of_seconds() {
    assert_eq!(retry_after_secs(Some("120")), Some(120));
    assert_eq!(retry_after_secs(Some(" 5 ")), Some(5));
    assert_eq!(retry_after_secs(Some("4294967296")), None);
    assert_eq!(retry_after_secs(Some("Wed, 21 Oct 2026 07:28:00 GMT")), None);
    assert_eq!(retry_after_secs(None), None);
}

#[test]
fn what_is_shown_of_a_body_is_short_and_has_no_card_number() {
    let shown = sanitize_body("card 4242 4242 4242 4242 declined");
    assert!(!shown.contains("4242 4242"), "got {shown}");
    assert!(shown.contains("[redacted]"), "got {shown}");
    assert!(!sanitize_body("4242424242424242").contains("4242424242424242"));
    let long = "x".repeat(10_000);
    assert!(sanitize_body(&long).chars().count() < 600);
    assert_eq!(sanitize_body("plain text"), "plain text");
}

#[test]
fn secrets_and_credentials_are_replaced_exactly() {
    assert_eq!(sanitize_body("key sk_live_4eC39 ok"), "key [redacted] ok");
    assert_eq!(sanitize_body("rk_a pk_b whsec_c eyJd.e.f"), "[redacted] [redacted] [redacted] [redacted]");
    assert_eq!(sanitize_body("task_1 risk_2"), "task_1 risk_2");
    assert_eq!(sanitize_body("Authorization: Bearer abc.def/ghi=\","), "Authorization: Bearer [redacted]\",");
    assert_eq!(sanitize_body("authorization: basic dXNlcjpwYXNz"), "authorization: basic [redacted]");
    assert_eq!(sanitize_body("4242-4242-4242-4242;"), "[redacted];");
    assert_eq!(sanitize_body("order 123456789012"), "order 123456789012");
    assert_eq!(sanitize_body(&"x".repeat(600)), "x".repeat(512));
}
