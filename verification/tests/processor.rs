//! The retry policy.
use armature_payments::json::Json;
use armature_payments::processor::jitter;
use armature_payments::providers::{BraintreeProvider, PayPalProvider, StripeProvider};
use armature_payments::{
    ChargeRequest, Money, PaymentError, PaymentProcessor, PaymentProvider, PaymentSource, ProcessorConfig,
    ProviderProfile, RefundRequest, Timestamp, WebhookAction, WebhookData, WebhookEvent, WebhookEventType,
    WebhookHeaders, WebhookStage, MAX_SERVER_RETRY_AFTER_MS,
};

fn deduplicating() -> StripeProvider {
    StripeProvider::new("sk_test").unwrap()
}

fn not_deduplicating() -> BraintreeProvider {
    BraintreeProvider::new("merchant-1", "pub_key", "priv_key").unwrap()
}

fn fast_config() -> ProcessorConfig {
    ProcessorConfig { retry_delay_ms: 0, log_transactions: false, ..Default::default() }
}

/// Sends a request until it succeeds or is given up, and counts the attempts.
fn attempts<P: PaymentProvider>(
    processor: &PaymentProcessor<P>,
    key: &Option<String>,
    answer: impl Fn(u32) -> Result<(), PaymentError>,
) -> u32 {
    let safe = processor.retry_is_safe(key.is_some());
    let mut attempt = 1;
    loop {
        match answer(attempt) {
            Ok(()) => return attempt,
            Err(e) => match processor.after_failure(&e, attempt, safe) {
                Some(_) => attempt += 1,
                None => return attempt,
            },
        }
    }
}

fn timeout(_attempt: u32) -> Result<(), PaymentError> {
    Err(PaymentError::Network("timeout".into()))
}

fn charge() -> ChargeRequest {
    ChargeRequest::new(Money::usd(2999), PaymentSource::card("tok"))
}

#[test]
fn test_processor_config_default() {
    let config = ProcessorConfig::default();
    assert!(config.retry_failed);
    assert_eq!(config.max_retries, 3);
    assert_eq!(config.max_retry_delay_ms, 30_000);
}

#[test]
fn config_is_readable() {
    let config = ProcessorConfig { max_retries: 7, ..fast_config() };
    let processor = PaymentProcessor::with_config(deduplicating(), config);
    assert_eq!(processor.config().max_retries, 7);
    assert_eq!(processor.provider().name(), "stripe");
}

#[test]
fn charge_is_attempted_once_when_provider_lacks_idempotency() {
    let processor = PaymentProcessor::with_config(not_deduplicating(), fast_config());
    let request = processor.prepare_charge(charge());
    assert!(request.idempotency_key.is_some());
    assert_eq!(attempts(&processor, &request.idempotency_key, timeout), 1);
}

#[test]
fn charge_retries_when_provider_supports_idempotency() {
    let processor = PaymentProcessor::with_config(deduplicating(), fast_config());
    let request = processor.prepare_charge(charge());
    assert_eq!(attempts(&processor, &request.idempotency_key, timeout), 4);
}

#[test]
fn charge_is_attempted_once_when_idempotency_key_is_absent() {
    let config = ProcessorConfig { use_idempotency: false, ..fast_config() };
    let processor = PaymentProcessor::with_config(deduplicating(), config);
    let request = processor.prepare_charge(charge());
    assert_eq!(request.idempotency_key, None);
    assert_eq!(attempts(&processor, &request.idempotency_key, timeout), 1);
}

#[test]
fn refund_is_attempted_once_when_provider_lacks_idempotency() {
    let processor = PaymentProcessor::with_config(not_deduplicating(), fast_config());
    let request = processor.prepare_refund(RefundRequest::new("ch_1"));
    assert_eq!(attempts(&processor, &request.idempotency_key, timeout), 1);
}

#[test]
fn refund_retries_when_provider_supports_idempotency() {
    let processor = PaymentProcessor::with_config(deduplicating(), fast_config());
    let request = processor.prepare_refund(RefundRequest::new("ch_1"));
    assert_eq!(attempts(&processor, &request.idempotency_key, timeout), 4);
}

#[test]
fn a_generated_key_is_new_each_time_and_a_given_one_is_kept() {
    let processor = PaymentProcessor::new(deduplicating());
    let first = processor.prepare_refund(RefundRequest::new("ch_1")).idempotency_key.unwrap();
    let second = processor.prepare_refund(RefundRequest::new("ch_1")).idempotency_key.unwrap();
    assert_eq!(first.len(), 36);
    assert_ne!(first, second);

    let own = processor.prepare_refund(RefundRequest::new("ch_1").idempotency_key("refund-42"));
    assert_eq!(own.idempotency_key.as_deref(), Some("refund-42"));
    assert_eq!(own.charge_id, "ch_1");

    let mut request = charge();
    request.idempotency_key = Some("mine".into());
    assert_eq!(processor.prepare_charge(request).idempotency_key.as_deref(), Some("mine"));
}

#[test]
fn a_declined_card_is_never_tried_again() {
    let processor = PaymentProcessor::with_config(deduplicating(), fast_config());
    let key = Some("k".to_string());
    assert_eq!(attempts(&processor, &key, |_| Err(PaymentError::InsufficientFunds)), 1);
    assert_eq!(attempts(&processor, &key, |_| Err(PaymentError::Serialization("x".into()))), 1);
    let recovers = |n| if n < 3 { timeout(n) } else { Ok(()) };
    assert_eq!(attempts(&processor, &key, recovers), 3);
}

#[test]
fn retries_can_be_switched_off() {
    let config = ProcessorConfig { retry_failed: false, ..fast_config() };
    let processor = PaymentProcessor::with_config(deduplicating(), config);
    assert_eq!(attempts(&processor, &Some("k".into()), timeout), 1);
    assert!(!processor.retry_is_safe(true));
}

#[test]
fn providers_say_whether_they_deduplicate() {
    assert!(deduplicating().supports_idempotency());
    assert!(!not_deduplicating().supports_idempotency());
    let paypal = PayPalProvider::new("client", "secret").unwrap();
    assert!(paypal.supports_idempotency());
    assert_eq!(paypal.name(), "paypal");
    assert_eq!(not_deduplicating().name(), "braintree");
}

#[test]
fn the_number_of_attempts_saturates() {
    let config = ProcessorConfig { max_retries: u32::MAX, ..fast_config() };
    let processor = PaymentProcessor::with_config(deduplicating(), config);
    assert_eq!(processor.max_attempts(true), u32::MAX);
    assert_eq!(processor.max_attempts(false), 1);
}

#[test]
fn a_zero_retry_delay_cap_does_not_erase_the_backoff() {
    let processor = PaymentProcessor::with_config(
        deduplicating(),
        ProcessorConfig { retry_delay_ms: 1000, max_retry_delay_ms: 0, ..Default::default() },
    );
    let scheduled = processor.retry_delay(&PaymentError::Network("x".into()), 1);
    assert!(scheduled != 0, "backoff erased by a zero cap");

    let server = processor.retry_delay(&PaymentError::RateLimited(5), 1);
    assert!(server != 0, "a 429 was retried with no pause at all");
}

#[test]
fn backoff_grows_exponentially_and_is_capped() {
    let processor = PaymentProcessor::with_config(
        deduplicating(),
        ProcessorConfig { retry_delay_ms: 1000, max_retry_delay_ms: 5000, ..Default::default() },
    );
    let err = PaymentError::Network("x".into());

    let d1 = processor.retry_delay(&err, 1);
    let d2 = processor.retry_delay(&err, 2);
    let d3 = processor.retry_delay(&err, 3);

    assert!((800..=1200).contains(&d1), "d1 = {d1}");
    assert!((1600..=2400).contains(&d2), "d2 = {d2}");
    assert!((3200..=4800).contains(&d3), "d3 = {d3}");

    for attempt in [10u32, 40, 64, 100, u32::MAX] {
        let d = processor.retry_delay(&err, attempt);
        assert!(d <= 5000, "attempt {attempt} gave {d}");
    }
}

#[test]
fn backoff_honors_server_retry_after() {
    let processor = PaymentProcessor::with_config(
        deduplicating(),
        ProcessorConfig { retry_delay_ms: 1000, max_retry_delay_ms: 30_000, ..Default::default() },
    );
    assert_eq!(processor.retry_delay(&PaymentError::RateLimited(12), 1), 12_000);
}

#[test]
fn server_retry_after_is_not_clipped_to_the_local_cap() {
    let processor = PaymentProcessor::with_config(
        deduplicating(),
        ProcessorConfig { max_retry_delay_ms: 5_000, ..Default::default() },
    );
    assert_eq!(processor.retry_delay(&PaymentError::RateLimited(300), 1), 300_000);
}

#[test]
fn an_absurd_server_retry_after_is_bounded_by_one_hour() {
    let processor = PaymentProcessor::with_config(deduplicating(), fast_config());
    let d = processor.retry_delay(&PaymentError::RateLimited(999_999_999), 1);
    assert_eq!(d, MAX_SERVER_RETRY_AFTER_MS);
    assert_eq!(processor.retry_delay(&PaymentError::RateLimited(3600), 1), 3_600_000);
}

#[test]
fn the_local_schedule_is_still_bounded_by_max_retry_delay() {
    let processor = PaymentProcessor::with_config(
        deduplicating(),
        ProcessorConfig { retry_delay_ms: 1_000, max_retry_delay_ms: 5_000, ..Default::default() },
    );
    let err = PaymentError::Network("x".into());
    for attempt in [5u32, 10, 64] {
        assert!(processor.retry_delay(&err, attempt) <= 5_000);
    }
}

#[test]
fn zero_base_delay_means_no_sleep() {
    let processor = PaymentProcessor::with_config(
        deduplicating(),
        ProcessorConfig { retry_delay_ms: 0, ..Default::default() },
    );
    assert_eq!(processor.retry_delay(&PaymentError::Network("x".into()), 3), 0);
}

#[test]
fn jitter_stays_within_twenty_percent() {
    for _ in 0..200 {
        let d = PaymentProcessor::<StripeProvider>::apply_jitter(1000);
        assert!((800..=1200).contains(&d), "jittered to {d}");
    }
}

#[test]
fn jitter_saturates_rather_than_overflowing() {
    assert!(PaymentProcessor::<StripeProvider>::apply_jitter(u64::MAX) > 0);
    assert_eq!(PaymentProcessor::<StripeProvider>::apply_jitter(0), 0);
}

#[test]
fn jitter_is_exact_for_given_entropy() {
    assert_eq!(jitter(1000, 0), 800);
    assert_eq!(jitter(1000, 400), 1200);
    assert_eq!(jitter(1000, 401), 800);
    assert_eq!(jitter(4, 999), 4);
    let processor = PaymentProcessor::with_config(
        deduplicating(),
        ProcessorConfig { retry_delay_ms: 1000, max_retry_delay_ms: 5000, ..Default::default() },
    );
    let err = PaymentError::Network("x".into());
    assert_eq!(processor.retry_delay_with(&err, 3, 800), 4000);
    assert_eq!(processor.retry_delay_with(&err, 4, 0), 5000);
}

#[test]
fn a_provider_can_be_given_by_its_profile() {
    for deduplicates in [true, false] {
        let profile = ProviderProfile { name: "fake", deduplicates };
        assert_eq!(profile.name(), "fake");
        let processor = PaymentProcessor::with_config(profile, fast_config());
        let key = Some("key-1".to_string());
        assert_eq!(attempts(&processor, &key, timeout), if deduplicates { 4 } else { 1 });
    }
}

#[test]
fn a_generated_key_is_a_whole_key() {
    let processor = PaymentProcessor::with_config(deduplicating(), fast_config());
    assert_eq!(processor.prepare_charge(charge()).idempotency_key.unwrap().len(), 36);
    assert_eq!(processor.prepare_refund(RefundRequest::new("ch_1")).idempotency_key.unwrap().len(), 36);
    assert!(processor.lacks_key(&None));
    assert!(!processor.lacks_key(&Some("mine".to_string())));
    assert_eq!(processor.key_for(None, "fresh".to_string()).as_deref(), Some("fresh"));
    let keyless = ProcessorConfig { use_idempotency: false, ..fast_config() };
    assert!(!PaymentProcessor::with_config(deduplicating(), keyless).lacks_key(&None));
}

/// Takes a webhook from stage to stage, and lists what is done on the way.
fn run_webhook(
    verdict: Result<(), PaymentError>,
    parsed: Result<WebhookEvent, PaymentError>,
) -> (Vec<&'static str>, Result<WebhookEvent, PaymentError>) {
    let processor = PaymentProcessor::with_config(deduplicating(), fast_config());
    let headers = WebhookHeaders::single("Stripe-Signature", "t=1");
    let webhook = processor.handle_webhook(b"body", &headers);
    let (mut verdict, mut parsed) = (Some(verdict), Some(parsed));
    let mut done = Vec::new();
    let mut stage = WebhookStage::Received;
    loop {
        stage = match webhook.next(stage) {
            WebhookAction::Verify(payload, headers) => {
                assert_eq!(payload, b"body");
                assert_eq!(headers.get("stripe-signature"), Some("t=1"));
                done.push("verify");
                WebhookStage::Checked(verdict.take().unwrap())
            }
            WebhookAction::Parse(payload) => {
                assert_eq!(payload, b"body");
                done.push("parse");
                WebhookStage::Read(parsed.take().unwrap())
            }
            WebhookAction::Return(result) => return (done, result),
        };
    }
}

fn event() -> WebhookEvent {
    WebhookEvent {
        id: "evt_1".to_string(),
        event_type: WebhookEventType::ChargeSucceeded,
        created_at: Timestamp { secs: 1, nanos: 0 },
        data: WebhookData::Generic(Json::Null),
        provider: "fake".to_string(),
        livemode: false,
    }
}

#[test]
fn a_webhook_is_read_only_once_it_is_verified() {
    let (done, result) = run_webhook(Ok(()), Ok(event()));
    assert_eq!(done, ["verify", "parse"]);
    assert_eq!(result.unwrap().id, "evt_1");

    let (done, result) = run_webhook(Err(PaymentError::InvalidWebhookSignature), Ok(event()));
    assert_eq!(done, ["verify"]);
    assert!(matches!(result, Err(PaymentError::InvalidWebhookSignature)));

    let (done, result) = run_webhook(Ok(()), Err(PaymentError::Serialization("x".into())));
    assert_eq!(done, ["verify", "parse"]);
    assert!(matches!(result, Err(PaymentError::Serialization(_))));
}
