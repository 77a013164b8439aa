//! Stripe: requests, replies, errors and webhooks.
use armature_payments::clock::timestamp_or_now;
use armature_payments::gateway::{Body, GatewayReply, GatewayRequest, Method};
use armature_payments::json::{Json, Number};
use armature_payments::providers::stripe::{
    stripe_error, StripeCharge, StripeErrorDetail, StripeErrorDetailPublic, StripePaymentIntent, StripeRefund,
    StripeReply, STRIPE_SIGNATURE_HEADER,
};
use armature_payments::providers::stripe_vault::{
    StripeCard, StripeCustomer, StripeMethodPage, StripePaymentMethod, StripeSubscription, StripeSubscriptionItem,
    WalkStep, MAX_LIST_PAGES,
};
use armature_payments::providers::stripe_webhook::{
    StripeWebhookEvent, MAX_SIGNATURE_HEADER_LEN, MAX_V1_CANDIDATES,
};
use armature_payments::providers::StripeProvider;
use armature_payments::{
    CardDetails, CardFunding, ChargeRequest, ChargeStatus, CreateCustomerRequest, CreatePaymentMethodRequest,
    CreateSubscriptionRequest, Currency, Money, PaymentError, PaymentProvider, PaymentSource, RefundReason,
    RefundRequest, RefundStatus, StringMap, SubscriptionStatus, Timestamp, UpdateCustomerRequest, WebhookData,
    WebhookEventType, WebhookHeaders,
};
use hmac::{Hmac, KeyInit, Mac};
use serde_json::Value;
use sha2::Sha256;

fn provider() -> StripeProvider {
    StripeProvider::new("sk_test_123").expect("builds")
}

fn opt(value: &Value, name: &str) -> Option<String> {
    value.get(name).and_then(|v| v.as_str()).map(|s| s.to_string())
}

/// The error that a body describes, where it has the shape of one.
fn detail(body: &str) -> Option<StripeErrorDetail> {
    let value: Value = serde_json::from_str(body).ok()?;
    let error = value.get("error")?;
    Some(StripeErrorDetail {
        message: opt(error, "message").unwrap_or_default(),
        error_type: opt(error, "type"),
        code: opt(error, "code"),
        decline_code: opt(error, "decline_code"),
    })
}

fn reply(status: u16, body: &str, retry_after: Option<u32>) -> StripeReply {
    StripeReply {
        reply: GatewayReply { status, retry_after, body: body.to_string() },
        error: detail(body),
    }
}

fn failed(status: u16, body: &str, retry_after: Option<u32>) -> PaymentError {
    stripe_error(&reply(status, body, retry_after))
}

fn json(value: &Value) -> Json {
    match value {
        Value::Null => Json::Null,
        Value::Bool(b) => Json::Bool(*b),
        Value::Number(n) => Json::Number(match (n.as_u64(), n.as_i64()) {
            (Some(n), _) => Number::PosInt(n),
            (_, Some(n)) => Number::NegInt(n),
            _ => Number::Float(n.to_string()),
        }),
        Value::String(s) => Json::Text(s.clone()),
        Value::Array(items) => Json::Array(items.iter().map(json).collect()),
        Value::Object(members) => Json::Object(members.iter().map(|(k, v)| (k.clone(), json(v))).collect()),
    }
}

fn event(payload: &[u8]) -> Result<StripeWebhookEvent, String> {
    let value: Value = serde_json::from_slice(payload).map_err(|e| e.to_string())?;
    Ok(StripeWebhookEvent {
        id: opt(&value, "id").ok_or("missing field `id`")?,
        event_type: opt(&value, "type").ok_or("missing field `type`")?,
        created: value["created"].as_i64().ok_or("missing field `created`")?,
        livemode: value["livemode"].as_bool().ok_or("missing field `livemode`")?,
        object: json(&value["data"]["object"]),
    })
}

fn form(request: &GatewayRequest, name: &str) -> Option<String> {
    match &request.body {
        Body::Form(form) => form.get(name).cloned(),
        other => panic!("expected a form, got {other:?}"),
    }
}

fn charge_json() -> StripeCharge {
    StripeCharge {
        id: "ch_1".into(),
        amount: 2999,
        currency: "usd".into(),
        status: "succeeded".into(),
        customer: None,
        payment_method: None,
        description: None,
        receipt_url: None,
        failure_message: None,
        captured: true,
        refunded: false,
        disputed: false,
        created: 1_750_000_000,
        metadata: StringMap::new(),
        amount_refunded: None,
    }
}

fn method(id: &str, created: i64) -> StripePaymentMethod {
    StripePaymentMethod { id: id.into(), customer: Some("cus_1".into()), card: None, created }
}

#[test]
fn stripe_advertises_idempotency_support() {
    assert!(provider().supports_idempotency());
}

#[test]
fn rate_limit_uses_the_retry_after_header() {
    let body = r#"{"error":{"type":"rate_limit_error","message":"slow down"}}"#;
    let err = failed(429, body, Some(30));
    assert!(matches!(err, PaymentError::RateLimited(30)), "got {err:?}");
}

#[test]
fn rate_limit_falls_back_to_one_second_without_the_header() {
    let body = r#"{"error":{"type":"rate_limit_error","message":"slow down"}}"#;
    let err = failed(429, body, None);
    assert!(matches!(err, PaymentError::RateLimited(1)), "got {err:?}");
}

#[test]
fn bare_429_without_an_error_envelope_still_uses_retry_after() {
    let err = failed(429, "<html/>", Some(12));
    assert!(matches!(err, PaymentError::RateLimited(12)), "got {err:?}");
}

#[test]
fn unparseable_error_bodies_are_sanitized() {
    let body = r#"{"customer":"alice@example.com","card":"4242424242424242"}"#;
    let err = failed(500, body, None);
    let text = err.to_string();
    assert!(!text.contains("4242424242424242"), "leaked PAN: {text}");
    assert!(text.contains("[redacted]"), "got {text}");
}

#[test]
fn auth_failures_are_sanitized_too() {
    let body = r#"{"token":"4111111111111111"}"#;
    let err = failed(401, body, None);
    assert!(matches!(err, PaymentError::Authentication(_)), "got {err:?}");
    assert!(!err.to_string().contains("4111111111111111"));
}

#[test]
fn parsed_envelope_messages_are_sanitized_too() {
    let body = r#"{"error":{"type":"invalid_request_error",
        "message":"Invalid API key provided: sk_live_abcdefghijklmnop"}}"#;
    let err = failed(400, body, None);
    let text = err.to_string();
    assert!(!text.contains("sk_live_abcdefghijklmnop"), "key leaked: {text}");
    assert!(text.contains("[redacted]"), "got {text}");

    let declined = r#"{"error":{"type":"card_error",
        "message":"Your card 4242424242424242 was declined"}}"#;
    let err = failed(402, declined, None);
    assert!(matches!(err, PaymentError::CardDeclined(_)), "got {err:?}");
    assert!(!err.to_string().contains("4242424242424242"), "PAN leaked");

    let auth = r#"{"error":{"type":"authentication_error",
        "message":"key sk_live_abcdefghijklmnop is invalid"}}"#;
    let err = failed(401, auth, None);
    assert!(!err.to_string().contains("sk_live_abcdefghijklmnop"));
}

#[test]
fn a_forbidden_response_is_an_authentication_error() {
    let body = r#"{"error":{"type":"invalid_request_error","message":"no access"}}"#;
    let err = failed(403, body, None);
    assert!(matches!(err, PaymentError::Authentication(_)), "got {err:?}");
    assert!(!err.is_retryable());

    let err = failed(403, "<html/>", None);
    assert!(matches!(err, PaymentError::Authentication(_)), "got {err:?}");
}

#[test]
fn typed_stripe_errors_are_still_classified() {
    let expired =
        r#"{"error":{"type":"card_error","decline_code":"expired_card","message":"expired"}}"#;
    assert!(matches!(failed(402, expired, None), PaymentError::CardExpired));

    let funds =
        r#"{"error":{"type":"card_error","decline_code":"insufficient_funds","message":"no"}}"#;
    assert!(matches!(failed(402, funds, None), PaymentError::InsufficientFunds));

    let auth = r#"{"error":{"type":"authentication_error","message":"bad key"}}"#;
    assert!(matches!(failed(401, auth, None), PaymentError::Authentication(_)));
}

#[test]
fn error_statuses_map_to_typed_errors() {
    let code = r#"{"error":{"type":"card_error","code":"expired_card","message":"Card expired"}}"#;
    assert!(matches!(failed(402, code, None), PaymentError::CardExpired));
    assert!(matches!(
        failed(500, "not json at all", None),
        PaymentError::Provider { status: Some(500), message } if message.contains("500")
    ));
    let missing = r#"{"error":{"type":"invalid_request_error","message":"No such customer"}}"#;
    assert!(matches!(
        failed(404, missing, None),
        PaymentError::Provider { status: Some(404), message } if message == "No such customer"
    ));
}

#[test]
fn non_2xx_surfaces_the_real_provider_error_not_serialization() {
    let body = r#"{"error":{"type":"card_error","code":"card_declined","decline_code":"generic_decline","message":"Your card was declined."}}"#;
    let p = provider();
    let broken = || "expected value".to_string();
    let errors = vec![
        p.refund_result("ch_1", &reply(402, body, None), Err(broken())).unwrap_err(),
        p.capture_result("ch_1", &reply(402, body, None), Err(broken())).unwrap_err(),
        p.create_customer_result(&reply(402, body, None), Err(broken())).unwrap_err(),
        p.customer_result("cus_1", &reply(402, body, None), Err(broken())).unwrap_err(),
        p.create_payment_method_result(&reply(402, body, None), Err(broken())).unwrap_err(),
        p.payment_method_result("pm_1", &reply(402, body, None), Err(broken())).unwrap_err(),
        p.subscription_result(&reply(402, body, None), Err(broken())).unwrap_err(),
        p.get_subscription_result("sub_1", &reply(402, body, None), Err(broken())).unwrap_err(),
    ];
    for err in errors {
        assert!(
            matches!(err, PaymentError::CardDeclined(ref m) if m.contains("declined")),
            "got {err:?}"
        );
    }
    let walk = p.list_payment_methods("cus_1");
    assert!(p.list_payment_methods_step(walk, &reply(402, body, None), Err(broken())).is_err());
}

#[test]
fn an_unreadable_success_is_a_serialization_error_with_a_redacted_body() {
    let r = reply(200, r#"{"card":"4242424242424242"}"#, None);
    let err = provider().charge_result(&r, Err("missing field `id`".into())).unwrap_err();
    let text = err.to_string();
    assert!(matches!(err, PaymentError::Serialization(_)), "got {err:?}");
    assert!(!err.is_retryable());
    assert!(text.contains("missing field `id` (body: "), "got {text}");
    assert!(!text.contains("4242424242424242"), "got {text}");
}

#[test]
fn delete_customer_checks_the_response_status() {
    let p = provider();
    let missing = r#"{"error":{"type":"invalid_request_error","message":"No such customer"}}"#;
    let err = p.delete_customer_result("cus_missing", &reply(404, missing, None)).unwrap_err();
    assert!(matches!(err, PaymentError::CustomerNotFound(id) if id == "cus_missing"));

    let key = r#"{"error":{"type":"invalid_request_error","message":"Invalid API key"}}"#;
    let err = p.delete_customer_result("cus_missing", &reply(401, key, None)).unwrap_err();
    assert!(matches!(err, PaymentError::Authentication(_)), "got {err:?}");

    let err = p.delete_customer_result("cus_missing", &reply(500, "upstream exploded", None)).unwrap_err();
    assert!(
        matches!(&err, PaymentError::Provider { status: Some(500), message } if message.contains("500")),
        "got {err:?}"
    );
    assert!(p.delete_customer_result("cus_1", &reply(200, r#"{"id":"cus_1","deleted":true}"#, None)).is_ok());
}

#[test]
fn subscription_reads_price_and_quantity_from_items() {
    let sub = StripeSubscription {
        id: "sub_1".into(),
        customer: "cus_1".into(),
        status: "active".into(),
        current_period_start: 1750000000,
        current_period_end: 1752592000,
        trial_end: None,
        cancel_at_period_end: false,
        canceled_at: None,
        created: 1749000000,
        metadata: StringMap::new(),
        items: vec![StripeSubscriptionItem { price: Some("price_pro_monthly".into()), quantity: Some(7) }],
    };
    let sub = provider().get_subscription_result("sub_1", &reply(200, "{}", None), Ok(sub)).unwrap();
    assert_eq!(sub.price_id, "price_pro_monthly");
    assert_eq!(sub.quantity, 7);
    assert_eq!(sub.customer_id.as_deref(), Some("cus_1"));
    assert_eq!(sub.current_period_start.map(|d| d.secs), Some(1750000000));
    assert_eq!(sub.created_at.map(|d| d.secs), Some(1749000000));
    assert_eq!(sub.status, SubscriptionStatus::Active);
}

#[test]
fn subscription_without_items_falls_back_without_inventing_a_price() {
    let sub = StripeSubscription {
        id: "sub_1".into(),
        customer: "cus_1".into(),
        status: "incomplete_expired".into(),
        current_period_start: 1,
        current_period_end: i64::MAX,
        trial_end: Some(5),
        cancel_at_period_end: false,
        canceled_at: Some(i64::MIN),
        created: 1,
        metadata: StringMap::new(),
        items: vec![],
    };
    let sub = sub.into_subscription();
    assert!(sub.price_id.is_empty());
    assert_eq!(sub.quantity, 1);
    assert_eq!(sub.status, SubscriptionStatus::IncompleteExpired);
    assert_eq!(sub.trial_end.map(|d| d.secs), Some(5));
    assert_eq!(sub.current_period_end, None);
    assert_eq!(sub.canceled_at, None);
}

#[test]
fn payment_method_source_routes_through_payment_intents() {
    let request = ChargeRequest::new(Money::usd(2999), PaymentSource::payment_method("pm_1"));
    let sent = provider().charge_request(&request).expect("must be charged, not dropped");
    assert_eq!(sent.path, "/payment_intents");
    assert_eq!(sent.method, Method::Post);
    assert_eq!(form(&sent, "payment_method").as_deref(), Some("pm_1"));
    assert_eq!(form(&sent, "confirm").as_deref(), Some("true"));
    assert_eq!(form(&sent, "capture_method"), None);
    let held = provider().charge_request(&request.clone().auth_only()).unwrap();
    assert_eq!(form(&held, "capture_method").as_deref(), Some("manual"));

    let intent = StripePaymentIntent {
        id: "pi_1".into(),
        amount: 2999,
        currency: "usd".into(),
        status: "succeeded".into(),
        client_secret: Some("cs_1".into()),
        customer: Some("cus_1".into()),
        payment_method: Some("pm_1".into()),
        created: Some(1750000000),
        amount_received: Some(2999),
        last_payment_error: None,
    };
    let charge = provider().intent_charge_result(request, &reply(200, "{}", None), Ok(intent)).unwrap();
    assert_eq!(charge.id, "pi_1");
    assert_eq!(charge.amount.amount, 2999);
    assert!(charge.captured);
    assert_eq!(charge.payment_method.as_deref(), Some("pm_1"));
    assert_eq!(charge.created_at, Timestamp { secs: 1750000000, nanos: 0 });
}

#[test]
fn an_unconfirmed_intent_is_a_pending_charge_with_its_reason() {
    let intent = StripePaymentIntent {
        id: "pi_2".into(),
        amount: 500,
        currency: "???".into(),
        status: "requires_payment_method".into(),
        client_secret: None,
        customer: None,
        payment_method: None,
        created: None,
        amount_received: None,
        last_payment_error: Some(StripeErrorDetailPublic { message: Some("declined".into()) }),
    };
    let request = ChargeRequest::new(Money::eur(500), PaymentSource::payment_method("pm_1")).description("d");
    let charge = provider().intent_charge_result(request, &reply(200, "{}", None), Ok(intent)).unwrap();
    assert_eq!(charge.status, ChargeStatus::Pending);
    assert_eq!(charge.amount, Money::eur(500));
    assert!(!charge.captured);
    assert_eq!(charge.failure_reason.as_deref(), Some("declined"));
    assert_eq!(charge.description.as_deref(), Some("d"));
}

#[test]
fn bank_source_is_sent_as_a_charge_source() {
    let source = PaymentSource::Bank { token: "btok_1".into() };
    let sent = provider().charge_request(&ChargeRequest::new(Money::usd(5000), source)).unwrap();
    assert_eq!(sent.path, "/charges");
    assert_eq!(form(&sent, "source").as_deref(), Some("btok_1"));
    assert_eq!(form(&sent, "capture").as_deref(), Some("true"));
}

#[test]
fn payment_intents_reject_raw_card_and_bank_tokens_explicitly() {
    for source in [PaymentSource::card("tok_visa"), PaymentSource::Bank { token: "btok_1".into() }] {
        let err = provider()
            .create_payment_intent_request(&ChargeRequest::new(Money::usd(100), source))
            .unwrap_err();
        assert!(matches!(err, PaymentError::Validation(_)), "got {err:?}");
    }
    let customer = ChargeRequest::new(Money::usd(100), PaymentSource::customer("cus_9"));
    let sent = provider().create_payment_intent_request(&customer).unwrap();
    assert_eq!(form(&sent, "customer").as_deref(), Some("cus_9"));
    assert_eq!(form(&sent, "confirm"), None);
}

#[test]
fn charge_sends_idempotency_key_statement_descriptor_and_metadata() {
    let mut request = ChargeRequest::new(Money::usd(1000), PaymentSource::card("tok_visa"))
        .metadata("order_id", "A-1")
        .metadata("channel", "web")
        .customer("cus_1");
    request.idempotency_key = Some("idem-key-123".into());
    request.statement_descriptor = Some("ACME STORE".into());

    let sent = provider().charge_request(&request).unwrap();
    assert_eq!(sent.dedup, Some(("Idempotency-Key".to_string(), "idem-key-123".to_string())));
    assert_eq!(form(&sent, "statement_descriptor").as_deref(), Some("ACME STORE"));
    assert_eq!(form(&sent, "metadata[order_id]").as_deref(), Some("A-1"));
    assert_eq!(form(&sent, "metadata[channel]").as_deref(), Some("web"));
    assert_eq!(form(&sent, "amount").as_deref(), Some("1000"));
    assert_eq!(form(&sent, "currency").as_deref(), Some("usd"));
    assert_eq!(form(&sent, "customer").as_deref(), Some("cus_1"));
    assert_eq!(form(&sent, "source").as_deref(), Some("tok_visa"));
}

#[test]
fn capture_and_refund_name_their_amounts() {
    let p = provider();
    let full = p.capture_request("ch_1", None);
    assert_eq!(full.path, "/charges/ch_1/capture");
    assert_eq!(form(&full, "amount"), None);
    assert_eq!(form(&p.capture_request("ch_1", Some(Money::usd(-5))), "amount").as_deref(), Some("-5"));

    let request = RefundRequest::new("ch_1")
        .amount(Money::usd(250))
        .reason(RefundReason::RequestedByCustomer)
        .idempotency_key("r-1");
    let sent = p.refund_request(&request);
    assert_eq!(sent.path, "/refunds");
    assert_eq!(form(&sent, "charge").as_deref(), Some("ch_1"));
    assert_eq!(form(&sent, "amount").as_deref(), Some("250"));
    assert_eq!(form(&sent, "reason").as_deref(), Some("requested_by_customer"));
    assert_eq!(sent.dedup, Some(("Idempotency-Key".to_string(), "r-1".to_string())));

    let refund = StripeRefund {
        id: "re_1".into(),
        charge: "ch_1".into(),
        amount: 250,
        currency: "eur".into(),
        status: "canceled".into(),
        reason: Some("requested_by_customer".into()),
        created: 1,
    };
    let refund = p.refund_result("ch_1", &reply(200, "{}", None), Ok(refund)).unwrap();
    assert_eq!(refund.status, RefundStatus::Canceled);
    assert_eq!(refund.reason, Some(RefundReason::RequestedByCustomer));
    assert_eq!(refund.amount, Money::eur(250));
    let err = p.refund_result("ch_1", &reply(404, "{}", None), Err("x".into())).unwrap_err();
    assert!(matches!(err, PaymentError::ChargeNotFound(id) if id == "ch_1"));
}

#[test]
fn a_charge_is_reported_as_stripe_reports_it() {
    let mut sent = charge_json();
    sent.status = "failed".into();
    sent.currency = "jpy".into();
    sent.amount_refunded = Some(7);
    sent.failure_message = Some("declined".into());
    let charge = provider().charge_result(&reply(201, "{}", None), Ok(sent)).unwrap();
    assert_eq!(charge.status, ChargeStatus::Failed);
    assert_eq!(charge.amount, Money::new(2999, Currency::JPY));
    assert_eq!(charge.amount_refunded, Money::new(7, Currency::JPY));
    assert_eq!(charge.failure_reason.as_deref(), Some("declined"));
    assert_eq!(charge.created_at.secs, 1_750_000_000);
}

#[test]
fn customers_and_methods_are_asked_for_and_read() {
    let p = provider();
    let request = CreateCustomerRequest::with_email("a@b.test").name("Ann").phone("1");
    let sent = p.create_customer_request(&request);
    assert_eq!(sent.path, "/customers");
    assert_eq!(form(&sent, "email").as_deref(), Some("a@b.test"));
    assert_eq!(form(&sent, "name").as_deref(), Some("Ann"));
    assert_eq!(form(&sent, "description"), None);
    let change = UpdateCustomerRequest { phone: Some("2".into()), ..Default::default() };
    let sent = p.update_customer_request("cus_1", &change);
    assert_eq!(sent.path, "/customers/cus_1");
    assert_eq!(form(&sent, "phone").as_deref(), Some("2"));
    assert_eq!(p.get_customer_request("cus_1").method, Method::Get);
    assert_eq!(p.delete_customer_request("cus_1").method, Method::Delete);

    let customer = StripeCustomer {
        id: "cus_1".into(),
        email: None,
        name: Some("Ann".into()),
        phone: None,
        description: None,
        default_source: Some("card_1".into()),
        created: 9,
        metadata: StringMap::new(),
    };
    let customer = p.customer_result("cus_1", &reply(200, "{}", None), Ok(customer)).unwrap();
    assert_eq!(customer.default_payment_method.as_deref(), Some("card_1"));
    assert_eq!(customer.created_at.secs, 9);

    let card = CardDetails { number: "4242".into(), exp_month: 12, exp_year: 2030, cvc: "123".into() };
    let sent = p.create_payment_method_request(&CreatePaymentMethodRequest::card(card));
    assert_eq!(form(&sent, "type").as_deref(), Some("card"));
    assert_eq!(form(&sent, "card[number]").as_deref(), Some("4242"));
    assert_eq!(form(&sent, "card[exp_month]").as_deref(), Some("12"));
    assert_eq!(form(&sent, "card[exp_year]").as_deref(), Some("2030"));
    assert_eq!(form(&sent, "card[cvc]").as_deref(), Some("123"));
    assert_eq!(p.attach_payment_method_request("pm_1", "cus_1").path, "/payment_methods/pm_1/attach");
    assert_eq!(p.detach_payment_method_request("pm_1").path, "/payment_methods/pm_1/detach");

    let mut raw = method("pm_1", 3);
    raw.card = Some(StripeCard {
        brand: "visa".into(),
        last4: "4242".into(),
        exp_month: 1,
        exp_year: 2031,
        funding: "prepaid".into(),
    });
    let read = p.payment_method_result("pm_1", &reply(200, "{}", None), Ok(raw)).unwrap();
    assert_eq!(read.card.unwrap().funding, CardFunding::Prepaid);
    let err = p.payment_method_result("pm_1", &reply(404, "", None), Err("x".into())).unwrap_err();
    assert!(matches!(err, PaymentError::PaymentMethodNotFound(id) if id == "pm_1"));
}

#[test]
fn subscriptions_are_asked_for() {
    let p = provider();
    let request = CreateSubscriptionRequest::new("cus_1", "price_1").quantity(3).trial_days(14);
    let sent = p.create_subscription_request(&request);
    assert_eq!(form(&sent, "customer").as_deref(), Some("cus_1"));
    assert_eq!(form(&sent, "items[0][price]").as_deref(), Some("price_1"));
    assert_eq!(form(&sent, "items[0][quantity]").as_deref(), Some("3"));
    assert_eq!(form(&sent, "trial_period_days").as_deref(), Some("14"));
    assert_eq!(p.cancel_subscription_request("sub_1", true).method, Method::Delete);
    let later = p.cancel_subscription_request("sub_1", false);
    assert_eq!(form(&later, "cancel_at_period_end").as_deref(), Some("true"));
    let resumed = p.resume_subscription_request("sub_1");
    assert_eq!(form(&resumed, "cancel_at_period_end").as_deref(), Some("false"));
    let moved = p.update_subscription_request("sub_1", "price_2");
    assert_eq!(form(&moved, "items[0][price]").as_deref(), Some("price_2"));
    assert_eq!(p.get_subscription_request("sub_1").path, "/subscriptions/sub_1");
    let err = p.get_subscription_result("sub_1", &reply(404, "", None), Err("x".into())).unwrap_err();
    assert!(matches!(err, PaymentError::SubscriptionNotFound(id) if id == "sub_1"));
}

#[test]
fn list_payment_methods_requests_a_full_page_and_stops_when_told() {
    let p = provider();
    let walk = p.list_payment_methods("cus_1");
    let first = walk.next_request();
    assert_eq!(first.method, Method::Get);
    assert_eq!(first.path, "/payment_methods?customer=cus_1&type=card&limit=100");

    let page = StripeMethodPage {
        data: vec![method("pm_1", 1700000000), method("pm_2", 1700000001)],
        has_more: false,
    };
    match p.list_payment_methods_step(walk, &reply(200, "{}", None), Ok(page)).unwrap() {
        WalkStep::Done(methods) => {
            assert_eq!(methods.len(), 2);
            assert_eq!(methods[0].id, "pm_1");
            assert_eq!(methods[1].created_at.secs, 1700000001);
        }
        WalkStep::More(_) => panic!("has_more:false means one request"),
    }
}

#[test]
fn list_payment_methods_follows_the_cursor_and_terminates() {
    let p = provider();
    let mut walk = p.list_payment_methods("cus_1");
    let mut requests = vec![];
    let methods = loop {
        requests.push(walk.next_request().path);
        let page = StripeMethodPage {
            data: vec![method("pm_1", 1700000000), method("pm_last", 1700000001)],
            has_more: true,
        };
        match p.list_payment_methods_step(walk, &reply(200, "{}", None), Ok(page)).unwrap() {
            WalkStep::More(next) => walk = next,
            WalkStep::Done(methods) => break methods,
        }
    };
    assert!(requests.len() > 1, "has_more:true must drive a second request");
    assert_eq!(requests.len(), MAX_LIST_PAGES);
    assert_eq!(methods.len(), requests.len() * 2);
    assert!(requests[1].ends_with("&starting_after=pm_last"), "got {}", requests[1]);
}

#[test]
fn an_empty_page_ends_the_walk_whatever_it_says() {
    let p = provider();
    let page = StripeMethodPage { data: vec![], has_more: true };
    let walk = p.list_payment_methods("cus_1");
    let step = p.list_payment_methods_step(walk, &reply(200, "{}", None), Ok(page)).unwrap();
    assert!(matches!(step, WalkStep::Done(methods) if methods.is_empty()));
}

#[test]
fn an_out_of_range_timestamp_does_not_panic() {
    for secs in [i64::MAX, i64::MIN, 253_402_300_800_000] {
        let stamped = timestamp_or_now(secs);
        assert!(stamped.secs.abs() < 253_402_300_800);
    }
    assert_eq!(timestamp_or_now(1_700_000_000).secs, 1_700_000_000);
}

#[test]
fn a_charge_with_an_unrepresentable_created_still_projects() {
    let mut sent = charge_json();
    sent.created = i64::MAX;
    let charge = provider().charge_result(&reply(200, "{}", None), Ok(sent)).unwrap();
    assert_eq!(charge.amount, Money::usd(2999));
    assert_eq!(charge.status, ChargeStatus::Succeeded);
}

#[test]
fn a_webhook_with_an_unrepresentable_created_does_not_panic() {
    let payload = format!(
        r#"{{"id":"evt_1","type":"charge.succeeded","created":{},
            "livemode":false,"data":{{"object":{{"id":"ch_1"}}}}}}"#,
        i64::MIN
    );
    let event = provider().parse_webhook(event(payload.as_bytes())).unwrap();
    assert_eq!(event.id, "evt_1");
}

#[test]
fn parse_webhook_emits_typed_data_for_a_modeled_event() {
    let payload = br#"{"id":"evt_1","type":"charge.succeeded","created":1700000000,
        "livemode":true,"data":{"object":{"id":"ch_1","amount":2999,
        "currency":"usd","status":"succeeded"}}}"#;
    let event = provider().parse_webhook(event(payload)).unwrap();

    assert_eq!(event.event_type, WebhookEventType::ChargeSucceeded);
    assert_eq!(event.created_at, Timestamp { secs: 1_700_000_000, nanos: 0 });
    assert!(event.livemode);
    match event.data {
        WebhookData::Charge(c) => {
            assert_eq!(c.id, "ch_1");
            assert_eq!(c.amount, 2999);
        }
        other => panic!("expected typed Charge data, got {other:?}"),
    }
}

#[test]
fn parse_webhook_falls_back_to_generic_on_an_unmodeled_shape() {
    let payload = br#"{"id":"evt_2","type":"charge.succeeded","created":1700000000,
        "livemode":false,"data":{"object":{"totally":"different"}}}"#;
    let event = provider().parse_webhook(event(payload)).unwrap();
    match event.data {
        WebhookData::Generic(v) => {
            assert_eq!(v.get("totally").and_then(|m| m.as_str()), Some("different"));
        }
        other => panic!("expected Generic, got {other:?}"),
    }
    assert!(matches!(
        provider().parse_webhook(Err("expected value".into())),
        Err(PaymentError::Serialization(_))
    ));
}

#[test]
fn with_webhook_tolerance_takes_a_duration() {
    let p = provider().with_webhook_secret("whsec").with_webhook_tolerance(60);
    let at = |secs| Timestamp { secs, nanos: 0 };
    let headers = WebhookHeaders::single(STRIPE_SIGNATURE_HEADER, &signature("whsec", 1_000, b"{}"));
    assert!(p.verify_webhook_at(b"{}", &headers, at(1_060)).is_ok());
    assert!(p.verify_webhook_at(b"{}", &headers, at(940)).is_ok());
    assert!(p.verify_webhook_at(b"{}", &headers, at(1_061)).is_err());
    assert!(p.verify_webhook_at(b"{}", &headers, at(939)).is_err());
}

const EVENT: &str =
    r#"{"id":"evt_1","type":"charge.succeeded","created":1,"livemode":false,"data":{"object":{}}}"#;

const SECRET: &str = "whsec_test_secret";

fn signature(secret: &str, timestamp: i64, payload: &[u8]) -> String {
    let mut signed = format!("{timestamp}.").into_bytes();
    signed.extend_from_slice(payload);
    let mut mac = Hmac::<Sha256>::new_from_slice(secret.as_bytes()).unwrap();
    mac.update(&signed);
    format!("t={timestamp},v1={}", hex::encode(mac.finalize().into_bytes()))
}

fn signed_provider() -> StripeProvider {
    StripeProvider::new("sk_test").expect("builds").with_webhook_secret(SECRET)
}

fn now() -> i64 {
    chrono::Utc::now().timestamp()
}

fn verify(provider: &StripeProvider, payload: &str, header: &str) -> Result<(), PaymentError> {
    provider.verify_webhook(payload.as_bytes(), &WebhookHeaders::single(STRIPE_SIGNATURE_HEADER, header))
}

#[test]
fn stripe_accepts_a_valid_signature() {
    let sig = signature(SECRET, now(), EVENT.as_bytes());
    verify(&signed_provider(), EVENT, &sig).expect("a correctly signed webhook must verify");
}

#[test]
fn stripe_accepts_any_of_several_rotated_signatures() {
    let ts = now();
    let valid = signature(SECRET, ts, EVENT.as_bytes());
    let valid_hex = valid.split("v1=").nth(1).unwrap().to_string();
    let header = format!("t={ts},v1=00ff00ff,v1={valid_hex}");
    verify(&signed_provider(), EVENT, &header).expect("one matching signature is enough");
}

#[test]
fn stripe_rejects_a_tampered_payload() {
    let sig = signature(SECRET, now(), EVENT.as_bytes());
    let tampered = EVENT.replace("evt_1", "evt_attacker");
    let err = verify(&signed_provider(), &tampered, &sig).unwrap_err();
    assert!(matches!(err, PaymentError::InvalidWebhookSignature));
}

#[test]
fn stripe_rejects_a_forged_signature() {
    let sig = signature("whsec_attacker_guess", now(), EVENT.as_bytes());
    let err = verify(&signed_provider(), EVENT, &sig).unwrap_err();
    assert!(matches!(err, PaymentError::InvalidWebhookSignature));
}

#[test]
fn stripe_rejects_a_replayed_timestamp_outside_tolerance() {
    let stale = now() - 7200;
    let sig = signature(SECRET, stale, EVENT.as_bytes());
    let err = verify(&signed_provider(), EVENT, &sig).unwrap_err();
    assert!(matches!(err, PaymentError::InvalidWebhookSignature));
    verify(&signed_provider().without_webhook_tolerance(), EVENT, &sig)
        .expect("with tolerance disabled the signature alone decides");
}

#[test]
fn stripe_rejects_malformed_and_absent_signature_headers() {
    let provider = signed_provider();
    for header in [
        None,
        Some(String::new()),
        Some("v1=deadbeef".to_string()),
        Some(format!("t={}", now())),
        Some(format!("t={},v1=nothex", now())),
        Some("t=not-a-number,v1=deadbeef".to_string()),
        Some("t=-9223372036854775808,v1=deadbeef".to_string()),
    ] {
        let headers = match header {
            Some(value) => WebhookHeaders::single(STRIPE_SIGNATURE_HEADER, &value),
            None => WebhookHeaders::new(),
        };
        let err = provider.verify_webhook(EVENT.as_bytes(), &headers).unwrap_err();
        assert!(matches!(err, PaymentError::InvalidWebhookSignature), "got {err:?}");
    }
}

#[test]
fn stripe_rejects_near_miss_and_far_miss_signatures() {
    let ts = now();
    let valid = signature(SECRET, ts, EVENT.as_bytes());
    let valid_hex = valid.split("v1=").nth(1).unwrap();
    let mut near_miss: Vec<u8> = hex::decode(valid_hex).unwrap();
    let last = near_miss.len() - 1;
    near_miss[last] ^= 0x01;
    let mut first_byte_wrong = hex::decode(valid_hex).unwrap();
    first_byte_wrong[0] ^= 0xff;
    for forged in [near_miss, first_byte_wrong] {
        let header = format!("t={ts},v1={}", hex::encode(&forged));
        let err = verify(&signed_provider(), EVENT, &header).unwrap_err();
        assert!(matches!(err, PaymentError::InvalidWebhookSignature));
    }
}

#[test]
fn stripe_verification_requires_a_configured_secret() {
    let provider = StripeProvider::new("sk_test").expect("builds");
    let err = verify(&provider, EVENT, "t=1,v1=ab").unwrap_err();
    assert!(matches!(err, PaymentError::Config(_)));
}

#[test]
fn stripe_verification_rejects_an_empty_secret() {
    let provider = StripeProvider::new("sk_test").expect("builds").with_webhook_secret("");
    let sig = signature("", now(), EVENT.as_bytes());
    let err = verify(&provider, EVENT, &sig).unwrap_err();
    assert!(matches!(err, PaymentError::Config(_)));
}

#[test]
fn stripe_rejects_more_than_the_maximum_v1_candidates() {
    let ts = now();
    let valid = signature(SECRET, ts, EVENT.as_bytes());
    let valid_hex = valid.split("v1=").nth(1).unwrap().to_string();
    let mut parts = vec![format!("t={ts}")];
    for _ in 0..20 {
        parts.push("v1=00ff00ff".to_string());
    }
    parts.push(format!("v1={valid_hex}"));
    let err = verify(&signed_provider(), EVENT, &parts.join(",")).unwrap_err();
    assert!(matches!(err, PaymentError::InvalidWebhookSignature));
}

#[test]
fn too_many_v1_candidates_are_rejected() {
    let sig = format!("t=1,{}", "v1=aa,".repeat(MAX_V1_CANDIDATES + 5));
    assert!(sig.len() <= MAX_SIGNATURE_HEADER_LEN);
    let err = verify(&provider().with_webhook_secret("whsec_test"), "{}", &sig).unwrap_err();
    assert!(matches!(err, PaymentError::InvalidWebhookSignature), "got {err:?}");
}

#[test]
fn oversized_signature_header_is_rejected() {
    let valid = signature("whsec_test", now(), b"{}");
    let huge = format!("{valid},{}", "x".repeat(MAX_SIGNATURE_HEADER_LEN));
    let err = verify(&provider().with_webhook_secret("whsec_test"), "{}", &huge).unwrap_err();
    assert!(matches!(err, PaymentError::InvalidWebhookSignature), "got {err:?}");
    verify(&provider().with_webhook_secret("whsec_test"), "{}", &format!(" {valid} ,x=y")).unwrap();
}

#[test]
fn stripe_processor_parses_only_verified_events() {
    let provider = signed_provider();
    let sig = signature(SECRET, now(), EVENT.as_bytes());
    let headers = WebhookHeaders::single(STRIPE_SIGNATURE_HEADER, &sig);
    let parsed = provider.handle_webhook(EVENT.as_bytes(), &headers, event(EVENT.as_bytes())).unwrap();
    assert_eq!(parsed.id, "evt_1");

    let forged = WebhookHeaders::single(STRIPE_SIGNATURE_HEADER, "t=1,v1=deadbeef");
    let err = provider.handle_webhook(EVENT.as_bytes(), &forged, event(EVENT.as_bytes())).unwrap_err();
    assert!(matches!(err, PaymentError::InvalidWebhookSignature));
}

#[test]
fn only_a_payment_method_is_charged_by_intent() {
    let by = |source: PaymentSource| provider().charges_by_intent(&ChargeRequest::new(Money::usd(2999), source));
    assert!(by(PaymentSource::payment_method("pm_1")));
    assert!(!by(PaymentSource::card("tok_visa")));
    assert!(!by(PaymentSource::customer("cus_1")));
}
