//! PayPal: tokens, orders, subscriptions and webhooks.
use armature_payments::gateway::{Body, GatewayReply, GatewayRequest, Method};
use armature_payments::json::Json;
use armature_payments::providers::paypal::{
    custom_id, order_charge_status, order_request, paypal_amount, token_lifetime, PayPalAmount, PayPalOrder,
    PayPalPurchaseUnit, PayPalRefund, PayPalToken, PayPalTokenResponse, TokenStep, PAYPAL_AUTH_ALGO_HEADER,
    PAYPAL_CERT_URL_HEADER, PAYPAL_TRANSMISSION_ID_HEADER, PAYPAL_TRANSMISSION_SIG_HEADER,
    PAYPAL_TRANSMISSION_TIME_HEADER,
};
use armature_payments::providers::paypal_billing::{
    PayPalBillingInfo, PayPalLastPayment, PayPalSubscriber, PayPalSubscription,
};
use armature_payments::providers::paypal_webhook::{
    PayPalVerifyResponse, PayPalWebhookEvent, MAX_WEBHOOK_BODY, PAYPAL_VERIFY_PATH,
};
use armature_payments::providers::PayPalProvider;
use armature_payments::{
    ChargeRequest, ChargeStatus, CreateSubscriptionRequest, Currency, Money, PaymentError, PaymentProvider,
    PaymentSource, RefundRequest, RefundStatus, SubscriptionStatus, Timestamp, WebhookHeaders,
};

fn provider() -> PayPalProvider {
    PayPalProvider::new("client_id", "client_secret").expect("builds")
}

fn reply(status: u16, body: &str) -> GatewayReply {
    GatewayReply { status, retry_after: None, body: body.to_string() }
}

fn document(request: &GatewayRequest) -> &Json {
    match &request.body {
        Body::Json(json) => json,
        other => panic!("expected JSON, got {other:?}"),
    }
}

fn at<'a>(json: &'a Json, path: &[&str]) -> Option<&'a Json> {
    let mut here = json;
    for name in path {
        here = match here {
            Json::Array(items) => items.get(name.parse::<usize>().ok()?)?,
            other => other.get(name)?,
        };
    }
    Some(here)
}

fn text_at<'a>(json: &'a Json, path: &[&str]) -> Option<&'a str> {
    at(json, path).and_then(|j| j.as_str())
}

fn order(status: &str, currency: &str, value: &str) -> PayPalOrder {
    PayPalOrder {
        id: "ORDER1".into(),
        status: status.into(),
        purchase_units: vec![PayPalPurchaseUnit {
            amount: PayPalAmount { currency_code: currency.into(), value: value.into() },
        }],
    }
}

fn card_charge(amount: Money) -> ChargeRequest {
    ChargeRequest::new(amount, PaymentSource::card("tok_1"))
}

#[test]
fn paypal_advertises_idempotency_support() {
    assert!(provider().supports_idempotency());
}

fn event(create_time: Option<Timestamp>) -> Result<PayPalWebhookEvent, String> {
    Ok(PayPalWebhookEvent {
        id: "WH-1".into(),
        event_type: "PAYMENT.CAPTURE.COMPLETED".into(),
        resource: Json::Object(vec![("id".into(), Json::text("cap_1"))]),
        create_time,
    })
}

/// 2024-03-01T10:15:30Z
const CREATE_TIME: Timestamp = Timestamp { secs: 1_709_288_130, nanos: 0 };

#[test]
fn sandbox_webhooks_are_not_reported_as_livemode() {
    assert!(!provider().parse_webhook(event(Some(CREATE_TIME))).unwrap().livemode);
    assert!(provider().production().parse_webhook(event(Some(CREATE_TIME))).unwrap().livemode);
}

#[test]
fn webhook_created_at_comes_from_paypals_create_time() {
    let event = provider().parse_webhook(event(Some(CREATE_TIME))).unwrap();
    assert_eq!(event.created_at, CREATE_TIME);
    assert_eq!(event.provider, "paypal");
    assert_eq!(event.id, "WH-1");
}

#[test]
fn webhook_without_create_time_falls_back_to_now() {
    let before = chrono::Utc::now().timestamp();
    let event = provider().parse_webhook(event(None)).unwrap();
    assert!(event.created_at.secs >= before);
}

#[test]
fn every_structurally_absent_operation_reports_unsupported() {
    let p = provider();
    let errors = vec![
        p.create_customer_error(),
        p.get_customer_error("cus_1"),
        p.update_customer_error("cus_1"),
        p.delete_customer_error(),
        p.create_payment_method_error(),
        p.attach_payment_method_error(),
        p.detach_payment_method_error(),
        p.list_payment_methods_error(),
    ];
    for err in errors {
        assert!(matches!(err, PaymentError::Unsupported(_)), "got {err:?}");
        assert!(!err.is_retryable(), "a structural gap is never retryable");
        assert!(err.to_string().contains("paypal"), "got {err:?}");
    }
    assert!(p.get_customer_error("cus_\"1").to_string().contains(r#"for "cus_\"1"."#));
}

#[test]
fn a_short_token_lifetime_does_not_produce_an_already_expired_token() {
    for expires_in in [0u64, 1, 30, 59, 60] {
        let lifetime = token_lifetime(expires_in);
        assert!(lifetime > 0, "expires_in={expires_in} yielded {lifetime:?}");
    }
    assert_eq!(token_lifetime(3600), 3540);
}

#[test]
fn a_token_is_used_until_it_expires() {
    let p = provider();
    let now = Timestamp { secs: 1_000, nanos: 5 };
    let token = PayPalToken::issued(PayPalTokenResponse { access_token: "tok".into(), expires_in: 90 }, now);
    assert_eq!(token.expires_at, Timestamp { secs: 1_030, nanos: 5 });
    let cached = Some(token);
    let later = Timestamp { secs: 1_030, nanos: 4 };
    assert!(matches!(p.get_token(&cached, later), TokenStep::Use(t) if t == "tok"));
    let expired = Timestamp { secs: 1_030, nanos: 5 };
    for step in [p.get_token(&cached, expired), p.get_token(&None, now)] {
        match step {
            TokenStep::Refresh(q) => {
                assert_eq!(q.path, "/v1/oauth2/token");
                match &q.body {
                    Body::Form(form) => {
                        assert_eq!(form.get("grant_type").map(|s| s.as_str()), Some("client_credentials"));
                    }
                    other => panic!("expected a form, got {other:?}"),
                }
            }
            other => panic!("expected a refresh, got {other:?}"),
        }
    }
    assert_eq!(p.token_credential(), "Basic Y2xpZW50X2lkOmNsaWVudF9zZWNyZXQ=");
    let err = p.token_result(&reply(401, "denied"), Err("x".into())).unwrap_err();
    assert!(matches!(err, PaymentError::Authentication(m) if m == "paypal returned HTTP 401: denied"));
}

#[test]
fn purchase_unit_carries_descriptor_and_metadata() {
    let mut request = card_charge(Money::eur(12000)).description("Order 7");
    request.statement_descriptor = Some("ACME STORE".into());
    let sent = order_request(&request, Some(r#"{"order_id":"7"}"#.into()));
    let json = at(document(&sent), &["purchase_units", "0"]).unwrap();
    assert_eq!(text_at(json, &["amount", "value"]), Some("120.00"));
    assert_eq!(text_at(json, &["soft_descriptor"]), Some("ACME STORE"));
    assert_eq!(text_at(json, &["custom_id"]), Some(r#"{"order_id":"7"}"#));
    assert_eq!(text_at(json, &["description"]), Some("Order 7"));
}

#[test]
fn purchase_unit_omits_absent_optional_fields() {
    let sent = order_request(&card_charge(Money::usd(1000)), None);
    let json = at(document(&sent), &["purchase_units", "0"]).unwrap();
    assert_eq!(text_at(json, &["amount", "value"]), Some("10.00"));
    assert!(json.get("soft_descriptor").is_none());
    assert!(json.get("custom_id").is_none());
    assert!(json.get("description").is_none());
}

#[test]
fn metadata_travels_as_json_text() {
    let request = card_charge(Money::usd(1000)).metadata("order_id", "7").metadata("note", "say \"hi\"");
    let sent = provider().charge_request(&request).unwrap();
    assert_eq!(
        text_at(document(&sent), &["purchase_units", "0", "custom_id"]),
        Some(r#"{"order_id":"7","note":"say \"hi\""}"#)
    );
}

#[test]
fn charge_rejects_metadata_too_large_for_custom_id() {
    let mut request = card_charge(Money::usd(1000));
    request.metadata.insert("k".into(), "x".repeat(200));
    let err = provider().charge_request(&request).unwrap_err();
    assert!(matches!(err, PaymentError::Validation(_)), "got {err:?}");
    assert!(err.to_string().contains("the encoded metadata is 208 characters"), "got {err:?}");
}

#[test]
fn the_limit_on_a_custom_id_is_in_bytes() {
    assert_eq!(custom_id(Ok("é".repeat(63))).unwrap(), "é".repeat(63));
    assert!(matches!(custom_id(Ok("é".repeat(64))), Err(PaymentError::Validation(_))));
    assert!(matches!(custom_id(Err("no".into())), Err(PaymentError::Serialization(m)) if m == "no"));
}

#[test]
fn order_intent_and_request_id_reach_paypal() {
    let mut request = card_charge(Money::usd(1000));
    request.idempotency_key = Some("key-1".into());
    let sent = provider().charge_request(&request).unwrap();
    assert_eq!(sent.path, "/v2/checkout/orders");
    assert_eq!(sent.dedup, Some(("PayPal-Request-Id".to_string(), "key-1".to_string())));
    assert_eq!(text_at(document(&sent), &["intent"]), Some("CAPTURE"));
    let held = provider().charge_request(&request.auth_only()).unwrap();
    assert_eq!(text_at(document(&held), &["intent"]), Some("AUTHORIZE"));
}

#[test]
fn capture_status_is_mapped() {
    assert_eq!(order_charge_status("COMPLETED"), ChargeStatus::Succeeded);
    assert_eq!(order_charge_status("DECLINED"), ChargeStatus::Failed);
    assert_eq!(order_charge_status("FAILED"), ChargeStatus::Failed);
    assert_eq!(order_charge_status("PENDING"), ChargeStatus::Pending);
    assert_eq!(order_charge_status("VOIDED"), ChargeStatus::Canceled);
    assert_eq!(order_charge_status("CREATED"), ChargeStatus::Pending);
    assert_eq!(order_charge_status("PAYER_ACTION_REQUIRED"), ChargeStatus::Pending);
}

#[test]
fn partial_capture_is_refused_rather_than_silently_full() {
    let err = provider().capture_request("order_1", Some(Money::usd(500))).unwrap_err();
    assert!(matches!(err, PaymentError::Unsupported(_)), "got {err:?}");
    assert!(err.to_string().contains("authorization"), "got {err:?}");
    assert!(err.to_string().contains("($5.00)"), "got {err:?}");
}

#[test]
fn full_capture_sends_no_amount() {
    let sent = provider().capture_request("ORDER1", None).unwrap();
    assert_eq!(sent.path, "/v2/checkout/orders/ORDER1/capture");
    assert!(matches!(document(&sent), Json::Object(members) if members.is_empty()));
}

#[test]
fn gateway_amounts_respect_zero_decimal_currencies() {
    assert_eq!(Money::new(1000, Currency::JPY).to_gateway_string(), "1000");
    assert_eq!(Money::eur(12000).to_gateway_string(), "120.00");
}

#[test]
fn paypal_a_jpy_charge_is_serialized_without_decimals() {
    let sent = provider().charge_request(&card_charge(Money::new(1000, Currency::JPY))).unwrap();
    let amount = at(document(&sent), &["purchase_units", "0", "amount"]).unwrap();
    assert_eq!(text_at(amount, &["currency_code"]), Some("JPY"));
    assert_eq!(text_at(amount, &["value"]), Some("1000"));
}

#[test]
fn an_order_is_a_pending_charge() {
    let request = card_charge(Money::usd(2999)).customer("me").metadata("a", "b");
    let charge = provider().charge_result(request, &reply(201, "{}"), Ok(order("CREATED", "EUR", "29.99"))).unwrap();
    assert_eq!(charge.status, ChargeStatus::Pending);
    assert!(!charge.captured);
    assert_eq!(charge.amount, Money::eur(2999));
    assert_eq!(charge.customer_id.as_deref(), Some("me"));
    assert_eq!(charge.metadata.get("a").map(|s| s.as_str()), Some("b"));

    let silent = PayPalOrder { id: "O".into(), status: "COMPLETED".into(), purchase_units: vec![] };
    let charge = provider().charge_result(card_charge(Money::gbp(7)), &reply(200, "{}"), Ok(silent)).unwrap();
    assert_eq!(charge.amount, Money::gbp(7));
    assert!(charge.captured);
}

#[test]
fn a_pending_capture_is_not_reported_as_completed() {
    let p = provider();
    for status in ["PENDING", "DECLINED"] {
        let charge = p.capture_result("ORDER1", &reply(200, "{}"), Ok(order(status, "USD", "99.00"))).unwrap();
        assert_ne!(charge.status, ChargeStatus::Succeeded);
        assert!(!charge.captured);
    }
    let done = p.capture_result("ORDER1", &reply(200, "{}"), Ok(order("COMPLETED", "EUR", "120.00"))).unwrap();
    assert!(done.captured);
    assert_eq!(done.amount, Money::eur(12000));
    let err = p.capture_result("ORDER1", &reply(404, ""), Err("x".into())).unwrap_err();
    assert!(matches!(err, PaymentError::ChargeNotFound(id) if id == "ORDER1"));
}

#[test]
fn an_unparseable_amount_is_an_error_not_zero() {
    let amount = PayPalAmount { currency_code: "USD".into(), value: "12,50".into() };
    let err = paypal_amount(&amount, "order").unwrap_err();
    assert!(matches!(err, PaymentError::Serialization(_)), "got {err:?}");
    assert!(
        err.to_string().contains(r#"unparseable order amount "12,50" (currency "USD")"#),
        "got {err:?}"
    );
    let request = card_charge(Money::usd(1));
    assert!(provider().charge_result(request, &reply(200, "{}"), Ok(order("COMPLETED", "USD", "?"))).is_err());
}

#[test]
fn refunds_carry_amount_and_key() {
    let p = provider();
    let request = RefundRequest::new("CAP1").amount(Money::eur(1250)).idempotency_key("r-1");
    let sent = p.refund_request(&request);
    assert_eq!(sent.path, "/v2/payments/captures/CAP1/refund");
    assert_eq!(sent.dedup, Some(("PayPal-Request-Id".to_string(), "r-1".to_string())));
    assert_eq!(text_at(document(&sent), &["amount", "value"]), Some("12.50"));
    assert!(document(&p.refund_request(&RefundRequest::new("CAP1"))).get("amount").is_none());

    let refunded = |status: &str| PayPalRefund {
        id: "R1".into(),
        status: status.into(),
        amount: Some(PayPalAmount { currency_code: "EUR".into(), value: "12.50".into() }),
    };
    for (status, expected) in [
        ("COMPLETED", RefundStatus::Succeeded),
        ("CANCELLED", RefundStatus::Canceled),
        ("FAILED", RefundStatus::Failed),
        ("PENDING", RefundStatus::Pending),
    ] {
        let refund = p.refund_result(request.clone(), &reply(201, "{}"), Ok(refunded(status))).unwrap();
        assert_eq!(refund.status, expected);
        assert_eq!(refund.amount, Money::eur(1250));
        assert_eq!(refund.charge_id, "CAP1");
    }
}

fn subscription() -> PayPalSubscription {
    PayPalSubscription {
        id: "I-SUB1".into(),
        status: "ACTIVE".into(),
        plan_id: Some("P-PLAN1".into()),
        quantity: Some("3".into()),
        create_time: Some(Timestamp { secs: 1_767_607_200, nanos: 0 }),
        status_update_time: Some(Timestamp { secs: 5, nanos: 0 }),
        billing_info: Some(PayPalBillingInfo {
            next_billing_time: Some(Timestamp { secs: 1_785_924_000, nanos: 0 }),
            last_payment: Some(PayPalLastPayment { time: Some(Timestamp { secs: 1_783_245_600, nanos: 0 }) }),
        }),
        subscriber: Some(PayPalSubscriber { payer_id: Some("PAYER123".into()) }),
    }
}

#[test]
fn subscription_reports_paypals_real_billing_period() {
    let sub = provider().subscription_result("I-SUB1", &reply(200, "{}"), Ok(subscription())).unwrap();
    assert_eq!(sub.status, SubscriptionStatus::Active);
    assert_eq!(sub.price_id, "P-PLAN1");
    assert_eq!(sub.quantity, 3);
    assert_eq!(sub.customer_id.as_deref(), Some("PAYER123"));
    assert_eq!(sub.current_period_start.map(|t| t.secs), Some(1_783_245_600));
    assert_eq!(sub.current_period_end.map(|t| t.secs), Some(1_785_924_000));
    assert_eq!(sub.created_at.map(|t| t.secs), Some(1_767_607_200));
    assert_eq!(sub.canceled_at, None);
}

#[test]
fn paypal_subscription_leaves_unreported_fields_none() {
    let bare = PayPalSubscription {
        id: "I-SUB2".into(),
        status: "APPROVAL_PENDING".into(),
        plan_id: None,
        quantity: Some("many".into()),
        create_time: None,
        status_update_time: None,
        billing_info: None,
        subscriber: None,
    };
    let sub = bare.into_subscription();
    assert_eq!(sub.status, SubscriptionStatus::Incomplete);
    assert!(sub.current_period_start.is_none());
    assert!(sub.current_period_end.is_none());
    assert!(sub.created_at.is_none());
    assert!(sub.customer_id.is_none());
    assert_eq!(sub.quantity, 1);
    assert_eq!(sub.price_id, "");
}

#[test]
fn a_cancelled_subscription_says_since_when() {
    let mut sub = subscription();
    sub.status = "CANCELLED".into();
    sub.billing_info = Some(PayPalBillingInfo { next_billing_time: None, last_payment: None });
    let sub = sub.into_subscription();
    assert_eq!(sub.status, SubscriptionStatus::Canceled);
    assert_eq!(sub.canceled_at.map(|t| t.secs), Some(5));
    assert_eq!(sub.current_period_start.map(|t| t.secs), Some(1_767_607_200));
}

#[test]
fn subscriptions_are_created_changed_and_cancelled() {
    let p = provider();
    let request = CreateSubscriptionRequest::new("cus_1", "P-9").quantity(2);
    let sent = p.create_subscription_request(&request);
    assert_eq!(sent.path, "/v1/billing/subscriptions");
    assert_eq!(text_at(document(&sent), &["plan_id"]), Some("P-9"));
    assert_eq!(text_at(document(&sent), &["quantity"]), Some("2"));
    let mut reported = subscription();
    reported.plan_id = None;
    let made = p.create_subscription_result(request, &reply(201, "{}"), Ok(reported)).unwrap();
    assert_eq!(made.customer_id.as_deref(), Some("cus_1"));
    assert_eq!(made.price_id, "P-9");
    assert_eq!(made.quantity, 2);

    let revise = p.update_subscription_request("I-SUB1", "P-PLAN2");
    assert_eq!(revise.path, "/v1/billing/subscriptions/I-SUB1/revise");
    assert_eq!(text_at(document(&revise), &["plan_id"]), Some("P-PLAN2"));
    assert_eq!(p.get_subscription_request("I-SUB1").method, Method::Get);
    let body = r#"{"name":"PLAN_CHANGE_NOT_ALLOWED","message":"nope"}"#;
    match p.subscription_changed("I-SUB1", &reply(422, body)).unwrap_err() {
        PaymentError::Provider { status, message } => {
            assert_eq!(status, Some(422));
            assert!(message.contains("422") && message.contains("PLAN_CHANGE_NOT_ALLOWED"), "{message}");
        }
        other => panic!("expected Provider, got {other:?}"),
    }
    let err = p.subscription_changed("I-GONE", &reply(404, "{}")).unwrap_err();
    assert!(matches!(err, PaymentError::SubscriptionNotFound(id) if id == "I-GONE"));
    assert!(p.subscription_changed("I-SUB1", &reply(204, "")).is_ok());

    let cancel = p.cancel_subscription_request("sub_1", true).unwrap();
    assert_eq!(cancel.path, "/v1/billing/subscriptions/sub_1/cancel");
    assert_eq!(p.resume_subscription_request("s").path, "/v1/billing/subscriptions/s/activate");
}

#[test]
fn paypal_cancel_subscription_refuses_end_of_period() {
    let err = provider().cancel_subscription_request("sub_1", false).unwrap_err();
    assert!(matches!(err, PaymentError::Unsupported(_)), "got {err:?}");
}

const EVENT: &str = r#"{"id":"WH-1","event_type":"PAYMENT.CAPTURE.COMPLETED","resource":{"amount":{"value":"999.00"}}}"#;

const SIGNED_HEADERS: [(&str, &str); 5] = [
    (PAYPAL_AUTH_ALGO_HEADER, "SHA256withRSA"),
    (PAYPAL_CERT_URL_HEADER, "https://api.paypal.com/v1/notifications/certs/CERT-1"),
    (PAYPAL_TRANSMISSION_ID_HEADER, "transmission-1"),
    (PAYPAL_TRANSMISSION_SIG_HEADER, "c2lnbmF0dXJl"),
    (PAYPAL_TRANSMISSION_TIME_HEADER, "2026-07-20T00:00:00Z"),
];

fn headers() -> WebhookHeaders {
    let mut all = WebhookHeaders::new();
    for (name, value) in SIGNED_HEADERS {
        all.insert(name, value);
    }
    all
}

fn webhook_provider() -> PayPalProvider {
    provider().with_webhook_id("WEBHOOK-ID-1")
}

fn verdict(status: &str) -> Option<PayPalVerifyResponse> {
    Some(PayPalVerifyResponse { verification_status: status.into() })
}

#[test]
fn paypal_accepts_a_webhook_paypal_confirms() {
    assert!(webhook_provider().verify_webhook_result(200, verdict("SUCCESS")).is_ok());
    let event = webhook_provider().handle_webhook(200, verdict("SUCCESS"), event(None)).unwrap();
    assert_eq!(event.id, "WH-1");
}

#[test]
fn paypal_rejects_a_webhook_paypal_does_not_confirm() {
    let p = webhook_provider();
    for (status, answer) in [
        (200, verdict("FAILURE")),
        (200, verdict("")),
        (200, verdict("success")),
        (200, None),
        (500, verdict("SUCCESS")),
        (401, verdict("SUCCESS")),
        (199, verdict("SUCCESS")),
    ] {
        let err = p.handle_webhook(status, answer, event(None)).unwrap_err();
        assert!(matches!(err, PaymentError::InvalidWebhookSignature), "got {err:?}");
    }
}

#[test]
fn paypal_rejects_when_any_single_signed_header_is_missing() {
    for (omitted, _) in SIGNED_HEADERS {
        let mut some = WebhookHeaders::new();
        for (name, value) in SIGNED_HEADERS {
            if name != omitted {
                some.insert(name, value);
            }
        }
        let err = webhook_provider().verify_webhook_request(EVENT.as_bytes(), &some).unwrap_err();
        assert!(matches!(err, PaymentError::InvalidWebhookSignature), "omitting {omitted}: {err:?}");
    }
}

#[test]
fn paypal_requires_a_configured_webhook_id() {
    let err = provider().verify_webhook_request(EVENT.as_bytes(), &headers()).unwrap_err();
    assert!(matches!(err, PaymentError::Config(_)), "got {err:?}");
}

#[test]
fn oversized_webhook_is_rejected_before_the_network_call() {
    let payload = vec![b'x'; MAX_WEBHOOK_BODY + 1];
    let err = webhook_provider().verify_webhook_request(&payload, &headers()).unwrap_err();
    assert!(matches!(err, PaymentError::InvalidWebhookSignature), "got {err:?}");
    let mut largest = vec![b' '; MAX_WEBHOOK_BODY];
    largest[0] = b'1';
    assert_eq!(webhook_provider().verify_webhook_request(&largest, &headers()).unwrap().webhook_event, "1");
}

#[test]
fn a_body_that_is_no_json_text_is_rejected() {
    for payload in [&b"not json"[..], &b"{} {}"[..], &b"\"\xff\""[..], &b""[..]] {
        let err = webhook_provider().verify_webhook_request(payload, &headers()).unwrap_err();
        assert!(matches!(err, PaymentError::InvalidWebhookSignature), "got {err:?}");
    }
}

#[test]
fn paypal_forwards_the_webhook_id_and_headers_to_paypal() {
    let q = webhook_provider().verify_webhook_request(EVENT.as_bytes(), &headers()).unwrap();
    assert_eq!(PAYPAL_VERIFY_PATH, "/v1/notifications/verify-webhook-signature");
    assert_eq!(q.webhook_id, "WEBHOOK-ID-1");
    assert_eq!(q.transmission_id, "transmission-1");
    assert_eq!(q.transmission_sig, "c2lnbmF0dXJl");
    assert_eq!(q.transmission_time, "2026-07-20T00:00:00Z");
    assert_eq!(q.auth_algo, "SHA256withRSA");
    assert_eq!(q.cert_url, "https://api.paypal.com/v1/notifications/certs/CERT-1");
    assert_eq!(q.webhook_event, EVENT);
}

#[test]
fn paypal_forwards_the_exact_bytes_paypal_signed() {
    let odd = r#"{"resource":{"amount":{"value":"999.00"}}, "id"  :  "WH-1",   "event_type":"PAYMENT.CAPTURE.COMPLETED"}"#;
    let q = webhook_provider().verify_webhook_request(odd.as_bytes(), &headers()).unwrap();
    assert_eq!(q.webhook_event, odd);
    let padded = format!(" \r\n{odd}\t");
    let q = webhook_provider().verify_webhook_request(padded.as_bytes(), &headers()).unwrap();
    assert_eq!(q.webhook_event, odd);
}
