//! Requests, statuses, headers, event types, payloads and routing.
use armature_payments::json::{Json, Number};
use armature_payments::{
    ChargeRequest, Money, PaymentError, PaymentSource, SubscriptionStatus, Timestamp, WebhookData, WebhookEvent,
    WebhookEventType, WebhookHeaders, WebhookRouter,
};
use serde_json::Value;
use std::collections::HashMap;

fn json(value: &Value) -> Json {
    match value {
        Value::Null => Json::Null,
        Value::Bool(b) => Json::Bool(*b),
        Value::Number(n) => Json::Number(match (n.as_u64(), n.as_i64()) {
            (Some(n), _) => Number::PosInt(n),
            (_, Some(n)) => Number::NegInt(n),
            _ => Number::Float(n.to_string()),
        }),
        Value::String(s) => Json::Text(s.clone()),
        Value::Array(items) => Json::Array(items.iter().map(json).collect()),
        Value::Object(members) => Json::Object(members.iter().map(|(k, v)| (k.clone(), json(v))).collect()),
    }
}

fn parse(text: &str) -> Json {
    json(&serde_json::from_str(text).unwrap())
}

#[test]
fn test_charge_request() {
    let req = ChargeRequest::new(Money::usd(2999), PaymentSource::card("tok_visa"))
        .description("Test charge")
        .metadata("order_id", "12345");

    assert_eq!(req.amount.amount, 2999);
    assert_eq!(req.description, Some("Test charge".to_string()));
    assert_eq!(req.metadata.get("order_id"), Some(&"12345".to_string()));
}

#[test]
fn test_subscription_status() {
    assert!(SubscriptionStatus::Active.is_active());
    assert!(SubscriptionStatus::Trialing.is_active());
    assert!(!SubscriptionStatus::Canceled.is_active());
    assert!(SubscriptionStatus::PastDue.needs_attention());
}

#[test]
fn test_event_type_parsing() {
    assert_eq!(WebhookEventType::from_str("charge.succeeded"), WebhookEventType::ChargeSucceeded);
    assert_eq!(
        WebhookEventType::from_str("customer.subscription.created"),
        WebhookEventType::SubscriptionCreated
    );
    assert!(matches!(WebhookEventType::from_str("unknown.event"), WebhookEventType::Unknown(_)));
}

#[test]
fn test_event_type_categories() {
    assert!(WebhookEventType::ChargeSucceeded.is_charge_event());
    assert!(!WebhookEventType::ChargeSucceeded.is_subscription_event());
    assert!(WebhookEventType::SubscriptionCreated.is_subscription_event());
    assert!(WebhookEventType::InvoicePaid.is_invoice_event());
}

#[test]
fn an_event_type_is_read_back_from_its_wire_name() {
    for t in [
        WebhookEventType::ChargeDisputed,
        WebhookEventType::PaymentIntentFailed,
        WebhookEventType::SubscriptionTrialEnding,
        WebhookEventType::DisputeClosed,
        WebhookEventType::Unknown("vendor.custom".into()),
    ] {
        assert_eq!(WebhookEventType::from_str(t.wire_name()), t);
    }
}

#[test]
fn webhook_header_lookup_is_case_insensitive() {
    let headers = WebhookHeaders::single("Stripe-Signature", "t=1,v1=ab");
    assert_eq!(headers.get("stripe-signature"), Some("t=1,v1=ab"));
    assert_eq!(headers.get("STRIPE-SIGNATURE"), Some("t=1,v1=ab"));
    assert!(headers.get("missing").is_none());
    assert!(WebhookHeaders::new().is_empty());
}

#[test]
fn a_later_header_replaces_an_earlier_one_of_any_case() {
    let pairs = [
        ("Stripe-Signature".to_string(), "old".to_string()),
        ("Content-Type".to_string(), "application/json".to_string()),
        ("stripe-signature".to_string(), "new".to_string()),
    ];
    let headers = WebhookHeaders::from_pairs(&pairs);
    assert_eq!(headers.len(), 2);
    assert_eq!(headers.get("STRIPE-signature"), Some("new"));
    assert_eq!(headers.get("content-type"), Some("application/json"));
    assert_eq!(headers.require("content-TYPE").unwrap(), "application/json");
    assert!(matches!(headers.require("absent"), Err(PaymentError::InvalidWebhookSignature)));
}

/// The header set of a plain map, as it comes off the wire.
fn from_wire(map: HashMap<String, String>) -> WebhookHeaders {
    let pairs: Vec<(String, String)> = map.into_iter().collect();
    WebhookHeaders::from_pairs(&pairs)
}

/// The plain map that goes onto the wire.
fn to_wire(headers: WebhookHeaders) -> HashMap<String, String> {
    headers.into_map().entries().iter().cloned().collect()
}

#[test]
fn test_webhook_headers_deserialize_lowercases_keys() {
    let mut wrapper: HashMap<String, HashMap<String, String>> =
        serde_json::from_str(r#"{"headers":{"Stripe-Signature":"abc"}}"#).unwrap();
    let headers = from_wire(wrapper.remove("headers").unwrap());
    assert_eq!(headers.get("stripe-signature"), Some("abc"));
    assert_eq!(headers.get("Stripe-Signature"), Some("abc"));
}

#[test]
fn test_webhook_headers_serde_round_trip() {
    let headers = WebhookHeaders::new()
        .with("Stripe-Signature", "t=1,v1=abc")
        .with("Content-Type", "application/json");

    let json = serde_json::to_string(&to_wire(headers.clone())).unwrap();
    let back = from_wire(serde_json::from_str(&json).unwrap());

    assert_eq!(back.get("stripe-signature"), Some("t=1,v1=abc"));
    assert_eq!(back.get("Stripe-Signature"), Some("t=1,v1=abc"));
    assert_eq!(back.get("content-type"), Some("application/json"));
    assert_eq!(back.len(), headers.len());
}

#[test]
fn test_webhook_headers_serialize_as_bare_map() {
    let headers = WebhookHeaders::single("A-Header", "v");
    let value: serde_json::Value = serde_json::to_value(to_wire(headers)).unwrap();
    assert!(value.is_object());
    assert_eq!(value.get("a-header").and_then(|v| v.as_str()), Some("v"));
    assert!(value.get("headers").is_none());
}

#[test]
fn test_webhook_data_typed_charge() {
    let raw = parse(
        r#"{"id": "ch_123", "amount": 2999, "currency": "usd", "status": "succeeded", "customer": "cus_1"}"#,
    );
    let data = WebhookData::from_event_type(&WebhookEventType::ChargeSucceeded, raw);
    match data {
        WebhookData::Charge(c) => {
            assert_eq!(c.id, "ch_123");
            assert_eq!(c.amount, 2999);
            assert_eq!(c.customer.as_deref(), Some("cus_1"));
            assert!(c.metadata.is_empty());
        }
        other => panic!("expected Charge, got {other:?}"),
    }
}

#[test]
fn test_webhook_data_typed_subscription_and_invoice() {
    let sub = parse(r#"{"id": "sub_1", "customer": "cus_1", "status": "active"}"#);
    assert!(matches!(
        WebhookData::from_event_type(&WebhookEventType::SubscriptionCreated, sub),
        WebhookData::Subscription(_)
    ));

    let inv = parse(r#"{"id": "in_1", "customer": "cus_1", "status": "paid", "currency": "usd"}"#);
    assert!(matches!(
        WebhookData::from_event_type(&WebhookEventType::InvoicePaid, inv),
        WebhookData::Invoice(_)
    ));
}

#[test]
fn test_webhook_data_falls_back_to_generic_on_mismatch() {
    let raw = parse(r#"{"unexpected": "shape"}"#);
    let data = WebhookData::from_event_type(&WebhookEventType::ChargeSucceeded, raw);
    match data {
        WebhookData::Generic(v) => {
            assert_eq!(v.get("unexpected").and_then(|m| m.as_str()), Some("shape"));
            assert!(matches!(v, Json::Object(members) if members.len() == 1));
        }
        other => panic!("expected Generic, got {other:?}"),
    }
}

#[test]
fn test_webhook_data_unmodeled_event_types_are_generic() {
    let raw = parse(r#"{"id": "po_1"}"#);
    for et in [
        WebhookEventType::PayoutCreated,
        WebhookEventType::DisputeCreated,
        WebhookEventType::Unknown("something.else".into()),
    ] {
        assert!(matches!(WebhookData::from_event_type(&et, raw.clone()), WebhookData::Generic(_)));
    }
}

#[test]
fn typed_payloads_keep_their_fields() {
    let customer = parse(r#"{"id": "cus_1", "email": "a@b.test", "metadata": {"plan": "pro"}}"#);
    match WebhookData::from_event_type(&WebhookEventType::CustomerUpdated, customer) {
        WebhookData::Customer(c) => {
            assert_eq!(c.id, "cus_1");
            assert_eq!(c.email.as_deref(), Some("a@b.test"));
            assert_eq!(c.metadata.get("plan").map(|s| s.as_str()), Some("pro"));
        }
        other => panic!("expected Customer, got {other:?}"),
    }
    let method = parse(r#"{"id": "pm_1", "customer": null, "type": "card"}"#);
    match WebhookData::from_event_type(&WebhookEventType::PaymentMethodAttached, method) {
        WebhookData::PaymentMethod(m) => {
            assert_eq!(m.method_type, "card");
            assert_eq!(m.customer, None);
        }
        other => panic!("expected PaymentMethod, got {other:?}"),
    }
    let wrong = parse(r#"{"id": "cus_1", "metadata": {"plan": 3}}"#);
    assert!(matches!(
        WebhookData::from_event_type(&WebhookEventType::CustomerUpdated, wrong),
        WebhookData::Generic(_)
    ));
}

fn event(event_type: WebhookEventType) -> WebhookEvent {
    WebhookEvent {
        id: "evt_1".into(),
        event_type,
        created_at: Timestamp { secs: 1_700_000_000, nanos: 0 },
        data: WebhookData::Generic(Json::Null),
        provider: "stripe".into(),
        livemode: false,
    }
}

#[test]
fn router_dispatches_on_the_event_type_enum() {
    let router = WebhookRouter::new()
        .on(WebhookEventType::ChargeSucceeded, "matched")
        .on(WebhookEventType::Unknown("vendor.custom".into()), "matched")
        .default("fallback");

    let to = |t| router.route(&event(t)).copied();
    assert_eq!(to(WebhookEventType::ChargeSucceeded), Some("matched"));
    assert_eq!(to(WebhookEventType::Unknown("vendor.custom".into())), Some("matched"));
    assert_eq!(to(WebhookEventType::Unknown("vendor.other".into())), Some("fallback"));
    assert_eq!(to(WebhookEventType::PayoutPaid), Some("fallback"));
}

#[test]
fn a_later_handler_replaces_an_earlier_one_and_an_unrouted_event_is_ignored() {
    let router = WebhookRouter::new()
        .on(WebhookEventType::InvoicePaid, 1)
        .on(WebhookEventType::InvoicePaid, 2);
    assert_eq!(router.route(&event(WebhookEventType::InvoicePaid)), Some(&2));
    assert_eq!(router.route(&event(WebhookEventType::Unknown("invoice.paid".into()))), None);
}
