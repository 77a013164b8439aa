//! Braintree: transactions, the vault, subscriptions and notifications.
use armature_payments::gateway::{Body, GatewayReply, GatewayRequest, Method};
use armature_payments::json::Json;
use armature_payments::providers::braintree::{
    transaction_amount, transaction_charge_status, transaction_currency, transaction_refund_status,
    BraintreeTransaction, BRAINTREE_SIGNATURE_HEADER,
};
use armature_payments::providers::braintree_vault::{
    BraintreeCreditCard, BraintreeCustomer, BraintreePayPalAccount, BraintreePaymentMethod, BraintreeSubscription,
};
use armature_payments::providers::notification::{parse_notification_xml, parse_webhook_at};
use armature_payments::providers::BraintreeProvider;
use armature_payments::xml::MAX_XML_DEPTH;
use armature_payments::{
    CardDetails, ChargeRequest, ChargeStatus, CreateCustomerRequest, CreatePaymentMethodRequest,
    CreateSubscriptionRequest, Currency, Money, PaymentError, PaymentMethodType, PaymentProvider, PaymentSource,
    RefundRequest, RefundStatus, StringMap, SubscriptionStatus, Timestamp, UpdateCustomerRequest, WebhookData,
    WebhookHeaders,
};
use base64::engine::general_purpose::STANDARD;
use base64::Engine;
use hmac::{Hmac, KeyInit, Mac};
use sha1::{Digest, Sha1};

fn provider() -> BraintreeProvider {
    BraintreeProvider::new("merchant123", "pubkey", "privkey").expect("builds")
}

fn reply(status: u16, body: &str) -> GatewayReply {
    GatewayReply { status, retry_after: None, body: body.to_string() }
}

fn document(request: &GatewayRequest) -> &Json {
    match &request.body {
        Body::Json(json) => json,
        other => panic!("expected JSON, got {other:?}"),
    }
}

fn text_at<'a>(json: &'a Json, path: &[&str]) -> Option<&'a str> {
    let mut here = json;
    for name in path {
        here = here.get(name)?;
    }
    here.as_str()
}

fn txn(amount: &str, iso: &str, status: &str) -> BraintreeTransaction {
    BraintreeTransaction {
        id: "tx_1".into(),
        amount: amount.into(),
        status: status.into(),
        currency_iso_code: Some(iso.into()),
        customer_id: None,
        payment_method_token: None,
        processor_response_text: None,
        created_at: None,
    }
}

fn notification_payload(kind: &str) -> Vec<u8> {
    let xml = format!(
        r#"<?xml version="1.0" encoding="UTF-8"?>
<notification>
  <timestamp type="datetime">2024-03-01T10:15:30Z</timestamp>
  <kind>{kind}</kind>
  <subject>
    <subscription>
      <id>sub_42</id>
      <status>Active</status>
      <never-expires type="boolean">false</never-expires>
      <balance nil="true"/>
    </subscription>
  </subject>
</notification>"#
    );
    STANDARD.encode(xml).into_bytes()
}

#[test]
fn parse_webhook_decodes_base64_xml() {
    let payload = notification_payload("subscription_charged_successfully");
    let event = provider().parse_webhook(&payload).expect("parses");

    assert_eq!(event.provider, "braintree");
    assert_eq!(event.created_at, Timestamp { secs: 1_709_288_130, nanos: 0 });

    let WebhookData::Generic(subject) = &event.data else {
        panic!("expected generic webhook data");
    };
    assert_eq!(text_at(subject, &["subscription", "id"]), Some("sub_42"));
    assert_eq!(text_at(subject, &["subscription", "status"]), Some("Active"));
    let balance = subject.get("subscription").and_then(|s| s.get("balance"));
    assert!(matches!(balance, Some(Json::Null)));
}

#[test]
fn parse_webhook_rejects_raw_json() {
    let err = provider().parse_webhook(br#"{"kind":"check","subject":{}}"#).unwrap_err();
    assert!(matches!(err, PaymentError::Serialization(_)), "got {err:?}");
}

#[test]
fn parse_webhook_rejects_non_notification_root() {
    let payload = STANDARD.encode("<other><kind>check</kind></other>").into_bytes();
    assert!(provider().parse_webhook(&payload).is_err());
}

#[test]
fn parse_webhook_event_id_is_stable_across_redeliveries() {
    let payload = notification_payload("subscription_canceled");
    let first = provider().parse_webhook(&payload).unwrap();
    let second = provider().parse_webhook(&payload).unwrap();
    assert_eq!(first.id, second.id);

    let other = provider().parse_webhook(&notification_payload("subscription_expired")).unwrap();
    assert_ne!(first.id, other.id);

    let mut wrapped = payload.clone();
    wrapped.insert(40, b'\n');
    wrapped.push(b' ');
    assert_eq!(provider().parse_webhook(&wrapped).unwrap().id, first.id);
    assert_eq!(first.id.len(), 67);
    assert!(first.id.starts_with("bt_"));
}

#[test]
fn a_notification_without_a_timestamp_is_stamped_on_arrival() {
    let payload = STANDARD.encode("<notification><kind>check</kind></notification>").into_bytes();
    let now = Timestamp { secs: 77, nanos: 3 };
    let event = parse_webhook_at(&payload, now).unwrap();
    assert_eq!(event.created_at, now);
    assert!(matches!(event.data, WebhookData::Generic(Json::Null)));
    assert!(event.livemode);
}

fn sign(private_key: &str, payload: &[u8]) -> String {
    let key = Sha1::digest(private_key.as_bytes());
    let mut mac = Hmac::<Sha1>::new_from_slice(&key).unwrap();
    mac.update(payload);
    hex::encode(mac.finalize().into_bytes())
}

#[test]
fn verify_webhook_authenticates_the_bytes_parse_webhook_reads() {
    let provider = provider();
    let payload = notification_payload("subscription_charged_successfully");
    let signature = format!("pubkey|{}", sign("privkey", &payload));
    let headers = WebhookHeaders::new().with(BRAINTREE_SIGNATURE_HEADER, &signature);
    provider.verify_webhook(&payload, &headers).expect("signature over bt_payload verifies");
    provider.parse_webhook(&payload).expect("same bytes parse");
    let event = provider.handle_webhook(&payload, &headers).expect("verified and parsed");
    assert_eq!(event.provider, "braintree");
}

const EVENT: &str = r#"{"kind":"transaction_settled","subject":{"transaction":{"id":"tx_1"}}}"#;

const PUBLIC_KEY: &str = "pub_key_1";

const PRIVATE_KEY: &str = "priv_key_1";

fn signed_provider() -> BraintreeProvider {
    BraintreeProvider::new("merchant-1", PUBLIC_KEY, PRIVATE_KEY).expect("builds")
}

fn verify(payload: &str, signature: &str) -> Result<(), PaymentError> {
    let headers = WebhookHeaders::single(BRAINTREE_SIGNATURE_HEADER, signature);
    signed_provider().verify_webhook(payload.as_bytes(), &headers)
}

#[test]
fn braintree_accepts_a_correctly_signed_webhook() {
    let signature = format!("{PUBLIC_KEY}|{}", sign(PRIVATE_KEY, EVENT.as_bytes()));
    verify(EVENT, &signature).expect("must verify");
}

#[test]
fn braintree_selects_the_pair_matching_its_public_key() {
    let other = sign("some-other-private-key", EVENT.as_bytes());
    let own = sign(PRIVATE_KEY, EVENT.as_bytes());
    verify(EVENT, &format!("other_key|{other},{PUBLIC_KEY}|{own}")).expect("comma-separated");
    verify(EVENT, &format!("other_key|{other}&{PUBLIC_KEY}|{own}")).expect("ampersand-separated");
}

#[test]
fn braintree_rejects_a_tampered_payload() {
    let signature = format!("{PUBLIC_KEY}|{}", sign(PRIVATE_KEY, EVENT.as_bytes()));
    let tampered = EVENT.replace("tx_1", "tx_attacker");
    let err = verify(&tampered, &signature).unwrap_err();
    assert!(matches!(err, PaymentError::InvalidWebhookSignature));
}

#[test]
fn braintree_rejects_a_signature_from_the_wrong_private_key() {
    let signature = format!("{PUBLIC_KEY}|{}", sign("attacker-guessed-key", EVENT.as_bytes()));
    let err = verify(EVENT, &signature).unwrap_err();
    assert!(matches!(err, PaymentError::InvalidWebhookSignature));
}

#[test]
fn braintree_rejects_when_no_pair_matches_our_public_key() {
    let signature = format!("someone_elses_key|{}", sign(PRIVATE_KEY, EVENT.as_bytes()));
    let err = verify(EVENT, &signature).unwrap_err();
    assert!(matches!(err, PaymentError::InvalidWebhookSignature));
}

#[test]
fn braintree_rejects_absent_and_malformed_signatures() {
    let err = signed_provider().verify_webhook(EVENT.as_bytes(), &WebhookHeaders::new()).unwrap_err();
    assert!(matches!(err, PaymentError::InvalidWebhookSignature));
    for signature in ["", "no-pipe-separator", "pub_key_1|zzzz"] {
        let err = verify(EVENT, signature).unwrap_err();
        assert!(matches!(err, PaymentError::InvalidWebhookSignature));
    }
}

#[test]
fn braintree_rejects_empty_credentials_instead_of_a_forged_signature() {
    let provider = BraintreeProvider::new("merchant-1", "", "").expect("builds");
    let forged = format!("|{}", sign("", EVENT.as_bytes()));
    let headers = WebhookHeaders::single(BRAINTREE_SIGNATURE_HEADER, &forged);
    let err = provider.verify_webhook(EVENT.as_bytes(), &headers).unwrap_err();
    assert!(matches!(err, PaymentError::Config(_)), "got {err:?}");
}

#[test]
fn processor_does_not_parse_a_forged_braintree_webhook() {
    let err = signed_provider().handle_webhook(EVENT.as_bytes(), &WebhookHeaders::new()).unwrap_err();
    assert!(matches!(err, PaymentError::InvalidWebhookSignature));
}

#[test]
fn refund_status_is_mapped_not_hardcoded() {
    assert_eq!(transaction_refund_status("settled"), RefundStatus::Succeeded);
    assert_eq!(transaction_refund_status("settling"), RefundStatus::Succeeded);
    assert_eq!(transaction_refund_status("submitted_for_settlement"), RefundStatus::Pending);
    assert_eq!(transaction_refund_status("processor_declined"), RefundStatus::Failed);
    assert_eq!(transaction_refund_status("gateway_rejected"), RefundStatus::Failed);
    assert_eq!(transaction_refund_status("failed"), RefundStatus::Failed);
    assert_eq!(transaction_refund_status("voided"), RefundStatus::Canceled);
}

#[test]
fn charge_status_maps_declines_to_failed() {
    assert_eq!(transaction_charge_status("settled"), ChargeStatus::Succeeded);
    assert_eq!(transaction_charge_status("processor_declined"), ChargeStatus::Failed);
    assert_eq!(transaction_charge_status("authorization_expired"), ChargeStatus::Pending);
}

#[test]
fn a_malformed_transaction_amount_is_an_error_not_zero() {
    for bad in ["", "N/A", "12,50", "1.2.3", "$120.00", "abc"] {
        let err = transaction_amount(&txn(bad, "USD", "settled")).unwrap_err();
        assert!(matches!(err, PaymentError::Serialization(_)), "got {err:?}");
        assert!(err.to_string().contains("unparseable"), "got {err:?}");
        assert!(err.to_string().contains("tx_1"), "got {err:?}");
    }
    assert!(transaction_amount(&txn("120.005", "USD", "settled")).is_err());
    assert!(transaction_amount(&txn("1000.50", "JPY", "settled")).is_err());
}

#[test]
fn braintree_a_well_formed_transaction_amount_is_exact() {
    assert_eq!(transaction_amount(&txn("120.00", "EUR", "settled")).unwrap(), Money::eur(12000));
    assert_eq!(transaction_amount(&txn("0.29", "USD", "settled")).unwrap(), Money::usd(29));
    assert_eq!(
        transaction_amount(&txn("1000", "JPY", "settled")).unwrap(),
        Money::new(1000, Currency::JPY)
    );
}

#[test]
fn transaction_currency_is_read_from_the_gateway() {
    assert_eq!(transaction_currency(Some("EUR")), Currency::EUR);
    assert_eq!(transaction_currency(Some("JPY")), Currency::JPY);
    assert_eq!(transaction_currency(None), Currency::USD);
    assert_eq!(transaction_currency(Some("nonsense")), Currency::USD);
}

#[test]
fn charge_rejects_unroutable_payment_sources() {
    for source in [PaymentSource::customer("cust_1"), PaymentSource::Bank { token: "bank_1".into() }] {
        let err = provider().charge_request(&ChargeRequest::new(Money::usd(1000), source)).unwrap_err();
        assert!(matches!(err, PaymentError::Validation(_)), "got {err:?}");
    }
}

#[test]
fn braintree_cancel_subscription_refuses_end_of_period() {
    let err = provider().cancel_subscription_request("sub_1", false).unwrap_err();
    assert!(matches!(err, PaymentError::Unsupported(_)), "got {err:?}");
    let sent = provider().cancel_subscription_request("sub_1", true).unwrap();
    assert_eq!(sent.path, "/subscriptions/sub_1/cancel");
}

#[test]
fn resume_subscription_is_unsupported() {
    let err = provider().resume_subscription_request().unwrap_err();
    assert!(matches!(err, PaymentError::Unsupported(_)), "got {err:?}");
}

#[test]
fn does_not_claim_idempotency_support() {
    assert!(!provider().supports_idempotency());
    assert_eq!(provider().auth_header(), "Basic cHVia2V5OnByaXZrZXk=");
}

fn subscription(never: Option<bool>) -> BraintreeSubscription {
    BraintreeSubscription {
        id: "s".into(),
        status: "Active".into(),
        plan_id: None,
        quantity: None,
        billing_period_start_day: None,
        billing_period_end_day: None,
        created_at: None,
        never_expires: never,
    }
}

#[test]
fn never_expires_maps_to_cancel_at_period_end() {
    assert!(subscription(Some(false)).into_subscription().cancel_at_period_end);
    assert!(!subscription(Some(true)).into_subscription().cancel_at_period_end);
    assert!(!subscription(None).into_subscription().cancel_at_period_end);
}

#[test]
fn subscription_reports_braintrees_real_billing_period() {
    let mut sub = subscription(None);
    sub.plan_id = Some("plan_pro".into());
    sub.quantity = Some(4);
    sub.billing_period_start_day = Some(20_635);
    sub.billing_period_end_day = Some(20_665);
    let sub = provider().subscription_result("sub_1", &reply(200, "{}"), Ok(sub)).unwrap();
    assert_eq!(sub.price_id, "plan_pro");
    assert_eq!(sub.quantity, 4);
    assert_eq!(sub.current_period_start, Some(Timestamp { secs: 1_782_864_000, nanos: 0 }));
    assert_eq!(sub.current_period_end, Some(Timestamp { secs: 1_785_542_399, nanos: 0 }));
    let err = provider().subscription_result("sub_1", &reply(404, ""), Err("x".into())).unwrap_err();
    assert!(matches!(err, PaymentError::SubscriptionNotFound(id) if id == "sub_1"));
}

#[test]
fn braintree_subscription_leaves_unreported_fields_none() {
    let mut sub = subscription(None);
    sub.status = "Pending".into();
    let sub = sub.into_subscription();
    assert_eq!(sub.status, SubscriptionStatus::Incomplete);
    assert!(sub.current_period_start.is_none());
    assert!(sub.current_period_end.is_none());
    assert!(sub.created_at.is_none());
    assert!(sub.customer_id.is_none());
}

#[test]
fn a_subscription_is_created_with_what_was_asked_for() {
    let mut request = CreateSubscriptionRequest::new("cus_1", "plan_1").quantity(2);
    request.payment_method = Some("pm_1".into());
    let sent = provider().create_subscription_request(&request);
    assert_eq!(text_at(document(&sent), &["subscription", "plan_id"]), Some("plan_1"));
    assert_eq!(text_at(document(&sent), &["subscription", "payment_method_token"]), Some("pm_1"));
    let made = provider().create_subscription_result(request, &reply(201, "{}"), Ok(subscription(None))).unwrap();
    assert_eq!(made.customer_id.as_deref(), Some("cus_1"));
    assert_eq!(made.price_id, "plan_1");
    assert_eq!(made.quantity, 2);
}

#[test]
fn repeated_elements_collapse_into_an_array() {
    let xml = br#"<notification><kind>check</kind><subject>
        <items><item>a</item><item>b</item></items>
    </subject></notification>"#;
    let parsed = parse_notification_xml(xml).unwrap();
    match parsed.subject.get("items").and_then(|i| i.get("item")) {
        Some(Json::Array(items)) => {
            assert_eq!(items[0].as_str(), Some("a"));
            assert_eq!(items[1].as_str(), Some("b"));
            assert_eq!(items.len(), 2);
        }
        other => panic!("expected an array, got {other:?}"),
    }
}

#[test]
fn an_empty_collection_is_an_empty_array_however_it_is_written() {
    let xml = br#"<notification><kind>check</kind><subject>
        <opened type="array"></opened><spaced type="array"> </spaced><short type="array"/>
        <worded type="array">none</worded><gone type="array" nil="true"></gone><text></text>
    </subject></notification>"#;
    let subject = parse_notification_xml(xml).unwrap().subject;
    for name in ["opened", "spaced", "short"] {
        match subject.get(name) {
            Some(Json::Array(items)) => assert!(items.is_empty(), "{name}: got {items:?}"),
            other => panic!("{name}: expected an empty array, got {other:?}"),
        }
    }
    assert_eq!(text_at(&subject, &["worded"]), Some("none"));
    assert!(matches!(subject.get("gone"), Some(Json::Null)));
    assert_eq!(text_at(&subject, &["text"]), Some(""));
}

#[test]
fn missing_kind_is_an_error() {
    let xml = br#"<notification><subject/></notification>"#;
    assert!(parse_notification_xml(xml).is_err());
}

#[test]
fn deep_nesting_is_bounded() {
    let mut xml = String::from("<notification><kind>check</kind><subject>");
    for _ in 0..(MAX_XML_DEPTH + 10) {
        xml.push_str("<a>");
    }
    for _ in 0..(MAX_XML_DEPTH + 10) {
        xml.push_str("</a>");
    }
    xml.push_str("</subject></notification>");
    assert!(parse_notification_xml(xml.as_bytes()).is_err());
}

#[test]
fn xml_documents_are_read_element_by_element() {
    let xml = br#"<?xml version="1.0"?><!-- hello --><ns:notification>
        <kind>c&amp;d</kind>
        <subject><list type="array"><x>1</x><y>2</y></list><gone nil="true">text</gone>
        <raw><![CDATA[<b>]]></raw><empty/></subject>
    </ns:notification>"#;
    let parsed = parse_notification_xml(xml).unwrap();
    assert_eq!(parsed.kind, "c&d");
    assert_eq!(parsed.timestamp, None);
    match parsed.subject.get("list") {
        Some(Json::Array(items)) => assert_eq!(items.len(), 2),
        other => panic!("expected an array, got {other:?}"),
    }
    assert!(matches!(parsed.subject.get("gone"), Some(Json::Null)));
    assert_eq!(text_at(&parsed.subject, &["raw"]), Some("<b>"));
    assert_eq!(text_at(&parsed.subject, &["empty"]), Some(""));
    assert!(parse_notification_xml(b"<notification><kind>x</kind>").is_err());
    assert!(parse_notification_xml(b"").is_err());
}

#[test]
fn create_payment_method_refuses_raw_card_details() {
    let card = CardDetails { number: "4111111111111111".into(), exp_month: 12, exp_year: 2030, cvc: "123".into() };
    let err = provider().create_payment_method_request(&CreatePaymentMethodRequest::card(card)).unwrap_err();
    assert!(matches!(&err, PaymentError::Validation(m) if m.contains("nonce")), "got {err:?}");
}

#[test]
fn create_payment_method_forwards_the_client_nonce() {
    let request = CreatePaymentMethodRequest::nonce("tokencc_bh_real_nonce");
    let sent = provider().create_payment_method_request(&request).unwrap();
    assert_eq!(sent.path, "/payment_methods");
    assert_eq!(
        text_at(document(&sent), &["payment_method", "payment_method_nonce"]),
        Some("tokencc_bh_real_nonce")
    );
    let made = BraintreePaymentMethod {
        token: "pm_tok_1".into(),
        customer_id: Some("cus_1".into()),
        card_type: Some("Visa".into()),
        last_4: Some("4242".into()),
        expiration_month: Some(12),
        expiration_year: Some(2030),
        created_at: None,
    };
    let method = provider().create_payment_method_result(&reply(200, "{}"), Ok(made)).unwrap();
    assert_eq!(method.id, "pm_tok_1");
    assert_eq!(method.card.unwrap().last4, "4242");
}

#[test]
fn partial_capture_sends_the_amount() {
    let sent = provider().capture_request("tx_1", Some(Money::usd(1250)));
    assert_eq!(sent.method, Method::Put);
    assert_eq!(sent.path, "/transactions/tx_1/submit_for_settlement");
    assert_eq!(text_at(document(&sent), &["transaction", "amount"]), Some("12.50"));
}

#[test]
fn full_capture_omits_the_amount() {
    let sent = provider().capture_request("tx_1", None);
    assert!(document(&sent).get("transaction").unwrap().get("amount").is_none());
}

#[test]
fn list_payment_methods_parses_the_vaulted_methods() {
    let card = |token: &str, brand: &str, last4: &str, month: &str, year: &str| BraintreeCreditCard {
        token: token.into(),
        card_type: Some(brand.into()),
        last_4: Some(last4.into()),
        expiration_month: Some(month.into()),
        expiration_year: Some(year.into()),
        created_at: None,
    };
    let customer = BraintreeCustomer {
        id: "cus_1".into(),
        email: Some("a@b.test".into()),
        first_name: Some("A".into()),
        last_name: Some("B".into()),
        phone: None,
        credit_cards: vec![
            card("card_1", "Visa", "4242", "12", "2030"),
            card("card_2", "MasterCard", "5454", "01", "2029"),
        ],
        paypal_accounts: vec![BraintreePayPalAccount {
            token: "pp_1".into(),
            email: Some("payer@b.test".into()),
            created_at: None,
        }],
        created_at: None,
    };
    let methods = provider().list_payment_methods_result("cus_1", &reply(200, "{}"), Ok(customer)).unwrap();
    assert_eq!(methods.len(), 3);
    let first = &methods[0];
    assert_eq!(first.id, "card_1");
    assert_eq!(first.method_type, PaymentMethodType::Card);
    assert_eq!(first.customer_id.as_deref(), Some("cus_1"));
    let card = first.card.as_ref().expect("card details");
    assert_eq!(card.brand, "Visa");
    assert_eq!(card.last4, "4242");
    assert_eq!(card.exp_month, 12);
    assert_eq!(card.exp_year, 2030);
    let paypal = methods.iter().find(|m| m.id == "pp_1").expect("paypal account");
    assert_eq!(paypal.method_type, PaymentMethodType::Paypal);
    assert_eq!(
        paypal.billing_details.as_ref().and_then(|b| b.email.as_deref()),
        Some("payer@b.test")
    );
}

#[test]
fn list_payment_methods_distinguishes_auth_and_throttle_from_a_missing_customer() {
    let listed = |status| {
        provider().list_payment_methods_result("cus_1", &reply(status, r#"{"message":"x"}"#), Err("x".into()))
    };
    assert!(matches!(listed(401).unwrap_err(), PaymentError::Authentication(_)));
    assert!(matches!(listed(429).unwrap_err(), PaymentError::RateLimited(1)));
    assert!(matches!(listed(404).unwrap_err(), PaymentError::CustomerNotFound(id) if id == "cus_1"));
}

#[test]
fn capture_reads_the_currency_and_status_from_the_transaction() {
    let p = provider();
    let charge = p.capture_result("tx_1", &reply(200, "{}"), Ok(txn("12.50", "EUR", "settling"))).unwrap();
    assert_eq!(charge.amount, Money::eur(1250));
    let declined = p.capture_result("tx_1", &reply(200, "{}"), Ok(txn("12.50", "USD", "processor_declined"))).unwrap();
    assert_eq!(declined.status, ChargeStatus::Failed);
    assert!(!declined.captured);
}

#[test]
fn refund_reports_what_the_transaction_says() {
    let p = provider();
    let request = || RefundRequest::new("tx_1");
    let pending = p.refund_result(request(), &reply(200, "{}"), Ok(txn("12.50", "USD", "submitted_for_settlement")));
    assert_eq!(pending.unwrap().status, RefundStatus::Pending);
    let settled = p.refund_result(request(), &reply(200, "{}"), Ok(txn("12.50", "EUR", "settled"))).unwrap();
    assert_eq!(settled.status, RefundStatus::Succeeded);
    assert_eq!(settled.amount, Money::eur(1250));
    let err = p.refund_result(request(), &reply(201, "{}"), Ok(txn("not-a-number", "USD", "settled"))).unwrap_err();
    assert!(matches!(err, PaymentError::Serialization(_)), "got {err:?}");
}

#[test]
fn charges_carry_exact_amounts_and_the_right_instrument() {
    let p = provider();
    let yen = ChargeRequest::new(Money::new(1000, Currency::JPY), PaymentSource::card("tok_1"));
    let sent = p.charge_request(&yen).unwrap();
    assert_eq!(sent.path, "/transactions");
    assert_eq!(text_at(document(&sent), &["transaction", "amount"]), Some("1000"));
    assert_eq!(text_at(document(&sent), &["transaction", "payment_method_nonce"]), Some("tok_1"));
    let vaulted = ChargeRequest::new(Money::usd(1000), PaymentSource::payment_method("pm_tok_9"));
    let sent = p.charge_request(&vaulted).unwrap();
    assert_eq!(text_at(document(&sent), &["transaction", "amount"]), Some("10.00"));
    assert_eq!(text_at(document(&sent), &["transaction", "payment_method_token"]), Some("pm_tok_9"));
    assert_eq!(text_at(document(&sent), &["transaction", "payment_method_nonce"]), None);
    let err = p.charge_result(vaulted, &reply(201, "{}"), Ok(txn("N/A", "USD", "settled"))).unwrap_err();
    match err {
        PaymentError::Serialization(msg) => {
            assert!(msg.contains("unparseable") && msg.contains("tx_1") && msg.contains("reconcile"), "{msg}");
        }
        other => panic!("expected Serialization, got {other:?}"),
    }
}

#[test]
fn customers_are_created_and_changed() {
    let p = provider();
    let sent = p.create_customer_request(&CreateCustomerRequest::with_email("a@b.test").name("Ann Marie Lee"));
    assert_eq!(sent.path, "/customers");
    assert_eq!(text_at(document(&sent), &["customer", "email"]), Some("a@b.test"));
    assert_eq!(text_at(document(&sent), &["customer", "first_name"]), Some("Ann"));
    assert_eq!(text_at(document(&sent), &["customer", "last_name"]), Some("Marie Lee"));
    let change = UpdateCustomerRequest { phone: Some("2".into()), ..Default::default() };
    let sent = p.update_customer_request("c", &change);
    assert_eq!(sent.method, Method::Put);
    assert_eq!(text_at(document(&sent), &["customer", "phone"]), Some("2"));
    assert_eq!(p.get_customer_request("c").path, "/customers/c");
    assert!(matches!(
        p.delete_customer_result("c", &reply(404, "")),
        Err(PaymentError::CustomerNotFound(id)) if id == "c"
    ));
    let read = BraintreeCustomer {
        id: "c".into(),
        email: None,
        first_name: Some("Ann".into()),
        last_name: Some("Lee".into()),
        phone: None,
        credit_cards: vec![],
        paypal_accounts: vec![],
        created_at: Some(Timestamp { secs: 4, nanos: 0 }),
    };
    let customer = p.customer_result("c", StringMap::new(), &reply(200, "{}"), Ok(read)).unwrap();
    assert_eq!(customer.name.as_deref(), Some("Ann Lee"));
    assert_eq!(customer.created_at.secs, 4);
}
