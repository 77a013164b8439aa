//! PayPal's webhooks.
//!
//! PayPal signs a webhook with a certificate chain that cannot be checked offline. Its body and the
//! headers of its transmission go back to PayPal, which says whether they are authentic.
use crate::clock::{self, now, reported_at, Timestamp};
use crate::error::{Fault, PaymentError, PaymentResult};
use crate::json::Json;
use crate::payload::{self, WebhookData};
use crate::providers::common;
use crate::providers::paypal::{PayPalFields, PayPalProvider};
use crate::text::{owned, same};
use crate::webhook::{self, WebhookEvent, WebhookEventType, WebhookHeaders};
use vstd::prelude::*;
use vstd::utf8::*;

verus! {

/// Headers PayPal signs each webhook transmission with. All five are required for verification.
pub const PAYPAL_AUTH_ALGO_HEADER: &'static str = "paypal-auth-algo";

/// URL of the PayPal certificate used to sign the transmission.
pub const PAYPAL_CERT_URL_HEADER: &'static str = "paypal-cert-url";

/// Unique ID of the webhook transmission.
pub const PAYPAL_TRANSMISSION_ID_HEADER: &'static str = "paypal-transmission-id";

/// Signature over the transmission.
pub const PAYPAL_TRANSMISSION_SIG_HEADER: &'static str = "paypal-transmission-sig";

/// Timestamp of the transmission.
pub const PAYPAL_TRANSMISSION_TIME_HEADER: &'static str = "paypal-transmission-time";

/// The path that a webhook is verified at, by `POST`.
pub const PAYPAL_VERIFY_PATH: &'static str = "/v1/notifications/verify-webhook-signature";

/// Largest webhook body that is sent back for verification. The body is not authenticated yet, so
/// it must not drive requests of any size.
pub const MAX_WEBHOOK_BODY: usize = 262_144;

/// Whether a text is one JSON document.
pub uninterp spec fn is_json_text(s: Seq<char>) -> bool;

/// Whether a character is white space in JSON.
pub open spec fn json_space(c: char) -> bool {
    c == ' ' || c == '\n' || c == '\t' || c == '\r'
}

/// The text without the JSON white space before it.
pub open spec fn after_space(s: Seq<char>) -> Seq<char>
    decreases s.len(),
{
    if s.len() > 0 && json_space(s[0]) {
        after_space(s.skip(1))
    } else {
        s
    }
}

/// The text without the JSON white space behind it.
pub open spec fn before_space(s: Seq<char>) -> Seq<char>
    decreases s.len(),
{
    if s.len() > 0 && json_space(s.last()) {
        before_space(s.drop_last())
    } else {
        s
    }
}

/// `serde_json::value::RawValue::from_string`: the text exactly as it is, but for the white space
/// around it, where it is one JSON document, and `None` where it is not. Whether it is one depends
/// on the text alone.
#[verifier::external_body]
fn raw_json(s: String) -> (r: Option<String>)
    ensures
        match r {
            Some(t) => is_json_text(s@) && t@ == before_space(after_space(s@)),
            None => r is None && !is_json_text(s@),
        },
{
    serde_json::value::RawValue::from_string(s).ok().map(|v| v.get().to_string())
}

/// `String::from_utf8`: the text that the bytes encode, exactly where they are UTF-8.
#[verifier::external_body]
fn utf8_text(bytes: &[u8]) -> (r: Option<String>)
    ensures
        match r {
            Some(s) => valid_utf8(bytes@) && s@ == decode_utf8(bytes@),
            None => r is None && !valid_utf8(bytes@),
        },
{
    String::from_utf8(bytes.to_vec()).ok()
}

/// What PayPal is asked to verify.
#[derive(Debug)]
pub struct PayPalVerifyRequest {
    pub auth_algo: String,
    pub cert_url: String,
    pub transmission_id: String,
    pub transmission_sig: String,
    pub transmission_time: String,
    pub webhook_id: String,
    /// The JSON text of the webhook, to be sent as it is: PayPal checks the signature over the
    /// bytes that it signed.
    pub webhook_event: String,
}

/// What a [`PayPalVerifyRequest`] says.
pub struct VerifyFields {
    pub auth_algo: Seq<char>,
    pub cert_url: Seq<char>,
    pub transmission_id: Seq<char>,
    pub transmission_sig: Seq<char>,
    pub transmission_time: Seq<char>,
    pub webhook_id: Seq<char>,
    pub webhook_event: Seq<char>,
}

impl View for PayPalVerifyRequest {
    type V = VerifyFields;

    open spec fn view(&self) -> VerifyFields {
        VerifyFields {
            auth_algo: self.auth_algo@,
            cert_url: self.cert_url@,
            transmission_id: self.transmission_id@,
            transmission_sig: self.transmission_sig@,
            transmission_time: self.transmission_time@,
            webhook_id: self.webhook_id@,
            webhook_event: self.webhook_event@,
        }
    }
}

/// Whether a body can be sent back for verification: not too long, and a JSON document in UTF-8.
pub open spec fn can_be_forwarded(payload: Seq<u8>) -> bool {
    &&& payload.len() <= MAX_WEBHOOK_BODY
    &&& valid_utf8(payload)
    &&& is_json_text(decode_utf8(payload))
}

/// Whether all five headers of a transmission are there.
pub open spec fn is_signed(headers: Map<Seq<char>, Seq<char>>) -> bool {
    &&& webhook::header(headers, PAYPAL_AUTH_ALGO_HEADER@) is Some
    &&& webhook::header(headers, PAYPAL_CERT_URL_HEADER@) is Some
    &&& webhook::header(headers, PAYPAL_TRANSMISSION_ID_HEADER@) is Some
    &&& webhook::header(headers, PAYPAL_TRANSMISSION_SIG_HEADER@) is Some
    &&& webhook::header(headers, PAYPAL_TRANSMISSION_TIME_HEADER@) is Some
}

/// What PayPal is asked to verify of a webhook, or why it is refused unasked.
pub open spec fn forwarded(webhook_id: Option<Seq<char>>, payload: Seq<u8>, headers: Map<Seq<char>, Seq<char>>) -> Result<
    VerifyFields,
    Fault,
> {
    match webhook_id {
        Some(id) => if can_be_forwarded(payload) && is_signed(headers) {
            Ok(
                VerifyFields {
                    auth_algo: webhook::header(headers, PAYPAL_AUTH_ALGO_HEADER@)->0,
                    cert_url: webhook::header(headers, PAYPAL_CERT_URL_HEADER@)->0,
                    transmission_id: webhook::header(headers, PAYPAL_TRANSMISSION_ID_HEADER@)->0,
                    transmission_sig: webhook::header(headers, PAYPAL_TRANSMISSION_SIG_HEADER@)->0,
                    transmission_time: webhook::header(headers, PAYPAL_TRANSMISSION_TIME_HEADER@)->0,
                    webhook_id: id,
                    webhook_event: before_space(after_space(decode_utf8(payload))),
                },
            )
        } else {
            Err(Fault::InvalidWebhookSignature)
        },
        None => Err(Fault::Config("PayPal webhook_id not configured; call PayPalProvider::with_webhook_id"@)),
    }
}

/// PayPal's answer to a request for verification.
#[derive(Debug)]
pub struct PayPalVerifyResponse {
    pub verification_status: String,
}

/// Whether PayPal's answer makes a webhook authentic.
pub open spec fn is_verified(status: u16, decoded: Option<PayPalVerifyResponse>) -> bool {
    &&& 200 <= status <= 299
    &&& decoded matches Some(v) && v.verification_status@ == "SUCCESS"@
}

/// A webhook, as PayPal sends it.
pub struct PayPalWebhookEvent {
    pub id: String,
    pub event_type: String,
    pub resource: Json,
    /// When PayPal emitted the event.
    pub create_time: Option<Timestamp>,
}

/// Whether `e` is the event that a webhook of the provider is, parsed at `now`.
pub open spec fn is_event(e: WebhookEvent, p: PayPalFields, sent: PayPalWebhookEvent, now: Timestamp) -> bool {
    &&& e.id == sent.id
    &&& common::is_event_type(e.event_type, sent.event_type@)
    &&& e.created_at == clock::reported_or(sent.create_time, now)
    &&& e.data@ == payload::interpreted(e.event_type.class(), sent.resource.tree())
    &&& e.provider@ == "paypal"@
    &&& e.livemode == !p.sandbox
}

/// Whether `r` is what a webhook says, parsed at `now`.
pub open spec fn event_outcome(
    p: PayPalFields,
    decoded: Result<PayPalWebhookEvent, String>,
    now: Timestamp,
    r: PaymentResult<WebhookEvent>,
) -> bool {
    match decoded {
        Ok(sent) => r matches Ok(e) && is_event(e, p, sent, now),
        Err(reason) => r matches Err(e) && e@ == Fault::Serialization(reason@),
    }
}

impl PayPalProvider {
    /// What PayPal is to be asked about a webhook, or why it is refused unasked.
    pub fn verify_webhook_request(&self, payload: &[u8], headers: &WebhookHeaders) -> (r: PaymentResult<
        PayPalVerifyRequest,
    >)
        ensures
            match r {
                Ok(q) => forwarded(self@.webhook_id, payload@, headers@) matches Ok(f) && q@ == f,
                Err(e) => forwarded(self@.webhook_id, payload@, headers@) matches Err(fault) && e@ == fault,
            },
    {
        let webhook_id = match self.webhook_id() {
            Some(id) => id.clone(),
            None => return Err(
                PaymentError::Config(
                    owned("PayPal webhook_id not configured; call PayPalProvider::with_webhook_id"),
                ),
            ),
        };
        if payload.len() > MAX_WEBHOOK_BODY {
            return Err(PaymentError::InvalidWebhookSignature);
        }
        let body = match utf8_text(payload) {
            Some(body) => body,
            None => return Err(PaymentError::InvalidWebhookSignature),
        };
        let webhook_event = match raw_json(body) {
            Some(event) => event,
            None => return Err(PaymentError::InvalidWebhookSignature),
        };
        let auth_algo = match headers.require(PAYPAL_AUTH_ALGO_HEADER) {
            Ok(v) => owned(v),
            Err(e) => return Err(e),
        };
        let cert_url = match headers.require(PAYPAL_CERT_URL_HEADER) {
            Ok(v) => owned(v),
            Err(e) => return Err(e),
        };
        let transmission_id = match headers.require(PAYPAL_TRANSMISSION_ID_HEADER) {
            Ok(v) => owned(v),
            Err(e) => return Err(e),
        };
        let transmission_sig = match headers.require(PAYPAL_TRANSMISSION_SIG_HEADER) {
            Ok(v) => owned(v),
            Err(e) => return Err(e),
        };
        let transmission_time = match headers.require(PAYPAL_TRANSMISSION_TIME_HEADER) {
            Ok(v) => owned(v),
            Err(e) => return Err(e),
        };
        Ok(
            PayPalVerifyRequest {
                auth_algo,
                cert_url,
                transmission_id,
                transmission_sig,
                transmission_time,
                webhook_id,
                webhook_event,
            },
        )
    }

    /// Whether PayPal's answer makes a webhook authentic. Anything but an explicit success is a
    /// rejection.
    pub fn verify_webhook_result(&self, status: u16, decoded: Option<PayPalVerifyResponse>) -> (r: PaymentResult<()>)
        ensures
            match r {
                Ok(()) => is_verified(status, decoded),
                Err(e) => !is_verified(status, decoded) && e@ == Fault::InvalidWebhookSignature,
            },
            r is Ok <==> 200 <= status < 300 && (decoded matches Some(v) && v.verification_status@ == "SUCCESS"@),
    {
        if status < 200 || status > 299 {
            return Err(PaymentError::InvalidWebhookSignature);
        }
        match decoded {
            Some(v) => if same(&v.verification_status, "SUCCESS") {
                Ok(())
            } else {
                Err(PaymentError::InvalidWebhookSignature)
            },
            None => Err(PaymentError::InvalidWebhookSignature),
        }
    }

    /// The event that a webhook is, parsed at `now`. `decoded` is the body read as a webhook, or why
    /// it could not be read as one.
    pub fn parse_webhook_at(&self, decoded: Result<PayPalWebhookEvent, String>, now: Timestamp) -> (r: PaymentResult<
        WebhookEvent,
    >)
        ensures
            event_outcome(self@, decoded, now, r),
            r is Ok <==> decoded is Ok,
            r matches Ok(e) ==> (decoded matches Ok(sent) && {
                &&& e.id == sent.id && e.livemode == !self@.sandbox
                &&& e.event_type.name() == sent.event_type@
                &&& e.provider@ == "paypal"@
            }),
    {
        let event = match decoded {
            Ok(event) => event,
            Err(reason) => return Err(PaymentError::Serialization(reason)),
        };
        let event_type = WebhookEventType::from_str(&event.event_type);
        let data = WebhookData::from_event_type(&event_type, event.resource);
        Ok(
            WebhookEvent {
                id: event.id,
                data,
                event_type,
                created_at: reported_at(event.create_time, now),
                provider: owned("paypal"),
                livemode: !self.is_sandbox(),
            },
        )
    }

    /// The event that a webhook is.
    pub fn parse_webhook(&self, decoded: Result<PayPalWebhookEvent, String>) -> (r: PaymentResult<WebhookEvent>)
        ensures
            exists|now: Timestamp| #[trigger] clock::can_be_now(now) && event_outcome(self@, decoded, now, r),
            r is Ok <==> decoded is Ok,
            r matches Ok(e) ==> (decoded matches Ok(sent) && {
                &&& e.id == sent.id && e.livemode == !self@.sandbox
                &&& e.event_type.name() == sent.event_type@
                &&& e.provider@ == "paypal"@
            }),
    {
        self.parse_webhook_at(decoded, now())
    }

    /// The event that a webhook is, where PayPal's answer makes it authentic. A body that is not
    /// authentic is never handed back.
    pub fn handle_webhook(
        &self,
        status: u16,
        verdict: Option<PayPalVerifyResponse>,
        decoded: Result<PayPalWebhookEvent, String>,
    ) -> (r: PaymentResult<WebhookEvent>)
        ensures
            if is_verified(status, verdict) {
                exists|now: Timestamp| #[trigger] clock::can_be_now(now) && event_outcome(self@, decoded, now, r)
            } else {
                r matches Err(e) && e@ == Fault::InvalidWebhookSignature
            },
    {
        match self.verify_webhook_result(status, verdict) {
            Ok(()) => self.parse_webhook(decoded),
            Err(e) => Err(e),
        }
    }
}

/// A webhook that lacks one of the five headers, or whose body is too long, is refused without a
/// word to PayPal.
pub proof fn unsigned_is_never_forwarded(
    webhook_id: Option<Seq<char>>,
    payload: Seq<u8>,
    headers: Map<Seq<char>, Seq<char>>,
)
    requires
        !is_signed(headers) || payload.len() > MAX_WEBHOOK_BODY,
    ensures
        forwarded(webhook_id, payload, headers) is Err,
{
}

/// Text without white space around it is its own trimming.
proof fn lemma_untouched(s: Seq<char>)
    requires
        s.len() > 0 ==> !json_space(s[0]) && !json_space(s.last()),
    ensures
        before_space(after_space(s)) == s,
{
}

/// A body with no white space around it is forwarded byte for byte.
pub proof fn body_is_forwarded_verbatim(
    webhook_id: Option<Seq<char>>,
    payload: Seq<u8>,
    headers: Map<Seq<char>, Seq<char>>,
)
    requires
        forwarded(webhook_id, payload, headers) is Ok,
        decode_utf8(payload).len() > 0 ==> !json_space(decode_utf8(payload)[0]) && !json_space(
            decode_utf8(payload).last(),
        ),
    ensures
        encode_utf8(forwarded(webhook_id, payload, headers)->Ok_0.webhook_event) == payload,
{
    lemma_untouched(decode_utf8(payload));
    decode_utf8_encode_utf8(payload);
}

} // verus!
