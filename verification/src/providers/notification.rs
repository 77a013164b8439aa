//! Braintree's webhooks: a signature over a base64 text, and an XML notification inside it.
//!
//! Verification and parsing take the same bytes, the `bt_payload` field exactly as Braintree sent
//! it, so the signature covers precisely the content that is then acted on.
use crate::clock::{self, now, parse_rfc3339, reported_at, Timestamp};
use crate::crypto::{self, base64_decode, hex_decode, hex_encode, hmac_sha1_matches, sha1, sha256};
use crate::error::{Fault, PaymentError, PaymentResult};
use crate::gateway;
use crate::json::{self, Json, Tree};
use crate::payload::{self, WebhookData};
use crate::providers::braintree::{BraintreeProvider, BRAINTREE_SIGNATURE_HEADER};
use crate::providers::common;
use crate::text::{self, concat2, concat3, owned, same, split_once_text, split_text, trim_text};
use crate::webhook::{self, WebhookEvent, WebhookEventType, WebhookHeaders};
use crate::xml::{self, local_name, read_element, read_events, XmlEvent, XmlToken};
use vstd::prelude::*;
use vstd::utf8::*;

verus! {

/// The signature under `key` among `key|signature` pairs, the first of them where there are several.
pub open spec fn signature_in(pairs: Seq<Seq<char>>, key: Seq<char>) -> Option<Seq<char>>
    decreases pairs.len(),
{
    if pairs.len() == 0 {
        None
    } else {
        match text::split_once(text::trim(pairs[0]), '|') {
            Some((k, v)) => if k == key {
                Some(v)
            } else {
                signature_in(pairs.skip(1), key)
            },
            None => signature_in(pairs.skip(1), key),
        }
    }
}

/// The signature under `key` among groups of pairs.
pub open spec fn signature_among(groups: Seq<Seq<char>>, key: Seq<char>) -> Option<Seq<char>>
    decreases groups.len(),
{
    if groups.len() == 0 {
        None
    } else {
        match signature_in(text::split(groups[0], ','), key) {
            Some(v) => Some(v),
            None => signature_among(groups.skip(1), key),
        }
    }
}

/// The signature that a `bt_signature` field holds for a public key.
pub open spec fn signature_for(field: Seq<char>, key: Seq<char>) -> Option<Seq<char>> {
    signature_among(text::split(field, '&'), key)
}

/// Whether a payload is authentic, and if not why not.
pub open spec fn verification(
    public_key: Seq<char>,
    private_key: Seq<char>,
    payload: Seq<u8>,
    headers: Map<Seq<char>, Seq<char>>,
) -> Result<(), Fault> {
    if public_key.len() == 0 || private_key.len() == 0 {
        Err(Fault::Config("Braintree public_key and private_key must not be empty"@))
    } else {
        match webhook::header(headers, BRAINTREE_SIGNATURE_HEADER@) {
            Some(field) => match signature_for(field, public_key) {
                Some(signature) => if crypto::hex_bytes(signature) == Some(
                    crypto::hmac_sha1(crypto::sha1_digest(encode_utf8(private_key)), payload),
                ) {
                    Ok(())
                } else {
                    Err(Fault::InvalidWebhookSignature)
                },
                None => Err(Fault::InvalidWebhookSignature),
            },
            None => Err(Fault::InvalidWebhookSignature),
        }
    }
}

/// Finds the signature under `key` among `key|signature` pairs.
fn find_signature(pairs: &Vec<String>, key: &str) -> (r: Option<String>)
    ensures
        text::opt_text(r) == signature_in(text::texts(pairs@), key@),
{
    let ghost all = text::texts(pairs@);
    let mut i: usize = 0;
    proof {
        assert(all.skip(0) =~= all);
    }
    while i < pairs.len()
        invariant
            i <= pairs.len(),
            all == text::texts(pairs@),
            signature_in(all.skip(i as int), key@) == signature_in(all, key@),
        decreases pairs.len() - i,
    {
        let trimmed = trim_text(&pairs[i]);
        proof {
            assert(all.skip(i as int)[0] == pairs@[i as int]@);
            assert(all.skip(i as int).skip(1) =~= all.skip(i as int + 1));
        }
        match split_once_text(&trimmed, '|') {
            Some((k, v)) => {
                if same(&k, key) {
                    return Some(v);
                }
            },
            None => {},
        }
        i += 1;
    }
    None
}

/// The signature that a `bt_signature` field holds for a public key.
pub fn signature_of(field: &str, key: &str) -> (r: Option<String>)
    ensures
        text::opt_text(r) == signature_for(field@, key@),
{
    let groups = split_text(field, '&');
    let ghost all = text::texts(groups@);
    let mut i: usize = 0;
    proof {
        assert(all.skip(0) =~= all);
    }
    while i < groups.len()
        invariant
            i <= groups.len(),
            all == text::texts(groups@),
            all == text::split(field@, '&'),
            signature_among(all.skip(i as int), key@) == signature_among(all, key@),
        decreases groups.len() - i,
    {
        let pairs = split_text(&groups[i], ',');
        proof {
            assert(all.skip(i as int)[0] == groups@[i as int]@);
            assert(all.skip(i as int).skip(1) =~= all.skip(i as int + 1));
        }
        match find_signature(&pairs, key) {
            Some(v) => return Some(v),
            None => {},
        }
        i += 1;
    }
    None
}

/// Whether a byte is ASCII white space.
pub open spec fn ascii_space(b: u8) -> bool {
    b == 0x20 || b == 0x09 || b == 0x0a || b == 0x0c || b == 0x0d
}

/// The bytes that are not ASCII white space.
pub open spec fn compacted(bytes: Seq<u8>) -> Seq<u8>
    decreases bytes.len(),
{
    if bytes.len() == 0 {
        Seq::empty()
    } else if ascii_space(bytes.last()) {
        compacted(bytes.drop_last())
    } else {
        compacted(bytes.drop_last()).push(bytes.last())
    }
}

fn compact(bytes: &[u8]) -> (r: Vec<u8>)
    ensures
        r@ == compacted(bytes@),
{
    let mut out: Vec<u8> = Vec::new();
    let mut i: usize = 0;
    while i < bytes.len()
        invariant
            i <= bytes.len(),
            out@ == compacted(bytes@.take(i as int)),
        decreases bytes.len() - i,
    {
        let b: u8 = bytes[i];
        proof {
            assert(bytes@.take(i as int + 1).drop_last() =~= bytes@.take(i as int));
            assert(bytes@.take(i as int + 1).last() == b);
        }
        if !(b == 0x20 || b == 0x09 || b == 0x0a || b == 0x0c || b == 0x0d) {
            out.push(b);
        }
        i += 1;
    }
    proof {
        assert(bytes@.take(bytes@.len() as int) =~= bytes@);
    }
    out
}

/// A decoded `<notification>` document.
pub struct BraintreeNotification {
    pub kind: String,
    pub timestamp: Option<Timestamp>,
    pub subject: Json,
}

/// What a notification says.
pub struct NotificationFields {
    pub kind: Seq<char>,
    pub timestamp: Option<Timestamp>,
    pub subject: Tree,
}

impl View for BraintreeNotification {
    type V = NotificationFields;

    open spec fn view(&self) -> NotificationFields {
        NotificationFields { kind: self.kind@, timestamp: self.timestamp, subject: self.subject.tree() }
    }
}

/// The position behind the opening tag of the root, or why there is none that will do.
pub open spec fn root_content(ev: Seq<XmlToken>, at: int) -> Result<int, Seq<char>>
    decreases ev.len() - at,
{
    if at < 0 || at >= ev.len() {
        Err("Braintree notification XML contains no elements"@)
    } else {
        match ev[at] {
            XmlToken::Start(tag) => if xml::local(tag.name) == "notification"@ {
                Ok(at + 1)
            } else {
                Err(
                    "Braintree notification root element is <"@ + xml::local(tag.name)
                        + ">, expected <notification>"@,
                )
            },
            XmlToken::Broken(reason) => Err("malformed Braintree notification XML: "@ + reason),
            _ => root_content(ev, at + 1),
        }
    }
}

/// The instant that a text member denotes.
pub open spec fn instant_member(root: Tree, name: Seq<char>) -> Option<Timestamp> {
    match json::member(root, name) {
        Some(Tree::Text(s)) => match clock::rfc3339(s) {
            Some((secs, nanos)) => Some(Timestamp { secs, nanos }),
            None => None,
        },
        _ => None,
    }
}

/// What the root of a notification says.
pub open spec fn notification_in(root: Tree) -> Result<NotificationFields, Seq<char>> {
    match json::member(root, "kind"@) {
        Some(Tree::Text(kind)) => Ok(
            NotificationFields {
                kind,
                timestamp: instant_member(root, "timestamp"@),
                subject: match json::member(root, "subject"@) {
                    Some(t) => t,
                    None => Tree::Null,
                },
            },
        ),
        _ => Err("Braintree notification is missing its <kind> element"@),
    }
}

/// What the events of a document say, or why they say nothing.
pub open spec fn notification_of(ev: Seq<XmlToken>) -> Result<NotificationFields, Seq<char>> {
    match root_content(ev, 0) {
        Ok(at) => match xml::element(ev, at, false, false, 0) {
            Ok((root, next)) => notification_in(root),
            Err(reason) => Err(reason),
        },
        Err(reason) => Err(reason),
    }
}

/// Finds the content of the root element.
fn find_root(events: &Vec<XmlEvent>) -> (r: PaymentResult<usize>)
    ensures
        match r {
            Ok(at) => root_content(xml::tokens(events@), 0) matches Ok(n) && n == at && at <= events.len(),
            Err(e) => root_content(xml::tokens(events@), 0) matches Err(reason) && e@ == Fault::Serialization(reason),
        },
{
    let ghost ev = xml::tokens(events@);
    let mut i: usize = 0;
    while i < events.len()
        invariant
            i <= events.len(),
            ev == xml::tokens(events@),
            root_content(ev, i as int) == root_content(ev, 0),
        decreases events.len() - i,
    {
        proof {
            assert(ev[i as int] == events@[i as int].token());
        }
        match &events[i] {
            XmlEvent::Start(tag) => {
                let name = local_name(&tag.name);
                if !same(&name, "notification") {
                    return Err(
                        PaymentError::Serialization(
                            concat3(
                                "Braintree notification root element is <",
                                &name,
                                ">, expected <notification>",
                            ),
                        ),
                    );
                }
                return Ok(i + 1);
            },
            XmlEvent::Broken(reason) => {
                return Err(
                    PaymentError::Serialization(concat2("malformed Braintree notification XML: ", reason)),
                );
            },
            _ => {},
        }
        i += 1;
    }
    Err(PaymentError::Serialization(owned("Braintree notification XML contains no elements")))
}

/// Reads a notification out of the events of its document.
pub fn parse_notification(events: &Vec<XmlEvent>) -> (r: PaymentResult<BraintreeNotification>)
    ensures
        match r {
            Ok(n) => notification_of(xml::tokens(events@)) matches Ok(f) && n@ == f,
            Err(e) => notification_of(xml::tokens(events@)) matches Err(reason) && e@ == Fault::Serialization(reason),
        },
{
    let at: usize = match find_root(events) {
        Ok(at) => at,
        Err(e) => return Err(e),
    };
    let root = match read_element(events, at, false, false, 0) {
        Ok((root, _)) => root,
        Err(e) => return Err(e),
    };
    let kind = match root.get("kind") {
        Some(Json::Text(kind)) => kind.clone(),
        _ => return Err(
            PaymentError::Serialization(owned("Braintree notification is missing its <kind> element")),
        ),
    };
    let timestamp = match root.get("timestamp") {
        Some(Json::Text(s)) => parse_rfc3339(s),
        _ => None,
    };
    let subject = match root.get("subject") {
        Some(value) => value.clone(),
        None => Json::Null,
    };
    Ok(BraintreeNotification { kind, timestamp, subject })
}

/// Parse Braintree's XML webhook notification,
/// `<notification><timestamp/><kind/><subject/></notification>`.
pub fn parse_notification_xml(xml: &[u8]) -> (r: PaymentResult<BraintreeNotification>)
    ensures
        match r {
            Ok(n) => notification_of(xml::document_events(xml@)) matches Ok(f) && n@ == f,
            Err(e) => notification_of(xml::document_events(xml@)) matches Err(reason) && e@ == Fault::Serialization(
                reason,
            ),
        },
{
    let events = read_events(xml);
    parse_notification(&events)
}

/// The id of the event in a payload, which is the same for every delivery of it.
pub open spec fn event_id(payload: Seq<u8>) -> Seq<char> {
    "bt_"@ + crypto::hex_text(crypto::sha256_digest(compacted(payload)))
}

/// Whether `e` is the event that a payload with the given notification is, parsed at `now`.
pub open spec fn is_event(e: WebhookEvent, payload: Seq<u8>, n: NotificationFields, now: Timestamp) -> bool {
    &&& e.id@ == event_id(payload)
    &&& common::is_event_type(e.event_type, n.kind)
    &&& e.created_at == clock::reported_or(n.timestamp, now)
    &&& e.data@ == payload::interpreted(e.event_type.class(), n.subject)
    &&& e.provider@ == "braintree"@
    &&& e.livemode
}

/// Whether `r` is what a payload says, parsed at `now`.
pub open spec fn event_outcome(payload: Seq<u8>, now: Timestamp, r: PaymentResult<WebhookEvent>) -> bool {
    match crypto::base64_bytes(compacted(payload)) {
        Ok(document) => match notification_of(xml::document_events(document)) {
            Ok(n) => r matches Ok(e) && is_event(e, payload, n, now),
            Err(reason) => r matches Err(e) && e@ == Fault::Serialization(reason),
        },
        Err(reason) => r matches Err(e) && e@ == Fault::Serialization(
            "Braintree bt_payload is not valid base64: "@ + reason
                + ". Pass the bt_payload form field verbatim, not the decoded XML."@,
        ),
    }
}

/// The event that a notification stands for.
fn event_of(n: BraintreeNotification, compact: &[u8], Ghost(payload): Ghost<Seq<u8>>, now: Timestamp) -> (r: WebhookEvent)
    requires
        compact@ == compacted(payload),
    ensures
        is_event(r, payload, n@, now),
{
    let digest = sha256(compact);
    let shown = hex_encode(&digest);
    let event_type = WebhookEventType::from_str(&n.kind);
    let data = WebhookData::from_event_type(&event_type, n.subject);
    WebhookEvent {
        id: concat2("bt_", &shown),
        created_at: reported_at(n.timestamp, now),
        data,
        event_type,
        provider: owned("braintree"),
        livemode: true,
    }
}

/// Parses a payload at `now`.
pub fn parse_webhook_at(payload: &[u8], now: Timestamp) -> (r: PaymentResult<WebhookEvent>)
    ensures
        event_outcome(payload@, now, r),
        r matches Ok(e) ==> {
            &&& e.id@ == "bt_"@ + crypto::hex_text(crypto::sha256_digest(compacted(payload@)))
            &&& e.provider@ == "braintree"@
            &&& e.livemode
        },
{
    let bytes = compact(payload);
    let document = match base64_decode(&bytes) {
        Ok(document) => document,
        Err(reason) => {
            return Err(
                PaymentError::Serialization(
                    concat3(
                        "Braintree bt_payload is not valid base64: ",
                        &reason,
                        ". Pass the bt_payload form field verbatim, not the decoded XML.",
                    ),
                ),
            );
        },
    };
    match parse_notification_xml(&document) {
        Ok(n) => Ok(event_of(n, &bytes, Ghost(payload@), now)),
        Err(e) => Err(e),
    }
}

impl BraintreeProvider {
    /// Verify a Braintree webhook. `payload` is the raw `bt_payload` form field.
    pub fn verify_webhook(&self, payload: &[u8], headers: &WebhookHeaders) -> (r: PaymentResult<()>)
        ensures
            gateway::outcome(r) == verification(self@.public_key, self@.private_key, payload@, headers@),
    {
        if self.public_key().unicode_len() == 0 || self.private_key().unicode_len() == 0 {
            return Err(PaymentError::Config(owned("Braintree public_key and private_key must not be empty")));
        }
        let field = match headers.require(BRAINTREE_SIGNATURE_HEADER) {
            Ok(field) => field,
            Err(e) => return Err(e),
        };
        let signature = match signature_of(field, self.public_key()) {
            Some(s) => s,
            None => return Err(PaymentError::InvalidWebhookSignature),
        };
        let expected = match hex_decode(&signature) {
            Some(bytes) => bytes,
            None => return Err(PaymentError::InvalidWebhookSignature),
        };
        let key = sha1(self.private_key().as_bytes());
        if hmac_sha1_matches(&key, payload, &expected) {
            Ok(())
        } else {
            Err(PaymentError::InvalidWebhookSignature)
        }
    }

    /// Parse a Braintree webhook. `payload` is the raw `bt_payload` form field.
    pub fn parse_webhook(&self, payload: &[u8]) -> (r: PaymentResult<WebhookEvent>)
        ensures
            exists|now: Timestamp| #[trigger] clock::can_be_now(now) && event_outcome(payload@, now, r),
            r matches Ok(e) ==> {
                &&& e.id@ == "bt_"@ + crypto::hex_text(crypto::sha256_digest(compacted(payload@)))
                &&& e.provider@ == "braintree"@
                &&& e.livemode
            },
    {
        parse_webhook_at(payload, now())
    }

    /// Verify and parse a webhook. A payload that is not authentic is never handed back.
    pub fn handle_webhook(&self, payload: &[u8], headers: &WebhookHeaders) -> (r: PaymentResult<WebhookEvent>)
        ensures
            match verification(self@.public_key, self@.private_key, payload@, headers@) {
                Ok(()) => exists|now: Timestamp| #[trigger] clock::can_be_now(now) && event_outcome(payload@, now, r),
                Err(fault) => r matches Err(e) && e@ == fault,
            },
    {
        match self.verify_webhook(payload, headers) {
            Ok(()) => self.parse_webhook(payload),
            Err(e) => Err(e),
        }
    }
}

/// Deliveries that differ only in white space have the same event id.
pub proof fn redelivery_has_the_same_id(a: Seq<u8>, b: Seq<u8>)
    requires
        compacted(a) == compacted(b),
    ensures
        event_id(a) == event_id(b),
{
}

/// Verification fails closed: without both keys, without the signature field, or without a
/// signature under the public key, no payload is authentic.
pub proof fn unsigned_is_refused(
    public_key: Seq<char>,
    private_key: Seq<char>,
    payload: Seq<u8>,
    headers: Map<Seq<char>, Seq<char>>,
)
    requires
        public_key.len() == 0 || private_key.len() == 0 || webhook::header(headers, BRAINTREE_SIGNATURE_HEADER@) is None
            || signature_for(webhook::header(headers, BRAINTREE_SIGNATURE_HEADER@)->0, public_key) is None,
    ensures
        verification(public_key, private_key, payload, headers) is Err,
{
}

/// The `bt_signature` field that a payload is sent with which was signed under the keys.
pub open spec fn signature_field(public_key: Seq<char>, private_key: Seq<char>, payload: Seq<u8>) -> Seq<char> {
    public_key + seq!['|'] + crypto::hex_text(
        crypto::hmac_sha1(crypto::sha1_digest(encode_utf8(private_key)), payload),
    )
}

/// A field with one pair holds that pair's signature.
proof fn lemma_one_pair(key: Seq<char>, hex: Seq<char>)
    requires
        key.len() > 0,
        !text::whitespace(key[0]),
        text::lacks(key, '|'),
        text::lacks(key, '&'),
        text::lacks(key, ','),
        text::lacks(hex, '&'),
        text::lacks(hex, ','),
        hex.len() > 0 ==> !text::whitespace(hex.last()),
    ensures
        signature_for(key + seq!['|'] + hex, key) == Some(hex),
{
    let field = key + seq!['|'] + hex;
    assert(field[0] == key[0]);
    assert(!text::whitespace(field.last()));
    assert(text::trim(field) == field);
    text::lemma_unsplit(field, '&');
    text::lemma_unsplit(field, ',');
    text::lemma_split_once(key, '|', hex);
    assert(signature_in(seq![field], key) == Some(hex));
    assert(signature_among(seq![field], key) == Some(hex));
}

/// A payload that was signed under the keys is accepted. A public key is a plain identifier.
pub proof fn signed_is_accepted(
    public_key: Seq<char>,
    private_key: Seq<char>,
    payload: Seq<u8>,
    headers: Map<Seq<char>, Seq<char>>,
)
    requires
        public_key.len() > 0,
        private_key.len() > 0,
        !text::whitespace(public_key[0]),
        text::lacks(public_key, '|'),
        text::lacks(public_key, '&'),
        text::lacks(public_key, ','),
        webhook::header(headers, BRAINTREE_SIGNATURE_HEADER@) == Some(
            signature_field(public_key, private_key, payload),
        ),
    ensures
        verification(public_key, private_key, payload, headers) is Ok,
{
    let code = crypto::hmac_sha1(crypto::sha1_digest(encode_utf8(private_key)), payload);
    crypto::hex_round_trip(code);
    crypto::lemma_hex_text_digits(code);
    lemma_one_pair(public_key, crypto::hex_text(code));
}

} // verus!
